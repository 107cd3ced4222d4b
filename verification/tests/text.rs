use reconciler::helper::{
    append_to_file, prepend_to_file, read_in_variable, remove_from_file, replace_line,
};
use reconciler::text::{
    begins_with, characters, cut_once, decimal_text, equal, includes, inner, joined, line_list,
    parse_number, pieces, position, trimmed, whitespace, without_all,
};

fn samples() -> Vec<&'static str> {
    vec![
        "",
        " ",
        "a",
        "  a  ",
        "\ta b\n",
        "a\nb",
        "a\nb\n",
        "a\r\nb\r\n",
        "a\r",
        "\n",
        "\n\n",
        "\r\n",
        "a\n\nb",
        "KEYMAP=de\nHOOKS=(base udev)\n",
        "x = 1\ny = 2",
        "\u{a0}non breaking\u{3000}",
        "ünïcödé text\nzweite Zeile\n",
        "a  b   c",
        "->->",
        "one__two__three",
        "trailing space \n leading",
    ]
}

#[test]
fn characters_are_those_of_the_text() {
    for s in samples() {
        assert_eq!(characters(s), s.chars().collect::<Vec<char>>());
    }
}

#[test]
fn whitespace_agrees_with_the_standard_library() {
    for code in 0u32..0x3100 {
        if let Some(c) = char::from_u32(code) {
            assert_eq!(whitespace(c), c.is_whitespace(), "U+{:04X}", code);
        }
    }
    assert!(!whitespace('a'));
    assert!(whitespace(' '));
    assert!(whitespace('\u{2028}'));
}

#[test]
fn trimmed_agrees_with_the_standard_library() {
    for s in samples() {
        assert_eq!(trimmed(s), s.trim().to_string(), "{:?}", s);
    }
    assert_eq!(trimmed("  node1 \n"), "node1");
    assert_eq!(trimmed("   "), "");
}

#[test]
fn line_list_agrees_with_the_standard_library() {
    for s in samples() {
        let expected: Vec<String> = s.lines().map(|l| l.to_string()).collect();
        assert_eq!(line_list(s), expected, "{:?}", s);
    }
    assert_eq!(line_list("a\r\nb\n"), vec!["a".to_string(), "b".to_string()]);
    assert_eq!(line_list(""), Vec::<String>::new());
    assert_eq!(line_list("\n"), vec!["".to_string()]);
    assert_eq!(line_list("a\r"), vec!["a\r".to_string()]);
}

#[test]
fn pieces_agree_with_the_standard_library() {
    let separators = [" ", ":", "__", "->", ", ", "\n", "ab", "/"];
    for s in samples() {
        for sep in separators {
            let expected: Vec<String> = s.split(sep).map(|p| p.to_string()).collect();
            assert_eq!(pieces(s, sep), expected, "{:?} cut at {:?}", s, sep);
        }
    }
    assert_eq!(pieces("a  b", " "), vec!["a".to_string(), "".to_string(), "b".to_string()]);
    assert_eq!(pieces("", " "), vec!["".to_string()]);
    assert_eq!(pieces("aaa", "aa"), vec!["".to_string(), "a".to_string()]);
}

#[test]
fn an_empty_separator_cuts_nowhere() {
    assert_eq!(pieces("abc", ""), vec!["abc".to_string()]);
}

#[test]
fn cut_once_agrees_with_the_standard_library() {
    let separators = [" ", "=", " = ", "__", "(incoming)", "\n", ""];
    for s in samples() {
        for sep in separators {
            let expected = s.split_once(sep).map(|(a, b)| (a.to_string(), b.to_string()));
            assert_eq!(cut_once(s, sep), expected, "{:?} cut at {:?}", s, sep);
        }
    }
    assert_eq!(
        cut_once("KEYMAP=de=x", "="),
        Some(("KEYMAP".to_string(), "de=x".to_string()))
    );
    assert_eq!(cut_once("KEYMAP", "="), None);
}

#[test]
fn search_agrees_with_the_standard_library() {
    let patterns = ["a", "b", "\n", "  ", "HOOKS", "ö", "", "->"];
    for s in samples() {
        for pat in patterns {
            let expected = s.find(pat).map(|byte| s[..byte].chars().count());
            assert_eq!(position(s, pat), expected, "{:?} in {:?}", pat, s);
            assert_eq!(includes(s, pat), s.contains(pat), "{:?} in {:?}", pat, s);
            assert_eq!(begins_with(s, pat), s.starts_with(pat), "{:?} in {:?}", pat, s);
        }
    }
    assert_eq!(position("hello world", "o w"), Some(4));
    assert_eq!(position("hello", "xyz"), None);
}

#[test]
fn texts_are_equal_when_their_characters_are() {
    assert!(equal("abc", "abc"));
    assert!(!equal("abc", "abd"));
    assert!(!equal("abc", "ab"));
    assert!(equal("", ""));
}

#[test]
fn joined_agrees_with_the_standard_library() {
    let lists: Vec<Vec<String>> = vec![
        vec![],
        vec!["a".to_string()],
        vec!["a".to_string(), "b".to_string()],
        vec!["".to_string(), "".to_string(), "c".to_string()],
    ];
    for list in lists {
        for sep in [" ", ",", "", "\n"] {
            assert_eq!(joined(&list, sep), list.join(sep));
        }
    }
}

#[test]
fn without_all_agrees_with_replacing_by_nothing() {
    for s in samples() {
        for pat in ["a", "\n", "__", " ", "->"] {
            assert_eq!(without_all(s, pat), s.replace(pat, ""), "{:?} without {:?}", s, pat);
        }
    }
    assert_eq!(without_all("a--b--c", "--"), "abc");
}

#[test]
fn inner_takes_off_both_ends() {
    assert_eq!(inner("(base udev)"), "base udev");
    assert_eq!(inner("\"quiet splash\""), "quiet splash");
    assert_eq!(inner("()"), "");
    assert_eq!(inner("x"), "");
    assert_eq!(inner(""), "");
    assert_eq!(inner("ab"), "");
    assert_eq!(inner("[sshd]"), "sshd");
}

#[test]
fn numbers_are_read_as_the_standard_library_reads_them() {
    let texts = [
        "0", "7", "42", "255", "256", "007", "+5", "+", "", "-1", " 1", "1 ", "12a", "a",
        "18446744073709551615", "18446744073709551616", "99999999999999999999999", "++1",
    ];
    for text in texts {
        assert_eq!(parse_number(text, 255), text.parse::<u8>().ok().map(|n| n as usize), "{:?}", text);
        assert_eq!(parse_number(text, usize::MAX), text.parse::<usize>().ok(), "{:?}", text);
    }
    assert_eq!(parse_number("5", 255), Some(5));
    assert_eq!(parse_number("300", 255), None);
}

#[test]
fn numbers_are_written_in_base_ten() {
    for n in [0usize, 1, 9, 10, 11, 99, 100, 255, 1000, 65535, usize::MAX] {
        assert_eq!(decimal_text(n), n.to_string());
    }
}

#[test]
fn a_written_number_reads_back() {
    for n in [0usize, 5, 10, 123, 255, 4096, usize::MAX] {
        assert_eq!(parse_number(&decimal_text(n), usize::MAX), Some(n));
    }
}

#[test]
fn read_in_variable_takes_the_value_behind_the_divider() {
    let conf = "# comment\nMODULES=(btrfs)\nKEYMAP=de-latin1\nHOOKS=(base udev)\n";
    assert_eq!(read_in_variable(conf, "=", "KEYMAP"), Some("de-latin1".to_string()));
    assert_eq!(read_in_variable(conf, "=", "MODULES"), Some("(btrfs)".to_string()));
    assert_eq!(read_in_variable(conf, "=", "COMPRESSION"), None);
    assert_eq!(read_in_variable("", "=", "KEYMAP"), None);
}

#[test]
fn read_in_variable_trims_the_value() {
    assert_eq!(
        read_in_variable("ParallelDownloads = 5  \n", " = ", "ParallelDownloads"),
        Some("5".to_string())
    );
    assert_eq!(
        read_in_variable("Timezone=Europe/Berlin\r\nNTP=yes\r\n", "=", "Timezone"),
        Some("Europe/Berlin".to_string())
    );
}

#[test]
fn read_in_variable_takes_the_first_line_that_sets_it() {
    assert_eq!(read_in_variable("A=1\nA=2\n", "=", "A"), Some("1".to_string()));
}

#[test]
fn read_in_variable_wants_the_name_at_the_start_of_the_line() {
    assert_eq!(read_in_variable("#KEYMAP=us\n KEYMAP=de\n", "=", "KEYMAP"), None);
    assert_eq!(read_in_variable("#KEYMAP=us\nKEYMAP=de\n", "=", "KEYMAP"), Some("de".to_string()));
}

#[test]
fn read_in_variable_yields_nothing_when_trimming_removes_the_divider() {
    // The line begins with the name and the divider, but without the white
    // space around it the divider is gone.
    assert_eq!(read_in_variable("ParallelDownloads = \n", " = ", "ParallelDownloads"), None);
}

#[test]
fn replace_line_replaces_every_line_with_the_prefix() {
    let content = "a=1\nKEYMAP=us\nb=2\nKEYMAP=fr";
    assert_eq!(replace_line(content, "KEYMAP=", "KEYMAP=de"), "a=1\nKEYMAP=de\nb=2\nKEYMAP=de\n");
}

#[test]
fn replace_line_ends_every_line_with_a_line_feed() {
    assert_eq!(replace_line("a\nb", "x", "y"), "a\nb\n");
    assert_eq!(replace_line("", "x", "y"), "");
    assert_eq!(replace_line("a\r\nb\r\n", "a", "c"), "c\nb\n");
}

#[test]
fn prepend_and_append_put_the_text_on_a_line_of_its_own() {
    assert_eq!(prepend_to_file("old", "new"), "new\nold");
    assert_eq!(append_to_file("old", "new"), "old\nnew");
    assert_eq!(prepend_to_file("", "x"), "x\n");
    assert_eq!(append_to_file("", "x"), "\nx");
}

#[test]
fn remove_from_file_takes_the_text_out_and_trims() {
    let content = "[DEFAULT]\nbantime = 10\n\n[sshd]\nenabled = true\n";
    assert_eq!(
        remove_from_file(content, "\n\n[sshd]\nenabled = true"),
        "[DEFAULT]\nbantime = 10"
    );
    assert_eq!(remove_from_file("  abc  ", "b"), "ac");
    assert_eq!(remove_from_file("abc", "x"), "abc");
}
