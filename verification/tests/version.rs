use reconciler::data_types::New;
use reconciler::function::Action;
use reconciler::helper::ExecutionContext;
use reconciler::probe::{Fault, Finding, Inquiry, Probe, ProbeError, Question};
use reconciler::structure::{
    CargoToml, Directories, Downloads, Fail2Ban, Files, Grub, Keyboard, Language, Lvm, Mkinitcpio,
    Monitor, Packages, Pacman, Partitioning, Services, Shell, System, Time, Ufw, User, Users,
};
use reconciler::get_config::ConfigError;
use reconciler::version::{
    all_complete, commit_message, compare, holds, read_version, replace_index, shown_line,
    version_from, AllVersions, Moment, Needs, Version, VersionError,
};

const ROOT: ExecutionContext = ExecutionContext { privileged: true };

fn text(s: &str) -> Option<String> {
    Some(s.to_string())
}

fn names(list: &[&str]) -> Vec<String> {
    list.iter().map(|s| s.to_string()).collect()
}

fn file(path: &str, content: &str) -> Finding {
    Finding {
        question: Question { kind: Inquiry::ReadFile, subject: path.to_string() },
        ok: true,
        text: content.to_string(),
    }
}

fn version(index: usize, name: &str, seconds: i64) -> Version {
    // The time of the file name is derived from the seconds of a day in 2024.
    let hour = (seconds / 3600) % 24;
    let minute = (seconds / 60) % 60;
    let second = seconds % 60;
    Version {
        name: text(name),
        index: Some(index),
        selected: false,
        last_use_date: Some(Moment { seconds: 1704067200 + seconds, nanos: 0 }),
        config_path: Some(format!(
            "/home/falk/.versions/{}__{}__2024-01-01_{:02}-{:02}-{:02}.toml",
            index, name, hour, minute, second
        )),
    }
}

fn history(versions: Vec<Version>) -> AllVersions {
    let current = versions.iter().find(|v| v.index == Some(0)).cloned();
    AllVersions { versions: Some(versions), selected: None, current }
}

#[test]
fn a_version_is_read_off_the_name_of_its_file() {
    assert_eq!(
        read_version("3__first try__2024-03-05_14-30-59.toml"),
        Ok(Version {
            name: text("first try"),
            index: Some(3),
            selected: false,
            last_use_date: Some(Moment { seconds: 1709649059, nanos: 0 }),
            config_path: text("/home/falk/.versions/3__first try__2024-03-05_14-30-59.toml"),
        })
    );
}

#[test]
fn the_time_of_a_version_is_the_time_in_its_name() {
    let early = read_version("1__a__1970-01-01_00-00-00.toml").unwrap();
    assert_eq!(early.last_use_date, Some(Moment { seconds: 0, nanos: 0 }));
    let later = read_version("1__a__1970-01-02_00-00-01.toml").unwrap();
    assert_eq!(later.last_use_date, Some(Moment { seconds: 86401, nanos: 0 }));
    let before = read_version("1__a__1969-12-31_23-59-59.toml").unwrap();
    assert_eq!(before.last_use_date, Some(Moment { seconds: -1, nanos: 0 }));
}

#[test]
fn a_file_with_a_wrong_name_holds_no_version() {
    assert_eq!(read_version("config.toml"), Err(VersionError::WrongFileName));
    assert_eq!(read_version("1__label"), Err(VersionError::WrongFileName));
    assert_eq!(read_version("1__label__yesterday.toml"), Err(VersionError::BadTime));
    assert_eq!(read_version("1__label__2024-13-01_00-00-00.toml"), Err(VersionError::BadTime));
    assert_eq!(read_version("1__label__2024-01-01_00-00-00"), Err(VersionError::BadTime));
    assert_eq!(read_version("one__label__2024-01-01_00-00-00.toml"), Err(VersionError::BadIndex));
}

#[test]
fn moments_are_ordered_by_seconds_then_nanoseconds() {
    let a = Moment { seconds: 5, nanos: 900 };
    let b = Moment { seconds: 6, nanos: 0 };
    let c = Moment { seconds: 6, nanos: 1 };
    assert!(a.before(&b));
    assert!(b.before(&c));
    assert!(!c.before(&b));
    assert!(!b.before(&b));
}

#[test]
fn versions_are_read_off_the_listing() {
    let mut all = AllVersions::new();
    let listing = "0__now__2024-01-01_00-00-10.toml\n1__old__2024-01-01_00-00-05.toml\n";
    assert_eq!(all.get_versions(listing, ""), Ok(()));
    assert_eq!(all.versions, Some(vec![version(0, "now", 10), version(1, "old", 5)]));
    assert_eq!(all.current, Some(version(0, "now", 10)));
    assert_eq!(all.selected, None);
}

#[test]
fn a_listing_has_to_be_there_and_to_hold_a_current_version() {
    let mut all = AllVersions::new();
    assert_eq!(all.get_versions("x", "ls: cannot access"), Err(VersionError::ListingFailed));
    assert_eq!(all.get_versions("", ""), Err(VersionError::NoVersions));
    assert_eq!(all.get_versions("1__old__2024-01-01_00-00-05.toml\n", ""), Err(VersionError::NoCurrent));
    assert_eq!(all.get_versions("0__a__2024-01-01_00-00-05.toml\nREADME\n", ""), Err(VersionError::WrongFileName));
    assert_eq!(
        all.get_versions("0__a__2024-01-01_00-00-05.toml\n0__a__2024-01-01_00-00-05.toml\n", ""),
        Err(VersionError::Duplicate)
    );
    assert_eq!(all, AllVersions::new());
}

#[test]
fn versions_are_listed_with_their_time() {
    let mut marked = version(1, "old", 5);
    marked.selected = true;
    let all = history(vec![version(0, "now", 3661), marked]);
    assert_eq!(
        all.list_versions(),
        Ok(vec![
            "0: now (2024-01-01 01:01:01)".to_string(),
            "1: old (2024-01-01 00:00:05) * selected".to_string(),
        ])
    );
}

fn bare(index: usize, seconds: i64) -> Version {
    let mut version = version(index, "x", seconds);
    version.name = None;
    version
}

#[test]
fn a_history_has_to_hold_what_is_read() {
    assert_eq!(AllVersions::new().list_versions(), Err(VersionError::NoVersions));
    let mut broken = version(1, "old", 5);
    broken.config_path = None;
    let all = history(vec![version(0, "now", 10), broken.clone()]);
    assert_eq!(all.delete_version(1), Err(VersionError::Incomplete));
    assert_eq!(all.delete_last_versions(1), Err(VersionError::Incomplete));
    assert_eq!(all.clone().update_indexes_to_path(), Err(VersionError::Incomplete));
    assert_eq!(all.update_paths(&all), Err(VersionError::Incomplete));
    assert_eq!(
        all.list_versions(),
        Ok(vec![
            "0: now (2024-01-01 00:00:10)".to_string(),
            "1: old (2024-01-01 00:00:05)".to_string(),
        ])
    );
    let unlabelled = history(vec![version(0, "now", 10), bare(1, 5)]);
    assert_eq!(unlabelled.list_versions(), Err(VersionError::Incomplete));
    let mut unnumbered = version(1, "old", 5);
    unnumbered.index = None;
    let all = history(vec![version(0, "now", 10), unnumbered]);
    assert_eq!(all.to_latest(), Err(VersionError::Incomplete));
    assert_eq!(all.clone().align_version_indexes(), Err(VersionError::Incomplete));
    assert_eq!(all.print_diff(0, 0, false), Err(VersionError::Incomplete));
    assert_eq!(all.commit_at(&vec![], "l", "t"), Err(VersionError::Incomplete));
    assert_eq!(all.rollback(1, &vec![]), Err(VersionError::Incomplete));
    assert_eq!(
        all.update_paths(&all),
        Ok(vec![
            Action::Rename {
                from: version(0, "now", 10).config_path.unwrap(),
                to: version(0, "now", 10).config_path.unwrap()
            },
            Action::Rename {
                from: version(1, "old", 5).config_path.unwrap(),
                to: version(1, "old", 5).config_path.unwrap()
            },
        ])
    );
}

#[test]
fn completeness_is_tested_part_by_part() {
    let mut broken = version(1, "old", 5);
    broken.config_path = None;
    assert!(holds(&broken, Needs::Index));
    assert!(holds(&broken, Needs::IndexTime));
    assert!(holds(&broken, Needs::IndexLabelTime));
    assert!(!holds(&broken, Needs::IndexPath));
    assert!(!holds(&broken, Needs::Path));
    assert!(!all_complete(&vec![version(0, "now", 10), broken.clone()], Needs::IndexPath));
    assert!(all_complete(&vec![version(0, "now", 10), broken.clone()], Needs::IndexTime));
    let nothing = Version::new();
    assert!(!holds(&nothing, Needs::Index));
    assert!(!holds(&nothing, Needs::IndexTime));
    assert!(!holds(&nothing, Needs::IndexLabelTime));
    assert!(!holds(&bare(1, 5), Needs::IndexLabelTime));
    assert!(holds(&bare(1, 5), Needs::IndexPath));
    let mut undated = version(1, "old", 5);
    undated.last_use_date = None;
    assert!(!holds(&undated, Needs::IndexTime));
    assert!(holds(&undated, Needs::IndexPath));
    let all = history(vec![version(0, "now", 10), broken]);
    assert_eq!(all.usable_versions(Needs::IndexPath), Err(VersionError::Incomplete));
    assert_eq!(all.usable_versions(Needs::Index), Ok(all.versions.as_ref().unwrap()));
    assert_eq!(AllVersions::new().usable_versions(Needs::Index), Err(VersionError::NoVersions));
}

#[test]
fn the_latest_version_is_found_without_labels_and_paths() {
    let mut a = bare(1, 50);
    a.config_path = None;
    let mut now = bare(0, 10);
    now.config_path = None;
    let all = history(vec![now, a, bare(2, 30)]);
    assert_eq!(all.to_latest(), Ok(1));
    let mut undated = version(1, "old", 5);
    undated.last_use_date = None;
    assert_eq!(
        history(vec![version(0, "now", 10), undated]).to_latest(),
        Err(VersionError::Incomplete)
    );
}

#[test]
fn among_the_latest_the_current_or_the_first_is_found() {
    let all = history(vec![version(1, "a", 50), version(0, "now", 50), version(2, "b", 50)]);
    assert_eq!(all.to_latest(), Ok(0));
    let all = history(vec![version(0, "now", 10), version(2, "b", 50), version(1, "a", 50)]);
    assert_eq!(all.to_latest(), Ok(2));
}

#[test]
fn indexes_are_aligned_without_labels_times_and_paths() {
    let mut first = Version::new();
    first.index = Some(7);
    first.selected = true;
    let mut second = bare(0, 3);
    second.last_use_date = None;
    let mut all = history(vec![first.clone(), bare(4, 2), second.clone()]);
    let before = all.clone();
    assert_eq!(all.align_version_indexes(), Ok(()));
    let mut middle = bare(4, 2);
    middle.index = Some(1);
    first.index = Some(2);
    assert_eq!(all.versions, Some(vec![second, middle, first]));
    assert_eq!(all.selected, before.selected);
    assert_eq!(all.current, before.current);
}

#[test]
fn a_comparison_reads_indexes_and_the_paths_of_its_versions() {
    let mut other = bare(2, 7);
    other.last_use_date = None;
    other.config_path = None;
    let all = history(vec![bare(0, 10), bare(1, 5), other]);
    assert_eq!(
        all.print_diff(0, 1, false),
        Ok((version(0, "x", 10).config_path.unwrap(), version(1, "x", 5).config_path.unwrap()))
    );
    assert_eq!(
        all.print_diff(2, 1, true),
        Ok(("/home/falk/config.toml".to_string(), version(1, "x", 5).config_path.unwrap()))
    );
    assert_eq!(all.print_diff(2, 1, false), Err(VersionError::Incomplete));
    assert_eq!(all.print_diff(0, 2, false), Err(VersionError::Incomplete));
    assert_eq!(all.print_diff(0, 2, true), Err(VersionError::Incomplete));
    assert_eq!(all.print_diff(9, 2, false), Err(VersionError::NotFound));
}

#[test]
fn a_commit_reads_indexes_and_the_path_of_the_current_version() {
    let mut other = bare(3, 7);
    other.last_use_date = None;
    other.config_path = None;
    let all = history(vec![bare(0, 10), other.clone()]);
    let current = version(0, "x", 10).config_path.unwrap();
    let both = vec![file("/home/falk/config.toml", "new"), file(&current, "old")];
    assert_eq!(
        all.commit_at(&both, "label", "then"),
        Ok(Probe::Done(vec![
            Action::Rename {
                from: current.clone(),
                to: "/home/falk/.versions/4__x__2024-01-01_00-00-10.toml".to_string()
            },
            Action::Copy {
                from: "/home/falk/config.toml".to_string(),
                to: "/home/falk/.versions/0__label__then.toml".to_string()
            },
        ]))
    );
    let same = vec![file("/home/falk/config.toml", "old"), file(&current, "old")];
    assert_eq!(all.commit_at(&same, "label", "then"), Err(VersionError::NoChanges));
    let mut nowhere = bare(0, 10);
    nowhere.config_path = None;
    assert_eq!(
        history(vec![nowhere, other]).commit_at(&both, "label", "then"),
        Err(VersionError::Incomplete)
    );
}

#[test]
fn a_rollback_reads_indexes_and_the_paths_of_its_two_versions() {
    let mut other = bare(2, 7);
    other.last_use_date = None;
    other.config_path = None;
    let all = history(vec![bare(0, 10), bare(1, 5), other]);
    let current = version(0, "x", 10).config_path.unwrap();
    let same = vec![file("/home/falk/config.toml", "x"), file(&current, "x")];
    assert_eq!(
        all.rollback(1, &same),
        Ok(Probe::Done(vec![
            Action::Rename {
                from: current.clone(),
                to: "/home/falk/.versions/3__x__2024-01-01_00-00-10.toml".to_string()
            },
            Action::Rename {
                from: version(1, "x", 5).config_path.unwrap(),
                to: "/home/falk/.versions/0__x__2024-01-01_00-00-05.toml".to_string()
            },
            Action::Copy {
                from: "/home/falk/.versions/0__x__2024-01-01_00-00-05.toml".to_string(),
                to: "/home/falk/config.toml".to_string()
            },
        ]))
    );
    assert_eq!(all.rollback(2, &same), Err(VersionError::Incomplete));
}

#[test]
fn the_last_versions_are_counted_before_they_are_read() {
    let mut broken = version(1, "old", 5);
    broken.config_path = None;
    let all = history(vec![broken.clone(), version(2, "a", 6), version(0, "now", 10)]);
    assert_eq!(all.delete_last_versions(0), Err(VersionError::NothingToDelete));
    assert_eq!(all.delete_last_versions(3), Err(VersionError::WouldDeleteCurrent));
    assert_eq!(all.delete_last_versions(1), Ok(vec![]));
    assert_eq!(all.delete_last_versions(2), Err(VersionError::Incomplete));
    assert_eq!(AllVersions::new().delete_last_versions(0), Err(VersionError::NoVersions));
}

#[test]
fn renaming_compares_the_lengths_before_it_reads_a_path() {
    let mut broken = version(1, "old", 5);
    broken.config_path = None;
    let after = history(vec![version(0, "now", 10), broken]);
    let before = history(vec![version(0, "now", 10)]);
    assert_eq!(after.update_paths(&before), Err(VersionError::LengthMismatch));
    assert_eq!(after.update_paths(&AllVersions::new()), Err(VersionError::NoVersions));
    assert_eq!(AllVersions::new().update_paths(&before), Err(VersionError::NoVersions));
    assert_eq!(before.update_paths(&before.clone()).map(|actions| actions.len()), Ok(1));
}

#[test]
fn versions_are_deleted_without_labels_and_times() {
    let mut other = bare(1, 7);
    other.last_use_date = None;
    let all = history(vec![bare(0, 10), other]);
    let gone = vec![Action::RemoveFile { path: version(1, "x", 7).config_path.unwrap() }];
    assert_eq!(all.delete_version(1), Ok(gone.clone()));
    assert_eq!(all.delete_last_versions(1), Ok(gone));
}

#[test]
fn a_time_out_of_range_cannot_be_listed() {
    let mut far = version(1, "far", 5);
    far.last_use_date = Some(Moment { seconds: i64::MAX, nanos: 0 });
    assert_eq!(history(vec![far]).list_versions(), Err(VersionError::BadTime));
}

#[test]
fn versions_are_deleted_by_index() {
    let all = history(vec![version(0, "now", 10), version(1, "a", 5), version(2, "b", 6)]);
    assert_eq!(
        all.delete_version(2),
        Ok(vec![Action::RemoveFile { path: version(2, "b", 6).config_path.unwrap() }])
    );
    assert_eq!(all.delete_version(0), Err(VersionError::IndexZero));
    assert_eq!(all.delete_version(7), Err(VersionError::NotFound));
}

#[test]
fn the_last_versions_are_deleted_from_the_end() {
    let all = history(vec![version(0, "now", 10), version(1, "a", 5), version(2, "b", 6), version(3, "c", 7)]);
    assert_eq!(
        all.delete_last_versions(2),
        Ok(vec![
            Action::RemoveFile { path: version(3, "c", 7).config_path.unwrap() },
            Action::RemoveFile { path: version(2, "b", 6).config_path.unwrap() },
        ])
    );
    assert_eq!(all.delete_last_versions(0), Err(VersionError::NothingToDelete));
    assert_eq!(all.delete_last_versions(4), Err(VersionError::WouldDeleteCurrent));
    assert_eq!(all.delete_last_versions(9), Err(VersionError::WouldDeleteCurrent));
}

#[test]
fn the_current_version_is_never_deleted_with_the_last_ones() {
    let all = history(vec![version(1, "a", 5), version(0, "now", 10)]);
    assert_eq!(all.delete_last_versions(1), Ok(vec![]));
}

#[test]
fn the_latest_version_is_found() {
    let all = history(vec![version(0, "now", 10), version(1, "a", 50), version(2, "b", 30)]);
    assert_eq!(all.to_latest(), Ok(1));
    let all = history(vec![version(0, "now", 100), version(1, "a", 50)]);
    assert_eq!(all.to_latest(), Ok(0));
    let all = history(vec![version(2, "b", 30), version(1, "a", 50)]);
    assert_eq!(all.to_latest(), Ok(0));
}

#[test]
fn indexes_are_aligned() {
    let mut all = history(vec![version(5, "e", 1), version(0, "now", 2), version(3, "c", 3), version(5, "f", 4)]);
    assert_eq!(all.align_version_indexes(), Ok(()));
    let mut expected = vec![version(0, "now", 2), version(3, "c", 3), version(5, "e", 1), version(5, "f", 4)];
    for (i, v) in expected.iter_mut().enumerate() {
        v.index = Some(i);
    }
    assert_eq!(all.versions, Some(expected));
}

#[test]
fn aligned_indexes_stay_as_they_are() {
    let mut all = history(vec![version(0, "now", 2), version(1, "a", 3)]);
    let before = all.clone();
    assert_eq!(all.align_version_indexes(), Ok(()));
    assert_eq!(all, before);
}

#[test]
fn paths_follow_the_indexes() {
    let mut moved = version(3, "c", 3);
    moved.index = Some(1);
    let mut all = history(vec![version(0, "now", 2), moved]);
    assert_eq!(all.update_indexes_to_path(), Ok(()));
    assert_eq!(all.versions, Some(vec![version(0, "now", 2), version(1, "c", 3)]));
    assert_eq!(replace_index("/x/3__c__t.toml", 1), Ok("/home/falk/.versions/1__c__t.toml".to_string()));
    assert_eq!(replace_index("/x/3__c__t.toml", 3), Ok("/x/3__c__t.toml".to_string()));
    assert_eq!(replace_index("/x/c.toml", 3), Err(VersionError::WrongFileName));
    assert_eq!(replace_index("/x/c__d.toml", 3), Err(VersionError::BadIndex));
}

#[test]
fn files_are_renamed_place_by_place() {
    let before = history(vec![version(0, "now", 2), version(3, "c", 3)]);
    let after = history(vec![version(0, "now", 2), version(1, "c", 3)]);
    assert_eq!(
        after.update_paths(&before),
        Ok(vec![
            Action::Rename {
                from: version(0, "now", 2).config_path.unwrap(),
                to: version(0, "now", 2).config_path.unwrap()
            },
            Action::Rename {
                from: version(3, "c", 3).config_path.unwrap(),
                to: version(1, "c", 3).config_path.unwrap()
            },
        ])
    );
    assert_eq!(after.update_paths(&history(vec![version(0, "now", 2)])), Err(VersionError::LengthMismatch));
}

#[test]
fn a_commit_archives_the_configuration_in_use() {
    let all = history(vec![version(0, "now", 10), version(1, "a", 5), version(4, "b", 6)]);
    let current = version(0, "now", 10).config_path.unwrap();
    let now = Moment { seconds: 1709649059, nanos: 0 };
    assert_eq!(
        all.commit(&vec![], "label", now),
        Ok(Probe::Ask(Question { kind: Inquiry::ReadFile, subject: "/home/falk/config.toml".to_string() }))
    );
    let one = vec![file("/home/falk/config.toml", "new")];
    assert_eq!(
        all.commit(&one, "label", now),
        Ok(Probe::Ask(Question { kind: Inquiry::ReadFile, subject: current.clone() }))
    );
    let both = vec![file("/home/falk/config.toml", "new"), file(&current, "old")];
    assert_eq!(
        all.commit(&both, "label", now),
        Ok(Probe::Done(vec![
            Action::Rename {
                from: current.clone(),
                to: "/home/falk/.versions/5__now__2024-01-01_00-00-10.toml".to_string()
            },
            Action::Copy {
                from: "/home/falk/config.toml".to_string(),
                to: "/home/falk/.versions/0__label__2024-03-05_14-30-59.toml".to_string()
            },
        ]))
    );
    let same = vec![file("/home/falk/config.toml", "old"), file(&current, "old")];
    assert_eq!(all.commit(&same, "label", now), Err(VersionError::NoChanges));
}

#[test]
fn a_commit_needs_a_current_version_and_readable_files() {
    let now = Moment { seconds: 0, nanos: 0 };
    assert_eq!(history(vec![version(1, "a", 5)]).commit(&vec![], "l", now), Err(VersionError::NoCurrent));
    assert_eq!(AllVersions::new().commit(&vec![], "l", now), Err(VersionError::NoVersions));
    let all = history(vec![version(0, "now", 10)]);
    let unreadable = vec![Finding {
        question: Question { kind: Inquiry::ReadFile, subject: "/home/falk/config.toml".to_string() },
        ok: false,
        text: String::new(),
    }];
    assert_eq!(
        all.commit(&unreadable, "l", now),
        Ok(Probe::Failed(ProbeError { fault: Fault::Unreadable, subject: "/home/falk/config.toml".to_string() }))
    );
}

#[test]
fn a_commit_at_the_time_of_the_call_names_the_file_after_that_time() {
    let all = history(vec![version(0, "now", 10)]);
    let current = version(0, "now", 10).config_path.unwrap();
    let both = vec![file("/home/falk/config.toml", "new"), file(&current, "old")];
    match all.commit_now(&both, "label") {
        Ok(Probe::Done(actions)) => {
            assert_eq!(actions.len(), 2);
            match &actions[1] {
                Action::Copy { from, to } => {
                    assert_eq!(from, "/home/falk/config.toml");
                    assert!(to.starts_with("/home/falk/.versions/0__label__20"));
                    assert!(to.ends_with(".toml"));
                    let name = to.trim_start_matches("/home/falk/.versions/");
                    let read = read_version(name).unwrap();
                    assert!(read.last_use_date.unwrap().seconds > 1704067200);
                }
                other => panic!("unexpected action {:?}", other),
            }
        }
        other => panic!("unexpected plan {:?}", other),
    }
}

#[test]
fn the_label_of_a_commit_is_the_trimmed_line() {
    assert_eq!(commit_message("my label \n"), Ok("my label".to_string()));
    assert_eq!(commit_message("\n"), Err(VersionError::EmptyMessage));
    assert_eq!(commit_message("a__b\n"), Err(VersionError::MessageWithSeparator));
}

#[test]
fn a_rollback_makes_an_older_version_current() {
    let all = history(vec![version(0, "now", 10), version(1, "a", 5), version(2, "b", 6)]);
    let current = version(0, "now", 10).config_path.unwrap();
    let same = vec![file("/home/falk/config.toml", "x"), file(&current, "x")];
    assert_eq!(
        all.rollback(1, &same),
        Ok(Probe::Done(vec![
            Action::Rename {
                from: current.clone(),
                to: "/home/falk/.versions/3__now__2024-01-01_00-00-10.toml".to_string()
            },
            Action::Rename {
                from: version(1, "a", 5).config_path.unwrap(),
                to: "/home/falk/.versions/0__a__2024-01-01_00-00-05.toml".to_string()
            },
            Action::Copy {
                from: "/home/falk/.versions/0__a__2024-01-01_00-00-05.toml".to_string(),
                to: "/home/falk/config.toml".to_string()
            },
        ]))
    );
    let changed = vec![file("/home/falk/config.toml", "y"), file(&current, "x")];
    assert_eq!(all.rollback(1, &changed), Err(VersionError::UncommittedChanges));
    assert_eq!(all.rollback(0, &same), Err(VersionError::IndexZero));
    assert_eq!(all.rollback(9, &same), Err(VersionError::NotFound));
}

#[test]
fn the_files_of_a_comparison_are_found() {
    let all = history(vec![version(0, "now", 10), version(1, "a", 5)]);
    assert_eq!(
        all.print_diff(0, 1, false),
        Ok((version(0, "now", 10).config_path.unwrap(), version(1, "a", 5).config_path.unwrap()))
    );
    assert_eq!(
        all.print_diff(7, 1, true),
        Ok(("/home/falk/config.toml".to_string(), version(1, "a", 5).config_path.unwrap()))
    );
    assert_eq!(all.print_diff(7, 1, false), Err(VersionError::NotFound));
    assert_eq!(all.print_diff(0, 7, true), Err(VersionError::NotFound));
}

fn configuration(hostname: &str, packages: &[&str]) -> CargoToml {
    CargoToml {
        keyboard: Keyboard { keyboard_tty: text("de"), mkinitcpio: text("de-latin1") },
        time: Time { timezone: text("Europe/Berlin") },
        language: Language { locale: text("en_US.UTF-8"), character: text("UTF-8") },
        system: System { hostname: text(hostname) },
        shell: Shell { default_shell: None },
        users: Users {
            user_list: Some(names(&["falk"])),
            user_groups: Some(vec![User { name: "falk".to_string(), groups: names(&["wheel"]) }]),
        },
        pacman: Pacman { parallel: Some(5) },
        partitioning: Partitioning { dual: None, disks: None, volume_groups: None },
        lvm: Lvm {
            volume_groups: None,
            logical_volumes: None,
            sizes: None,
            file_system_type: None,
            mount_points: None,
            hierarchy: None,
            update: None,
        },
        packages: Packages {
            pacman_packages: Some(names(packages)),
            aur_packages: None,
            manual_install_packages: None,
        },
        services: Services::absent(),
        directories: Directories::absent(),
        grub: Grub::absent(),
        mkinitcpio: Mkinitcpio::absent(),
        ufw: Ufw::absent(),
        fail2ban: Fail2Ban::absent(),
        downloads: Downloads::absent(),
        monitor: Monitor::absent(),
        files: Files::absent(),
    }
}

#[test]
fn two_configurations_are_compared_domain_by_domain() {
    let first = configuration("node2", &["git", "curl"]);
    let second = configuration("node1", &["curl", "vim"]);
    let comparison = compare(&first, &second, ROOT).unwrap();
    assert_eq!(comparison.system.diff.add.hostname, text("node2"));
    assert_eq!(comparison.system.diff.remove.hostname, text("node1"));
    assert_eq!(comparison.packages.diff.add.pacman_packages, Some(names(&["git"])));
    assert_eq!(comparison.packages.diff.remove.pacman_packages, Some(names(&["vim"])));
    assert_eq!(comparison.keyboard.diff.add, Keyboard::absent());
    assert_eq!(comparison.users.diff.add, Users::absent());
    assert_eq!(comparison.time.config.timezone, text("Europe/Berlin"));
    assert_eq!(comparison.time.system.timezone, text("Europe/Berlin"));
}

#[test]
fn a_comparison_refuses_a_first_configuration_that_cannot_be_loaded() {
    let mut first = configuration("node2", &[]);
    first.time.timezone = None;
    first.system.hostname = None;
    let second = configuration("node1", &[]);
    assert_eq!(compare(&first, &second, ROOT), Err(ConfigError::TimezoneMissing));
    let mut bad_second = configuration("node1", &[]);
    bad_second.time.timezone = None;
    assert!(compare(&second, &bad_second, ROOT).is_ok());
}

#[test]
fn a_version_is_made_of_the_name_and_the_moment() {
    let moment = Moment { seconds: 42, nanos: 7 };
    assert_eq!(
        version_from("3__label__whenever.toml", Some(moment)),
        Ok(Version {
            name: text("label"),
            index: Some(3),
            selected: false,
            last_use_date: Some(moment),
            config_path: text("/home/falk/.versions/3__label__whenever.toml"),
        })
    );
    assert_eq!(version_from("3__label__whenever.toml", None), Err(VersionError::BadTime));
    assert_eq!(version_from("3__label", Some(moment)), Err(VersionError::WrongFileName));
    assert_eq!(version_from("x__label__t", Some(moment)), Err(VersionError::BadIndex));
    assert_eq!(version_from("x__label", None), Err(VersionError::WrongFileName));
}

#[test]
fn a_version_is_shown_on_one_line() {
    assert_eq!(shown_line(4, "label", "2024-01-01 00:00:00", false), "4: label (2024-01-01 00:00:00)");
    assert_eq!(shown_line(0, "now", "t", true), "0: now (t) * selected");
}

#[test]
fn versions_are_taken_in_one_by_one() {
    let mut all = AllVersions::new();
    assert_eq!(all.take_in(version(1, "a", 5)), Ok(()));
    assert_eq!(all.versions, Some(vec![version(1, "a", 5)]));
    assert_eq!(all.current, None);
    assert_eq!(all.take_in(version(0, "now", 9)), Ok(()));
    assert_eq!(all.current, Some(version(0, "now", 9)));
    let before = all.clone();
    assert_eq!(all.take_in(version(1, "a", 5)), Err(VersionError::Duplicate));
    assert_eq!(all, before);
}

#[test]
fn a_commit_is_named_after_its_label_and_its_time() {
    let all = history(vec![version(0, "now", 10), version(2, "b", 6)]);
    let current = version(0, "now", 10).config_path.unwrap();
    let both = vec![file("/home/falk/config.toml", "new"), file(&current, "old")];
    let expected = Ok(Probe::Done(vec![
        Action::Rename {
            from: current.clone(),
            to: "/home/falk/.versions/3__now__2024-01-01_00-00-10.toml".to_string(),
        },
        Action::Copy {
            from: "/home/falk/config.toml".to_string(),
            to: "/home/falk/.versions/0__label__then.toml".to_string(),
        },
    ]));
    assert_eq!(all.commit_at(&both, "label", "then"), expected);
    assert_eq!(all.commit_with(&both, "label", Some("then".to_string())), expected);
    assert_eq!(all.commit_with(&both, "label", None), Err(VersionError::BadTime));
    let same = vec![file("/home/falk/config.toml", "old"), file(&current, "old")];
    assert_eq!(all.commit_with(&same, "label", None), Err(VersionError::NoChanges));
    assert_eq!(
        all.commit_with(&vec![], "label", None),
        Ok(Probe::Ask(Question { kind: Inquiry::ReadFile, subject: "/home/falk/config.toml".to_string() }))
    );
    assert_eq!(
        all.commit(&both, "label", Moment { seconds: i64::MAX, nanos: 0 }),
        Err(VersionError::BadTime)
    );
}
