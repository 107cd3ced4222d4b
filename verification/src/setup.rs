//! Preparing the live medium before an installation.

use vstd::prelude::*;
use vstd::string::*;
use crate::function::{combine, execute, run, set_parallel_downloads, Action, ActionView};
use crate::structure::{Keyboard, Pacman, PacmanView};

verus! {

/// Why the live medium cannot be prepared.
#[derive(Debug, PartialEq, Eq, Clone, Copy, Structural)]
pub enum SetupError {
    /// The configuration lacks the layout of the console or the number of
    /// parallel downloads.
    Incomplete,
}

impl SetupError {
    /// The text of the message.
    pub open spec fn message_text(&self) -> Seq<char> {
        "Error (panic): Failed to read keyboard, pacman and time from config!"@
    }

    /// The message that tells the user what is wrong.
    pub fn message(&self) -> (text: String)
        ensures
            text@ == self.message_text(),
    {
        String::from_str("Error (panic): Failed to read keyboard, pacman and time from config!")
    }
}

/// The steps that prepare the live medium.
#[derive(Debug, PartialEq, Eq, Clone)]
pub struct Setup {
    /// What has to succeed, one step after another: when a step fails, the
    /// preparation has failed and nothing more is done.
    pub required: Vec<Action>,
    /// What configures the package manager afterwards.
    pub configuration: Vec<Action>,
}

/// The steps that have to succeed on a live medium whose console is laid
/// out as `keyboard_tty`: the layout is loaded, the package databases are
/// refreshed, and the clock is synchronised.
pub open spec fn required_steps(keyboard_tty: Seq<char>) -> Seq<ActionView> {
    seq![
        run("loadkeys "@ + keyboard_tty),
        run("pacman -Sy"@),
        run("timedatectl set-ntp true"@),
    ]
}

/// Plans the preparation of the live medium from the layout of the console
/// and the number of parallel downloads; both have to be given.
pub fn setup_environment_on_installation(keyboard: Keyboard, pacman: Pacman) -> (r: Result<
    Setup,
    SetupError,
>)
    ensures
        match (keyboard@.keyboard_tty, pacman@.parallel) {
            (Some(keyboard_tty), Some(parallel)) => r is Ok && r->Ok_0.required.deep_view()
                == required_steps(keyboard_tty) && r->Ok_0.configuration.deep_view()
                == PacmanView::additions(pacman@),
            _ => r == Err::<Setup, SetupError>(SetupError::Incomplete),
        },
{
    match (keyboard.keyboard_tty, pacman.parallel) {
        (Some(keyboard_tty), Some(parallel)) => {
            let mut required: Vec<Action> = Vec::new();
            required.push(execute(combine("loadkeys ", keyboard_tty.as_str())));
            required.push(execute(String::from_str("pacman -Sy")));
            required.push(execute(String::from_str("timedatectl set-ntp true")));
            assert(required.deep_view() =~= required_steps(keyboard_tty@));
            let configuration = set_parallel_downloads(&Pacman { parallel: Some(parallel) });
            Ok(Setup { required, configuration })
        },
        _ => Err(SetupError::Incomplete),
    }
}

} // verus!
