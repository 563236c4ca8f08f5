//! What follows an action: the notice, if any, that its outcome calls for.

use vstd::prelude::*;
use vstd::string::StringExecFns;
use crate::command::{Action, ActionView};
use crate::number::{decimal, format_i32};

verus! {

/// What came of an action that needed the system.
#[derive(Debug, PartialEq, Eq)]
pub enum Event<'a> {
    /// The working directory could not be changed; `error` holds the
    /// system's words for why.
    DirUnchanged { error: &'a str },
    /// The program could not be launched; `error` holds the system's words
    /// for why.
    LaunchFailed { program: &'a str, error: &'a str },
    /// The program ran and ended with this exit code.
    Exited(i32),
    /// The program was ended by a signal, and left no exit code.
    Signaled,
    /// The program was launched, but waiting for it failed; `error` holds the
    /// system's words for why.
    WaitFailed { error: &'a str },
}

/// What is done after an event: a program that ended with code 0 calls for
/// nothing, a program that a signal ended for a line on the output stream,
/// and every other event for one line on the error stream.
pub open spec fn event_action(event: Event) -> ActionView {
    match event {
        Event::DirUnchanged { error } => ActionView::Report("could not change dir: "@ + error@),
        Event::LaunchFailed { program, error } => ActionView::Report(
            "failed to launch process "@ + program@ + ": "@ + error@,
        ),
        Event::Exited(code) => if code == 0 {
            ActionView::Nothing
        } else {
            ActionView::Report(
                "[process terminated with exit code "@ + decimal(code as int) + "]"@,
            )
        },
        Event::Signaled => ActionView::Print("[process terminated by signal]\n"@),
        Event::WaitFailed { error } => ActionView::Report("[io error: "@ + error@ + "]"@),
    }
}

/// Decides what is done after an event.
pub fn handle_event(event: Event) -> (action: Action<'static>)
    ensures
        action@ == event_action(event),
{
    match event {
        Event::DirUnchanged { error } => {
            let mut line = String::from_str("could not change dir: ");
            line.append(error);
            Action::Report(line)
        },
        Event::LaunchFailed { program, error } => {
            let mut line = String::from_str("failed to launch process ");
            line.append(program);
            line.append(": ");
            line.append(error);
            Action::Report(line)
        },
        Event::Exited(code) => {
            if code == 0 {
                Action::Nothing
            } else {
                let mut line = String::from_str("[process terminated with exit code ");
                let number = format_i32(code);
                line.append(number.as_str());
                line.append("]");
                Action::Report(line)
            }
        },
        Event::Signaled => Action::Print(String::from_str("[process terminated by signal]\n")),
        Event::WaitFailed { error } => {
            let mut line = String::from_str("[io error: ");
            line.append(error);
            line.append("]");
            Action::Report(line)
        },
    }
}

} // verus!
