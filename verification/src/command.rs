//! Commands: what a line asks the interpreter to do.
//!
//! Nothing here touches the process or its streams. Each function decides, and
//! says in an [`Action`] what is to be done; the caller does it.

use vstd::prelude::*;
use vstd::string::StringExecFns;
use crate::number::{i32_value, parse_i32};
use crate::text::same_text;
use crate::trim::{trim, trimmed};
use crate::words::{after_first_word, first_word, lemma_word_bounds, words, WordIter};

verus! {

/// The commands that the interpreter knows by name, and all the others.
#[derive(Clone, Copy, Debug, PartialEq, Eq)]
pub enum Command {
    /// `cd`: change the working directory.
    Cd,
    /// `echo`: write the arguments out.
    Echo,
    /// `exit`: end the interpreter.
    Exit,
    /// Any other name: a program to launch.
    External,
}

/// What is to be done for a line.
#[derive(Debug, PartialEq, Eq)]
pub enum Action<'a> {
    /// Nothing at all.
    Nothing,
    /// Make the path the working directory.
    ChangeDir(&'a str),
    /// Write the text to the output stream as it stands, and flush.
    Print(String),
    /// Write the text to the error stream, as one line.
    Report(String),
    /// End the process with the exit code.
    Exit(i32),
    /// Launch the program with the arguments that `args` still holds, and
    /// wait for it.
    Launch { program: &'a str, args: WordIter<'a> },
}

/// What an [`Action`] says, over plain text and numbers.
pub enum ActionView {
    /// Nothing at all.
    Nothing,
    /// Make the path the working directory.
    ChangeDir(Seq<char>),
    /// Write the text to the output stream as it stands, and flush.
    Print(Seq<char>),
    /// Write the text to the error stream, as one line.
    Report(Seq<char>),
    /// End the process with the exit code.
    Exit(int),
    /// Launch the program with the arguments, and wait for it.
    Launch { program: Seq<char>, args: Seq<Seq<char>> },
}

impl<'a> View for Action<'a> {
    type V = ActionView;

    open spec fn view(&self) -> ActionView {
        match *self {
            Action::Nothing => ActionView::Nothing,
            Action::ChangeDir(path) => ActionView::ChangeDir(path@),
            Action::Print(text) => ActionView::Print(text@),
            Action::Report(text) => ActionView::Report(text@),
            Action::Exit(code) => ActionView::Exit(code as int),
            Action::Launch { program, args } => ActionView::Launch {
                program: program@,
                args: words(args@),
            },
        }
    }
}

/// The command that a name stands for.
pub open spec fn command_of(name: Seq<char>) -> Command {
    if name == "cd"@ {
        Command::Cd
    } else if name == "echo"@ {
        Command::Echo
    } else if name == "exit"@ {
        Command::Exit
    } else {
        Command::External
    }
}

/// What `cd` reports when it gets no path.
pub open spec fn cd_complaint() -> Seq<char> {
    "unsupported: no argument"@
}

/// What `exit` reports when its argument is no integer.
pub open spec fn exit_complaint() -> Seq<char> {
    "expects integer argument"@
}

/// Each word followed by one space, in order.
pub open spec fn spaced(args: Seq<Seq<char>>) -> Seq<char>
    decreases args.len(),
{
    if args.len() == 0 {
        Seq::empty()
    } else {
        spaced(args.drop_last()) + args.last() + seq![' ']
    }
}

/// What `cd` does with its arguments: it goes to the first, and complains
/// where there is none.
pub open spec fn cd_action(args: Seq<Seq<char>>) -> ActionView {
    if args.len() == 0 {
        ActionView::Report(cd_complaint())
    } else {
        ActionView::ChangeDir(args[0])
    }
}

/// What `echo` does with its arguments: it prints each followed by one space,
/// then a newline.
pub open spec fn echo_action(args: Seq<Seq<char>>) -> ActionView {
    ActionView::Print(spaced(args) + seq!['\n'])
}

/// What `exit` does with its arguments: it ends the process with code 0 where
/// there is none, with the first where that is a 32-bit integer, and
/// complains otherwise.
pub open spec fn exit_action(args: Seq<Seq<char>>) -> ActionView {
    if args.len() == 0 {
        ActionView::Exit(0)
    } else {
        match i32_value(args[0]) {
            Some(code) => ActionView::Exit(code as int),
            None => ActionView::Report(exit_complaint()),
        }
    }
}

/// What is done for a command name and its arguments.
pub open spec fn command_action(name: Seq<char>, args: Seq<Seq<char>>) -> ActionView {
    match command_of(name) {
        Command::Cd => cd_action(args),
        Command::Echo => echo_action(args),
        Command::Exit => exit_action(args),
        Command::External => ActionView::Launch { program: name, args },
    }
}

/// What is done for a line: nothing where it is empty; otherwise its first
/// word names the command and the other words are the arguments.
pub open spec fn line_action(line: Seq<char>) -> ActionView {
    if line.len() == 0 {
        ActionView::Nothing
    } else {
        command_action(first_word(line), words(after_first_word(line)))
    }
}

/// What is done for a line as it was read: the whitespace around it, its
/// line terminator included, does not count.
pub open spec fn input_action(raw: Seq<char>) -> ActionView {
    line_action(trimmed(raw))
}

/// Only the empty line asks for nothing.
pub proof fn lemma_nothing_for_the_empty_line_only(line: Seq<char>)
    ensures
        line_action(line) is Nothing <==> line.len() == 0,
{
}

/// Tells the builtin commands from the names of programs.
pub fn classify(name: &str) -> (command: Command)
    ensures
        command == command_of(name@),
{
    if same_text(name, "cd") {
        Command::Cd
    } else if same_text(name, "echo") {
        Command::Echo
    } else if same_text(name, "exit") {
        Command::Exit
    } else {
        Command::External
    }
}

/// The builtin `cd`: asks for a change to the directory that its first
/// argument names, or for a complaint where it has none.
pub fn cd<'a>(args: WordIter<'a>) -> (action: Action<'a>)
    ensures
        action@ == cd_action(words(args@)),
{
    let mut args = args;
    match args.next() {
        Some(path) => Action::ChangeDir(path),
        None => Action::Report(String::from_str("unsupported: no argument")),
    }
}

/// The builtin `echo`: asks for its arguments to be printed, each followed by
/// one space, and a newline after them.
pub fn echo<'a>(args: WordIter<'a>) -> (action: Action<'a>)
    ensures
        action@ == echo_action(words(args@)),
{
    let mut rest = args;
    let mut text = String::new();
    let ghost mut done: Seq<Seq<char>> = Seq::empty();
    proof {
        reveal_strlit(" ");
    }
    loop
        invariant
            done + words(rest@) == words(args@),
            text@ == spaced(done),
            " "@ == seq![' '],
        ensures
            rest@.len() == 0,
        decreases rest@.len(),
    {
        proof {
            if rest@.len() > 0 {
                lemma_word_bounds(rest@);
            }
        }
        match rest.next() {
            Some(word) => {
                text.append(word);
                text.append(" ");
                proof {
                    let longer = done.push(word@);
                    assert(longer.drop_last() == done);
                    done = longer;
                }
            },
            None => break ,
        }
    }
    assert(done == words(args@));
    text.append("\n");
    assert("\n"@ == seq!['\n']) by {
        reveal_strlit("\n");
    }
    Action::Print(text)
}

/// The builtin `exit`: asks for the process to end, with code 0 or with the
/// code that its first argument gives, or for a complaint where that argument
/// is no 32-bit integer.
pub fn exit<'a>(args: WordIter<'a>) -> (action: Action<'a>)
    ensures
        action@ == exit_action(words(args@)),
{
    let mut args = args;
    match args.next() {
        Some(code) => match parse_i32(code) {
            Some(code) => Action::Exit(code),
            None => Action::Report(String::from_str("expects integer argument")),
        },
        None => Action::Exit(0),
    }
}

/// Decides what is done for a command: a builtin handles its arguments
/// itself, any other name is a program to launch with them.
pub fn handle_cmd<'a>(cmd: &'a str, args: WordIter<'a>) -> (action: Action<'a>)
    ensures
        action@ == command_action(cmd@, words(args@)),
{
    match classify(cmd) {
        Command::Cd => cd(args),
        Command::Echo => echo(args),
        Command::Exit => exit(args),
        Command::External => Action::Launch { program: cmd, args },
    }
}

/// Decides what is done for a line. An empty line asks for nothing.
pub fn handle_line<'a>(line: &'a str) -> (action: Action<'a>)
    ensures
        action@ == line_action(line@),
{
    let mut iter = WordIter::new(line);
    match iter.next() {
        Some(cmd) => handle_cmd(cmd, iter),
        None => Action::Nothing,
    }
}

/// Decides what is done for a line as it was read, with its line terminator
/// and any whitespace around it.
pub fn handle_input<'a>(raw: &'a str) -> (action: Action<'a>)
    ensures
        action@ == input_action(raw@),
{
    handle_line(trim(raw))
}

} // verus!
