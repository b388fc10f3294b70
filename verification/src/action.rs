//! The plan vocabulary: one `Action` per external effect the pipeline
//! performs. Stage functions compute ordered `Vec<Action>` plans; an
//! unverified driver executes them in order, aborting on the first
//! failure. Contracts speak of `SpecAction`, the view of an `Action`.

use vstd::prelude::*;

verus! {

/// The view of an `Action`: the same data over character sequences.
#[verifier::ext_equal]
pub enum SpecAction {
    /// A command line, split on whitespace into argv by the driver.
    Run(Seq<char>),
    /// An explicit argv (for arguments that contain spaces).
    RunArgs(Seq<Seq<char>>),
    /// A command line run with the given text fed on stdin.
    RunStdin(Seq<char>, Seq<char>),
    /// Truncate the file at the path and write the content plus a
    /// trailing newline.
    Write(Seq<char>, Seq<char>),
    /// Append the content plus a trailing newline to the file.
    Append(Seq<char>, Seq<char>),
    /// Pause for the given number of seconds to let the kernel settle.
    Sleep(u64),
}

/// One external effect of the provisioning pipeline.
#[derive(Debug)]
pub enum Action {
    /// A command line, split on whitespace into argv by the driver.
    Run(String),
    /// An explicit argv (for arguments that contain spaces).
    RunArgs(Vec<String>),
    /// A command line run with the given text fed on stdin.
    RunStdin(String, String),
    /// Truncate the file at the path and write the content plus a
    /// trailing newline.
    Write(String, String),
    /// Append the content plus a trailing newline to the file.
    Append(String, String),
    /// Pause for the given number of seconds to let the kernel settle.
    Sleep(u64),
}

impl DeepView for Action {
    type V = SpecAction;

    open spec fn deep_view(&self) -> SpecAction {
        match self {
            Action::Run(l) => SpecAction::Run(l@),
            Action::RunArgs(a) => SpecAction::RunArgs(a.deep_view()),
            Action::RunStdin(c, t) => SpecAction::RunStdin(c@, t@),
            Action::Write(p, c) => SpecAction::Write(p@, c@),
            Action::Append(p, c) => SpecAction::Append(p@, c@),
            Action::Sleep(secs) => SpecAction::Sleep(*secs),
        }
    }
}

/// The command line that reaches a shell inside the mounted target.
pub open spec fn spec_chroot_cmd() -> Seq<char> {
    "arch-chroot /mnt bash --login"@
}

/// A fixed command line.
pub fn sh(line: &str) -> (a: Action)
    ensures
        a.deep_view() == SpecAction::Run(line@),
{
    Action::Run(line.to_owned())
}

/// A computed command line.
pub fn sh_owned(line: String) -> (a: Action)
    ensures
        a.deep_view() == SpecAction::Run(line@),
{
    Action::Run(line)
}

/// A command with explicit argv.
pub fn run_args(args: Vec<String>) -> (a: Action)
    ensures
        a.deep_view() == SpecAction::RunArgs(args.deep_view()),
{
    Action::RunArgs(args)
}

/// A script fed on stdin to a login shell inside the mounted target.
pub fn chroot_stdin(text: &str) -> (a: Action)
    ensures
        a.deep_view() == SpecAction::RunStdin(spec_chroot_cmd(), text@),
{
    Action::RunStdin("arch-chroot /mnt bash --login".to_owned(), text.to_owned())
}

/// A computed script fed on stdin to a login shell inside the target.
pub fn chroot_stdin_owned(text: String) -> (a: Action)
    ensures
        a.deep_view() == SpecAction::RunStdin(spec_chroot_cmd(), text@),
{
    Action::RunStdin("arch-chroot /mnt bash --login".to_owned(), text)
}

/// A fixed command fed a fixed text on stdin.
pub fn run_stdin(cmd: &str, text: &str) -> (a: Action)
    ensures
        a.deep_view() == SpecAction::RunStdin(cmd@, text@),
{
    Action::RunStdin(cmd.to_owned(), text.to_owned())
}

/// A whole-file write (content gains a trailing newline).
pub fn write_file(path: &str, content: &str) -> (a: Action)
    ensures
        a.deep_view() == SpecAction::Write(path@, content@),
{
    Action::Write(path.to_owned(), content.to_owned())
}

/// An append to a file (content gains a trailing newline).
pub fn append_file(path: &str, content: &str) -> (a: Action)
    ensures
        a.deep_view() == SpecAction::Append(path@, content@),
{
    Action::Append(path.to_owned(), content.to_owned())
}

/// An append of computed content to a file.
pub fn append_file_owned(path: &str, content: String) -> (a: Action)
    ensures
        a.deep_view() == SpecAction::Append(path@, content@),
{
    Action::Append(path.to_owned(), content)
}

/// A whole-file write of computed content.
pub fn write_file_owned(path: &str, content: String) -> (a: Action)
    ensures
        a.deep_view() == SpecAction::Write(path@, content@),
{
    Action::Write(path.to_owned(), content)
}

} // verus!
