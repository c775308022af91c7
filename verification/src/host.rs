//! What the crate asks the host to run, and what it makes of the answer.

use crate::error;
use crate::error::{ErrorView, MicrosandboxError};
use crate::text;
use vstd::prelude::*;

verus! {

/// A program to run with its arguments.
#[derive(Debug, PartialEq, Eq)]
pub struct CommandLine {
    /// The program, looked up as the host does.
    pub program: String,
    /// The arguments, as the bytes that the program sees.
    pub args: Vec<Vec<u8>>,
}

/// A [`CommandLine`] by its contents.
pub struct CommandView {
    pub program: Seq<char>,
    pub args: Seq<Seq<u8>>,
}

impl View for CommandLine {
    type V = CommandView;

    open spec fn view(&self) -> CommandView {
        CommandView {
            program: self.program@,
            args: Seq::new(self.args@.len(), |i: int| self.args@[i]@),
        }
    }
}

/// How running a command ended.
#[derive(Debug, PartialEq, Eq)]
pub enum CommandOutcome {
    /// The command could not be started or waited for; the text is the host's.
    NotStarted(String),
    /// The command ran to its end.
    Exited {
        /// Whether it reported success.
        success: bool,
        /// What it wrote to its standard output.
        stdout: Vec<u8>,
        /// What it wrote to its standard error.
        stderr: Vec<u8>,
    },
}

/// A [`CommandOutcome`] by its contents.
pub enum OutcomeView {
    NotStarted(Seq<char>),
    Exited { success: bool, stdout: Seq<u8>, stderr: Seq<u8> },
}

impl View for CommandOutcome {
    type V = OutcomeView;

    open spec fn view(&self) -> OutcomeView {
        match self {
            CommandOutcome::NotStarted(reason) => OutcomeView::NotStarted(reason@),
            CommandOutcome::Exited { success, stdout, stderr } => OutcomeView::Exited {
                success: *success,
                stdout: stdout@,
                stderr: stderr@,
            },
        }
    }
}

/// Where an operation that runs one command stands.
#[derive(Debug, PartialEq, Eq)]
pub enum CommandEvent {
    /// Nothing was done yet.
    Begin,
    /// The command that was asked for has run.
    Ran(CommandOutcome),
}

/// What an operation that runs one command does next.
#[derive(Debug, PartialEq, Eq)]
pub enum CommandAction {
    /// Run this and come back with [`CommandEvent::Ran`].
    Run(CommandLine),
    /// The operation is over.
    Finish(Result<(), MicrosandboxError>),
}

/// A [`CommandAction`] by its contents.
pub enum CommandActionView {
    Run(CommandView),
    Finish(Result<(), ErrorView>),
}

impl View for CommandAction {
    type V = CommandActionView;

    open spec fn view(&self) -> CommandActionView {
        match self {
            CommandAction::Run(command) => CommandActionView::Run(command@),
            CommandAction::Finish(r) => CommandActionView::Finish(error::result_view(*r)),
        }
    }
}

/// Whether a command ran and reported success.
pub open spec fn succeeded(outcome: OutcomeView) -> bool {
    outcome matches OutcomeView::Exited { success, .. } && success
}

/// What a command that did not succeed is reported as: `program` is named where it could not be
/// started, and `complaint` introduces what it wrote to its standard error.
pub open spec fn command_error(
    outcome: OutcomeView,
    program: Seq<char>,
    complaint: Seq<char>,
) -> ErrorView {
    match outcome {
        OutcomeView::NotStarted(reason) => ErrorView::BlockImageError(
            "failed to execute "@ + program + ": "@ + reason,
        ),
        OutcomeView::Exited { stderr, .. } => ErrorView::BlockImageError(
            complaint + ": "@ + text::trimmed(text::bytes_text(stderr)),
        ),
    }
}

/// What a command's outcome means for the operation that ran it.
pub open spec fn command_result(
    outcome: OutcomeView,
    program: Seq<char>,
    complaint: Seq<char>,
) -> Result<(), ErrorView> {
    if succeeded(outcome) {
        Ok(())
    } else {
        Err(command_error(outcome, program, complaint))
    }
}

/// The error for a command that did not succeed.
pub fn command_failure(outcome: &CommandOutcome, program: &str, complaint: &str) -> (r:
    MicrosandboxError)
    ensures
        r@ == command_error(outcome@, program@, complaint@),
{
    match outcome {
        CommandOutcome::NotStarted(reason) => {
            let mut message = "failed to execute ".to_owned();
            message.append(program);
            message.append(": ");
            message.append(reason.as_str());
            MicrosandboxError::BlockImageError(message)
        },
        CommandOutcome::Exited { stderr, .. } => {
            let mut message = complaint.to_owned();
            message.append(": ");
            message.append(text::lossy_text(stderr.as_slice()).trim());
            MicrosandboxError::BlockImageError(message)
        },
    }
}

/// Turns a command's outcome into a result.
pub fn check_command(outcome: &CommandOutcome, program: &str, complaint: &str) -> (r: Result<
    (),
    MicrosandboxError,
>)
    ensures
        error::result_view(r) == command_result(outcome@, program@, complaint@),
{
    match outcome {
        CommandOutcome::Exited { success: true, .. } => Ok(()),
        _ => Err(command_failure(outcome, program, complaint)),
    }
}

/// An operation that rests on one command succeeds exactly where the command ran and reported
/// success. Else the error says that the program could not be executed, with the host's reason, or
/// gives the complaint, with what the program wrote to its standard error and without the white
/// space around it.
pub proof fn law_command_decides(outcome: OutcomeView, program: Seq<char>, complaint: Seq<char>)
    ensures
        command_result(outcome, program, complaint) is Ok <==> outcome
            matches OutcomeView::Exited { success: true, .. },
        outcome matches OutcomeView::NotStarted(reason) ==> command_result(
            outcome,
            program,
            complaint,
        ) == Err::<(), ErrorView>(
            ErrorView::BlockImageError("failed to execute "@ + program + ": "@ + reason),
        ),
        outcome matches OutcomeView::Exited { success: false, stderr, .. } ==> command_result(
            outcome,
            program,
            complaint,
        ) == Err::<(), ErrorView>(
            ErrorView::BlockImageError(
                complaint + ": "@ + text::trimmed(text::bytes_text(stderr)),
            ),
        ),
{
}

/// What is run and what came of it are told in full by their views: the program, each argument in
/// its place, whether it succeeded and what it wrote where.
pub proof fn law_command_views_keep_everything(
    command: CommandLine,
    outcome: CommandOutcome,
    action: CommandAction,
)
    ensures
        command@.program == command.program@,
        command@.args.len() == command.args@.len(),
        forall|i: int|
            0 <= i < command.args@.len() ==> #[trigger] command@.args[i] == command.args@[i]@,
        outcome matches CommandOutcome::NotStarted(reason) ==> outcome@ == OutcomeView::NotStarted(
            reason@,
        ),
        outcome matches CommandOutcome::Exited { success, stdout, stderr } ==> outcome@ == (
        OutcomeView::Exited { success, stdout: stdout@, stderr: stderr@ }),
        action matches CommandAction::Run(line) ==> action@ == CommandActionView::Run(line@),
        action matches CommandAction::Finish(Ok(_)) ==> action@ == CommandActionView::Finish(
            Ok(()),
        ),
        action matches CommandAction::Finish(Err(e)) ==> action@ == CommandActionView::Finish(
            Err(e@),
        ),
{
}

} // verus!
