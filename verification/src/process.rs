//! Runs of `tp-agent`: what came of one, and how it is told to the user.

use vstd::prelude::*;
use vstd::string::*;
use vstd::utf8::*;

use crate::text;

verus! {

/// The text that `String::from_utf8_lossy` reads from `bytes`.
pub uninterp spec fn lossy_utf8(bytes: Seq<u8>) -> Seq<char>;

/// Calls `String::from_utf8_lossy`. Its result is a function of the bytes alone: their decoding
/// where they are valid UTF-8, and otherwise a text with U+FFFD in place of what is not. Which
/// bytes share one U+FFFD is not stated.
#[verifier::external_body]
pub(crate) fn lossy_text(bytes: &[u8]) -> (r: String)
    ensures
        r@ == lossy_utf8(bytes@),
        valid_utf8(bytes@) ==> r@ == decode_utf8(bytes@),
{
    String::from_utf8_lossy(bytes).into_owned()
}

/// A program to run and its arguments.
#[derive(Debug)]
pub struct CommandLine {
    pub program: String,
    pub args: Vec<String>,
}

/// The model of a program to run.
#[verifier::ext_equal]
pub struct CommandLineView {
    pub program: Seq<char>,
    pub args: Seq<Seq<char>>,
}

impl View for CommandLine {
    type V = CommandLineView;

    open spec fn view(&self) -> CommandLineView {
        CommandLineView { program: self.program@, args: text::texts(self.args@) }
    }
}

/// Puts a program and its arguments together.
pub fn command_line(program: &str, args: &[&str]) -> (command: CommandLine)
    ensures
        command@ == (CommandLineView { program: program@, args: text::slices(args@) }),
{
    CommandLine { program: program.to_owned(), args: text::words(args) }
}

/// What a finished process left behind.
#[derive(Debug)]
pub struct ProcessOutput {
    /// Whether it exited with success.
    pub success: bool,
    /// Its exit status as the system words it.
    pub status: String,
    pub stdout: Vec<u8>,
    pub stderr: Vec<u8>,
}

/// What came of an attempt to run `tp-agent`.
#[derive(Debug)]
pub enum RunOutcome {
    /// No executable was found.
    NotInstalled,
    /// The process could not be started, for this reason.
    SpawnFailed(String),
    /// The process ran to its end.
    Finished(ProcessOutput),
}

/// The text of a process's output without the white space around it.
pub open spec fn output_text(bytes: Seq<u8>) -> Seq<char> {
    text::trimmed(lossy_utf8(bytes))
}

/// Reads a process's output as text, without the white space around it.
pub fn trimmed_output(bytes: &[u8]) -> (r: String)
    ensures
        r@ == output_text(bytes@),
{
    let all = lossy_text(bytes);
    text::trim(all.as_str()).to_owned()
}

/// The message for a process that could not be started.
pub open spec fn spawn_error(args: Seq<Seq<char>>, reason: Seq<char>) -> Seq<char> {
    "spawn tp-agent "@ + text::joined(args, " "@) + ": "@ + reason
}

/// What a run of `tp-agent` with `args` yields: its output where it succeeded, else a message.
pub open spec fn run_result(args: Seq<Seq<char>>, outcome: RunOutcome) -> Result<
    ProcessOutput,
    Seq<char>,
> {
    match outcome {
        RunOutcome::NotInstalled => Err("tp-agent not installed"@),
        RunOutcome::SpawnFailed(reason) => Err(spawn_error(args, reason@)),
        RunOutcome::Finished(output) => if output.success {
            Ok(output)
        } else {
            Err(
                "tp-agent "@ + text::joined(args, " "@) + " exited "@ + output.status@ + ": "@
                    + output_text(output.stderr@),
            )
        },
    }
}

/// Words the message for a process that could not be started.
pub fn spawn_message(args: &Vec<String>, reason: &str) -> (message: String)
    ensures
        message@ == spawn_error(text::texts(args@), reason@),
{
    let mut message = "spawn tp-agent ".to_owned();
    message.append(text::join(args, " ").as_str());
    message.append(": ");
    message.append(reason);
    message
}

/// Judges a run of `tp-agent` with `args`. A missing executable, a failed start and an exit
/// without success all become one readable message; the last quotes what the process wrote to
/// its standard error.
pub fn run_tp_agent(args: &Vec<String>, outcome: RunOutcome) -> (result: Result<
    ProcessOutput,
    String,
>)
    ensures
        text::error_text(result) == run_result(text::texts(args@), outcome),
{
    match outcome {
        RunOutcome::NotInstalled => Err("tp-agent not installed".to_owned()),
        RunOutcome::SpawnFailed(reason) => Err(spawn_message(args, reason.as_str())),
        RunOutcome::Finished(output) => {
            if output.success {
                Ok(output)
            } else {
                let mut message = "tp-agent ".to_owned();
                message.append(text::join(args, " ").as_str());
                message.append(" exited ");
                message.append(output.status.as_str());
                message.append(": ");
                message.append(trimmed_output(output.stderr.as_slice()).as_str());
                Err(message)
            }
        },
    }
}

/// A run yields its output, unchanged, where the process ended with success, and nothing else does.
pub proof fn law_only_success_yields_output(args: Seq<Seq<char>>, outcome: RunOutcome)
    ensures
        match outcome {
            RunOutcome::Finished(output) if output.success => run_result(args, outcome)
                == Ok::<_, Seq<char>>(output),
            _ => run_result(args, outcome) is Err,
        },
{
}

/// The message of a run that yields nothing names what was run and why it failed: that there is no
/// executable, the reason for which it did not start, or its status and what it wrote to its
/// standard error.
pub proof fn law_failed_run_is_explained(args: Seq<Seq<char>>, outcome: RunOutcome)
    requires
        run_result(args, outcome) is Err,
    ensures
        match outcome {
            RunOutcome::NotInstalled => run_result(args, outcome)->Err_0
                == "tp-agent not installed"@,
            RunOutcome::SpawnFailed(reason) => run_result(args, outcome)->Err_0
                == "spawn tp-agent "@ + text::joined(args, " "@) + ": "@ + reason@,
            RunOutcome::Finished(output) => run_result(args, outcome)->Err_0 == "tp-agent "@
                + text::joined(args, " "@) + " exited "@ + output.status@ + ": "@ + text::trimmed(
                lossy_utf8(output.stderr@),
            ),
        },
{
}

/// The model of a program to run holds the program and every argument.
pub proof fn law_command_line_holds_its_arguments(command: CommandLine, i: int)
    ensures
        command@.program == command.program@,
        command@.args.len() == command.args@.len(),
        0 <= i < command.args@.len() ==> command@.args[i] == command.args@[i]@,
{
}

} // verus!
