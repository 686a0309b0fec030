//! The text sent back to the chat for a finished run.

use vstd::prelude::*;
use crate::registry::UnknownImageError;
use crate::runner::{RunError, RunResult, RunResultModel};
use crate::text::{decimal, decimal_string};
use crate::workspace::ScriptError;

verus! {

/// The reply for a run result: the elapsed time in milliseconds, marked
/// when the run timed out, a fenced block of standard output, and a fenced
/// block of standard error only when there is any.
pub open spec fn reply_text(r: RunResultModel) -> Seq<char> {
    "time: "@ + decimal(r.elapsed_ms as nat) + "ms"@ + (if r.timed_out {
        " (timed out)"@
    } else {
        Seq::empty()
    }) + "\nstdout:\n```\n"@ + r.stdout + "\n```"@ + (if r.stderr.len() > 0 {
        "\nstderr:\n```\n"@ + r.stderr + "\n```"@
    } else {
        Seq::empty()
    })
}

/// The mathematical value of a run result.
pub open spec fn result_model(r: &RunResult) -> RunResultModel {
    RunResultModel {
        stdout: r.stdout@,
        stderr: r.stderr@,
        elapsed_ms: r.elapsed_ms,
        timed_out: r.timed_out,
    }
}

/// Formats the reply for `r`.
pub fn format_reply(r: &RunResult) -> (s: String)
    ensures
        s@ == reply_text(result_model(r)),
{
    let mut s = String::from_str("time: ");
    let ms = decimal_string(r.elapsed_ms);
    s.append(ms.as_str());
    s.append("ms");
    if r.timed_out {
        s.append(" (timed out)");
    }
    s.append("\nstdout:\n```\n");
    s.append(r.stdout.as_str());
    s.append("\n```");
    if r.stderr.as_str().is_empty() {
        proof {
            assert(s@ =~= reply_text(result_model(r)));
        }
    } else {
        s.append("\nstderr:\n```\n");
        s.append(r.stderr.as_str());
        s.append("\n```");
        proof {
            assert(s@ =~= reply_text(result_model(r)));
        }
    }
    s
}

/// The reply for a request of an image that is not registered.
pub fn unknown_image_reply(e: &UnknownImageError) -> (s: String)
    ensures
        s@ == "No image of the name: "@ + e.name@,
{
    String::from_str("No image of the name: ").concat(e.name.as_str())
}

/// The reply for a failed container run.
pub open spec fn run_error_text(e: RunError) -> Seq<char> {
    match e {
        RunError::Launch { message } => "container failed to launch: "@ + message@,
        RunError::LogStream { message } => "log stream failed: "@ + message@,
        RunError::UndecodableOutput => "log output is not valid UTF-8"@,
    }
}

/// Formats the reply for a failed container run.
pub fn run_error_reply(e: &RunError) -> (s: String)
    ensures
        s@ == run_error_text(*e),
{
    match e {
        RunError::Launch { message } => String::from_str("container failed to launch: ").concat(
            message.as_str(),
        ),
        RunError::LogStream { message } => String::from_str("log stream failed: ").concat(
            message.as_str(),
        ),
        RunError::UndecodableOutput => String::from_str("log output is not valid UTF-8"),
    }
}

/// The reply for a failed script run.
pub open spec fn script_error_text(e: ScriptError) -> Seq<char> {
    match e {
        ScriptError::Io { message } => "workspace error: "@ + message@,
        ScriptError::Run { error } => run_error_text(error),
        ScriptError::MissingOutput => "the script left no output file"@,
    }
}

/// Formats the reply for a failed script run.
pub fn script_error_reply(e: &ScriptError) -> (s: String)
    ensures
        s@ == script_error_text(*e),
{
    match e {
        ScriptError::Io { message } => String::from_str("workspace error: ").concat(message.as_str()),
        ScriptError::Run { error } => run_error_reply(error),
        ScriptError::MissingOutput => String::from_str("the script left no output file"),
    }
}

} // verus!
