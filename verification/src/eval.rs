//! Judging what an action reported: go on (and what to log), or stop the
//! installer with a message and an exit code.
use vstd::prelude::*;
use crate::plan::{Action, Check, Step};
use crate::text::decode_utf8;

verus! {

/// Why an action could not be performed: the operating system's error, as
/// text, and its raw error number when it has one.
#[derive(Debug, PartialEq, Eq)]
pub struct IoFailure {
    pub description: String,
    pub os_code: Option<i32>,
}

/// What a finished program reported.
#[derive(Debug, PartialEq, Eq)]
pub struct CommandOutput {
    pub success: bool,
    pub stdout: Vec<u8>,
    pub stderr: Vec<u8>,
}

/// The installer stops: `message` is reported and the process exits with
/// `code`.
#[derive(Debug, PartialEq, Eq)]
pub struct Crash {
    pub message: String,
    pub code: i32,
}

/// What an action reported.
#[derive(Debug, PartialEq, Eq)]
pub enum Outcome {
    /// It was performed (for a program: it ran, whatever its exit status).
    Completed,
    /// The program ran; its status and output.
    Output(CommandOutput),
    /// Whether the path asked about exists.
    Present(bool),
    /// The lines of the file that was read.
    Lines(Vec<String>),
    /// It could not be performed.
    Failed(IoFailure),
}

/// What the installer does after a step.
#[derive(Debug, PartialEq, Eq)]
pub enum Verdict {
    /// Go on; log `info` if there is one; `output` is the program's output
    /// where the step collected it.
    Proceed { info: Option<String>, output: Option<CommandOutput> },
    /// Stop.
    Abort(Crash),
}

/// What a failed program's error output reads as in a crash message.
pub open spec fn stderr_text(stderr: Seq<u8>) -> Seq<char> {
    if vstd::utf8::valid_utf8(stderr) {
        vstd::utf8::decode_utf8(stderr)
    } else {
        "unreadable output"@
    }
}

/// The crash message of an action that could not be performed, as
/// `os_eval` and `files_eval` write it.
pub open spec fn performed_failure(logmsg: Seq<char>, e: IoFailure) -> Seq<char> {
    logmsg + " ERROR: "@ + e.description@
}

/// Whether `c` reports `message` with exit code `code`.
pub open spec fn crash_is(c: Crash, message: Seq<char>, code: Option<i32>) -> bool {
    c.message@ == message && code == Some(c.code)
}

/// Judges the result of an action whose failure to be performed stops the
/// installer: on success the message is logged; on failure the installer
/// stops with `"<logmsg> ERROR: <error>"` and the error's number.  An error
/// without a number is left out: it stops the program with a panic.
pub fn os_eval<T>(return_code: &Result<T, IoFailure>, logmsg: &str) -> (r: Result<String, Crash>)
    requires
        return_code matches Err(e) ==> e.os_code is Some,
    ensures
        match return_code {
            Ok(_) => r matches Ok(info) && info@ == logmsg@,
            Err(e) => r matches Err(c) && crash_is(c, performed_failure(logmsg@, *e), e.os_code),
        },
{
    match return_code {
        Ok(_) => Ok(logmsg.to_string()),
        Err(e) => {
            let mut message = logmsg.to_string();
            message.append(" ERROR: ");
            message.append(e.description.as_str());
            let code: i32 = match e.os_code {
                Some(code) => code,
                None => 0,
            };
            Err(Crash { message, code })
        },
    }
}

/// Judges the result of a file operation, as [`os_eval`] does.
pub fn files_eval(return_code: &Result<(), IoFailure>, logmsg: &str) -> (r: Result<String, Crash>)
    requires
        return_code matches Err(e) ==> e.os_code is Some,
    ensures
        match return_code {
            Ok(_) => r matches Ok(info) && info@ == logmsg@,
            Err(e) => r matches Err(c) && crash_is(c, performed_failure(logmsg@, *e), e.os_code),
        },
{
    os_eval(return_code, logmsg)
}

/// Judges a program that must succeed: if it ran and exited successfully,
/// its output is handed on and the message logged; if it ran and failed,
/// the installer stops with `"<logmsg>  ERROR: <its error output>"` (or
/// `unreadable output` where that is not UTF-8) and code 1; if it could not
/// be started, with `"<logmsg>  ERROR: <error>"` and the error's number.  A
/// start error without a number is left out: it stops the program with a
/// panic.
pub fn exec_eval(return_code: Result<CommandOutput, IoFailure>, logmsg: &str) -> (r: Result<
    (String, CommandOutput),
    Crash,
>)
    requires
        return_code matches Err(e) ==> e.os_code is Some,
    ensures
        match return_code {
            Ok(o) => if o.success {
                r matches Ok((info, out)) && info@ == logmsg@ && out == o
            } else {
                r matches Err(c) && crash_is(c, logmsg@ + "  ERROR: "@ + stderr_text(o.stderr@), Some(1i32))
            },
            Err(e) => r matches Err(c) && crash_is(c, logmsg@ + "  ERROR: "@ + e.description@, e.os_code),
        },
{
    match return_code {
        Ok(output) => {
            if output.success {
                Ok((logmsg.to_string(), output))
            } else {
                let mut message = logmsg.to_string();
                message.append("  ERROR: ");
                match decode_utf8(output.stderr.as_slice()) {
                    Some(text) => message.append(text.as_str()),
                    None => message.append("unreadable output"),
                }
                Err(Crash { message, code: 1 })
            }
        },
        Err(e) => {
            let mut message = logmsg.to_string();
            message.append("  ERROR: ");
            message.append(e.description.as_str());
            let code: i32 = match e.os_code {
                Some(code) => code,
                None => 0,
            };
            Err(Crash { message, code })
        },
    }
}

/// Whether `outcome` is one that `step`'s action can report, and one that the
/// installer judges rather than panics on: a failed action that is checked
/// carries an error number, and an unwrapped action does not fail.
pub open spec fn admissible(step: &Step, outcome: &Outcome) -> bool {
    &&& match step.action {
        Action::Capture(_) => outcome is Output || outcome is Failed,
        Action::PathExists { .. } => outcome is Present,
        Action::ReadLines { .. } => outcome is Lines || outcome is Failed,
        Action::Print { .. } | Action::LogDebug { .. } | Action::Abort { .. } => outcome is Completed,
        _ => outcome is Completed || outcome is Failed,
    }
    &&& outcome matches Outcome::Failed(e) ==> match step.check {
        Check::Performed | Check::Succeeded => e.os_code is Some,
        Check::Unwrapped => false,
        _ => true,
    }
}

/// Whether `v` is the installer's verdict on `step` after `outcome`.
pub open spec fn verdict_for(step: &Step, outcome: &Outcome, v: &Verdict) -> bool {
    match step.action {
        Action::Abort { message, code } => *v matches Verdict::Abort(c) && crash_is(
            c,
            message@,
            Some(code),
        ),
        _ => match step.check {
            Check::Performed => match *outcome {
                Outcome::Failed(e) => *v matches Verdict::Abort(c) && crash_is(
                    c,
                    performed_failure(step.message@, e),
                    e.os_code,
                ),
                _ => *v matches Verdict::Proceed { info: Some(i), output: None } && i@
                    == step.message@,
            },
            Check::Succeeded => match *outcome {
                Outcome::Output(o) => if o.success {
                    *v matches Verdict::Proceed { info: Some(i), output: Some(out) } && i@
                        == step.message@ && out == o
                } else {
                    *v matches Verdict::Abort(c) && crash_is(
                        c,
                        step.message@ + "  ERROR: "@ + stderr_text(o.stderr@),
                        Some(1i32),
                    )
                },
                Outcome::Failed(e) => *v matches Verdict::Abort(c) && crash_is(
                    c,
                    step.message@ + "  ERROR: "@ + e.description@,
                    e.os_code,
                ),
                _ => *v matches Verdict::Proceed { info: None, output: None },
            },
            Check::Present => match *outcome {
                Outcome::Present(false) => *v matches Verdict::Abort(c) && crash_is(
                    c,
                    step.message@,
                    Some(1i32),
                ),
                _ => *v matches Verdict::Proceed { info: None, output: None },
            },
            Check::Unwrapped | Check::Ignored => *v matches Verdict::Proceed {
                info: None,
                output: None,
            },
        },
    }
}

/// Decides what the installer does after `step` reported `outcome`.
pub fn evaluate(step: &Step, outcome: Outcome) -> (v: Verdict)
    requires
        admissible(step, &outcome),
    ensures
        verdict_for(step, &outcome, &v),
{
    if let Action::Abort { message, code } = &step.action {
        return Verdict::Abort(Crash { message: message.clone(), code: *code });
    }
    match step.check {
        Check::Performed => {
            let result: Result<(), IoFailure> = match outcome {
                Outcome::Failed(e) => Err(e),
                _ => Ok(()),
            };
            match os_eval(&result, step.message.as_str()) {
                Ok(info) => Verdict::Proceed { info: Some(info), output: None },
                Err(c) => Verdict::Abort(c),
            }
        },
        Check::Succeeded => {
            let result: Result<CommandOutput, IoFailure> = match outcome {
                Outcome::Output(o) => Ok(o),
                Outcome::Failed(e) => Err(e),
                _ => {
                    return Verdict::Proceed { info: None, output: None };
                },
            };
            match exec_eval(result, step.message.as_str()) {
                Ok((info, out)) => Verdict::Proceed { info: Some(info), output: Some(out) },
                Err(c) => Verdict::Abort(c),
            }
        },
        Check::Present => match outcome {
            Outcome::Present(false) => Verdict::Abort(
                Crash { message: step.message.clone(), code: 1 },
            ),
            _ => Verdict::Proceed { info: None, output: None },
        },
        Check::Unwrapped | Check::Ignored => Verdict::Proceed { info: None, output: None },
    }
}

/// Whether `outcome` is a failure by the measure of `step`'s check.
pub open spec fn reports_failure(step: &Step, outcome: &Outcome) -> bool {
    match step.check {
        Check::Performed => outcome is Failed,
        Check::Succeeded => match *outcome {
            Outcome::Failed(_) => true,
            Outcome::Output(o) => !o.success,
            _ => false,
        },
        Check::Present => *outcome == Outcome::Present(false),
        Check::Unwrapped | Check::Ignored => false,
    }
}

/// A step that is not itself a stop lets the installer go on exactly when
/// its outcome is not a failure by the measure of its check.
pub proof fn law_step_proceeds_unless_it_failed(step: &Step, outcome: &Outcome, v: &Verdict)
    requires
        admissible(step, outcome),
        verdict_for(step, outcome, v),
        !(step.action is Abort),
    ensures
        (v is Proceed) <==> !reports_failure(step, outcome),
{
}

/// When the installer stops after a step that is not itself a stop, the
/// crash message starts with the step's message.
pub proof fn law_crash_message_names_the_step(step: &Step, outcome: &Outcome, v: &Verdict)
    requires
        admissible(step, outcome),
        verdict_for(step, outcome, v),
        !(step.action is Abort),
        v is Abort,
    ensures
        v->Abort_0.message@.take(step.message@.len() as int) == step.message@,
{
    let m = v->Abort_0.message@;
    assert(m.take(step.message@.len() as int) =~= step.message@);
}

/// A stop step stops the installer with its own message and code, whatever
/// was reported.
pub proof fn law_abort_step_stops(step: &Step, outcome: &Outcome, v: &Verdict)
    requires
        step.action is Abort,
        verdict_for(step, outcome, v),
    ensures
        v is Abort,
        v->Abort_0.message@ == step.action->Abort_message@,
        v->Abort_0.code == step.action->Abort_code,
{
}

} // verus!
