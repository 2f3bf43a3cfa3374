//! Failure report: one message for the user that says why the server did
//! not come up, with what was tried.

use crate::launcher::ExitInfo;
use crate::startup::StartupError;
use crate::text::append;
use crate::text::decimal;
use crate::text::format_decimal;
use crate::text::rows;
use crate::text::trim;
use crate::text::trimmed;
use vstd::prelude::*;
use vstd::slice::slice_to_vec;
use vstd::string::StringSliceAdditionalSpecFns;

verus! {

/// What is known of a failed startup beside its reason.
#[derive(Clone, Debug, PartialEq, Eq)]
pub struct FailureContext {
    /// The candidates that the locator looked at, in order.
    pub paths_tried: Vec<Vec<u8>>,
    /// The command that was run, where the startup got that far.
    pub command: Option<Vec<u8>>,
    /// What the server wrote to its error stream.
    pub captured_stderr: Vec<u8>,
}

/// The decimal digits of a number with its sign.
pub open spec fn signed_decimal(n: int) -> Seq<u8> {
    if n < 0 {
        seq![45u8] + decimal((-n) as nat)
    } else {
        decimal(n as nat)
    }
}

/// Writes a number with its sign.
pub fn format_signed(n: i32) -> (r: Vec<u8>)
    ensures
        r@ == signed_decimal(n as int),
{
    if n < 0 {
        let magnitude: u64 = (-(n as i64)) as u64;
        let mut r: Vec<u8> = Vec::new();
        r.push(45);
        let digits = format_decimal(magnitude);
        append(&mut r, digits.as_slice());
        r
    } else {
        format_decimal(n as u64)
    }
}

/// How the process ended, as words that follow a sentence.
pub open spec fn exit_words_of(info: ExitInfo) -> Seq<u8> {
    match info.code {
        Some(code) => " with exit code ".spec_bytes() + signed_decimal(code as int),
        None => " after a signal".spec_bytes(),
    }
}

/// The sentence that names the reason of a failure.
pub open spec fn headline_of(error: StartupError) -> Seq<u8> {
    match error {
        StartupError::NoRuntimeFound => "No usable backend executable or interpreter was found".spec_bytes(),
        StartupError::Busy => "A backend is already starting or running".spec_bytes(),
        StartupError::DependenciesMissing => "The backend dependencies are not installed".spec_bytes(),
        StartupError::NotExecutable => "The backend executable may not be executed".spec_bytes(),
        StartupError::SpawnFailed => "The backend server could not be started".spec_bytes(),
        StartupError::ImmediateExit(info) => "The backend server exited immediately".spec_bytes()
            + exit_words_of(info),
        StartupError::StatusUnavailable => "The backend server's status could not be read".spec_bytes(),
        StartupError::DiedDuringStartup(info) => "The backend server exited during startup".spec_bytes()
            + exit_words_of(info),
        StartupError::TimedOut => "The backend server did not become ready in time".spec_bytes(),
        StartupError::Cancelled => "The backend launch was cancelled".spec_bytes(),
    }
}

/// One line for each candidate that was tried.
pub open spec fn tried_lines_of(paths: Seq<Seq<u8>>) -> Seq<u8>
    decreases paths.len(),
{
    if paths.len() == 0 {
        Seq::empty()
    } else {
        tried_lines_of(paths.drop_last()) + "  tried: ".spec_bytes() + paths.last() + seq![10u8]
    }
}

/// The line that names the command, where one was run.
pub open spec fn command_line_of(command: Option<Seq<u8>>) -> Seq<u8> {
    match command {
        Some(c) => "command: ".spec_bytes() + c + seq![10u8],
        None => Seq::empty(),
    }
}

/// The line that quotes the error stream, where it holds more than blanks.
pub open spec fn stderr_line_of(captured: Seq<u8>) -> Seq<u8> {
    if trimmed(captured).len() > 0 {
        "stderr: ".spec_bytes() + trimmed(captured) + seq![10u8]
    } else {
        Seq::empty()
    }
}

/// The whole report: the headline on a line of its own, then the
/// candidates tried, the command and the error stream.
pub open spec fn report_of(
    error: StartupError,
    paths: Seq<Seq<u8>>,
    command: Option<Seq<u8>>,
    captured: Seq<u8>,
) -> Seq<u8> {
    headline_of(error) + seq![10u8] + tried_lines_of(paths) + command_line_of(command)
        + stderr_line_of(captured)
}

/// Writes how the process ended.
fn exit_words(info: ExitInfo) -> (r: Vec<u8>)
    ensures
        r@ == exit_words_of(info),
{
    match info.code {
        Some(code) => {
            let mut r: Vec<u8> = slice_to_vec(" with exit code ".as_bytes());
            let digits = format_signed(code);
            append(&mut r, digits.as_slice());
            r
        },
        None => slice_to_vec(" after a signal".as_bytes()),
    }
}

/// Writes the sentence that names the reason of a failure.
pub fn headline(error: StartupError) -> (r: Vec<u8>)
    ensures
        r@ == headline_of(error),
{
    match error {
        StartupError::NoRuntimeFound => slice_to_vec(
            "No usable backend executable or interpreter was found".as_bytes(),
        ),
        StartupError::Busy => slice_to_vec("A backend is already starting or running".as_bytes()),
        StartupError::DependenciesMissing => slice_to_vec(
            "The backend dependencies are not installed".as_bytes(),
        ),
        StartupError::NotExecutable => slice_to_vec(
            "The backend executable may not be executed".as_bytes(),
        ),
        StartupError::SpawnFailed => slice_to_vec(
            "The backend server could not be started".as_bytes(),
        ),
        StartupError::ImmediateExit(info) => {
            let mut r: Vec<u8> = slice_to_vec("The backend server exited immediately".as_bytes());
            let words = exit_words(info);
            append(&mut r, words.as_slice());
            r
        },
        StartupError::StatusUnavailable => slice_to_vec(
            "The backend server's status could not be read".as_bytes(),
        ),
        StartupError::DiedDuringStartup(info) => {
            let mut r: Vec<u8> = slice_to_vec(
                "The backend server exited during startup".as_bytes(),
            );
            let words = exit_words(info);
            append(&mut r, words.as_slice());
            r
        },
        StartupError::TimedOut => slice_to_vec(
            "The backend server did not become ready in time".as_bytes(),
        ),
        StartupError::Cancelled => slice_to_vec("The backend launch was cancelled".as_bytes()),
    }
}

/// Renders the one message that tells the user why the server did not come
/// up and what was tried.
pub fn render_failure(error: StartupError, context: &FailureContext) -> (r: Vec<u8>)
    ensures
        r@ == report_of(
            error,
            rows(context.paths_tried@),
            match context.command {
                Some(c) => Some(c@),
                None => None,
            },
            context.captured_stderr@,
        ),
{
    let mut out: Vec<u8> = headline(error);
    out.push(10);
    let ghost head = out@;
    let ghost paths = rows(context.paths_tried@);
    let mut i: usize = 0;
    proof {
        assert(paths.subrange(0, 0) =~= Seq::<Seq<u8>>::empty());
        assert(out@ =~= head + tried_lines_of(paths.subrange(0, 0)));
    }
    while i < context.paths_tried.len()
        invariant
            i <= context.paths_tried@.len(),
            paths == rows(context.paths_tried@),
            out@ == head + tried_lines_of(paths.subrange(0, i as int)),
        decreases context.paths_tried@.len() - i,
    {
        let ghost before = out@;
        append(&mut out, "  tried: ".as_bytes());
        append(&mut out, context.paths_tried[i].as_slice());
        out.push(10);
        proof {
            let upto = paths.subrange(0, i + 1);
            assert(upto.drop_last() =~= paths.subrange(0, i as int));
            assert(upto.last() == context.paths_tried@[i as int]@);
            assert(out@ =~= head + tried_lines_of(upto));
        }
        i += 1;
    }
    proof {
        assert(paths.subrange(0, i as int) =~= paths);
    }
    let ghost listed = out@;
    match &context.command {
        Some(c) => {
            append(&mut out, "command: ".as_bytes());
            append(&mut out, c.as_slice());
            out.push(10);
            proof {
                assert(out@ =~= listed + command_line_of(Some(c@)));
            }
        },
        None => {
            proof {
                assert(out@ =~= listed + command_line_of(None));
            }
        },
    }
    let ghost named = out@;
    let quoted = trim(context.captured_stderr.as_slice());
    if quoted.len() > 0 {
        append(&mut out, "stderr: ".as_bytes());
        append(&mut out, quoted.as_slice());
        out.push(10);
        proof {
            assert(out@ =~= named + stderr_line_of(context.captured_stderr@));
        }
    } else {
        proof {
            assert(out@ =~= named + stderr_line_of(context.captured_stderr@));
        }
    }
    out
}

} // verus!
