//! What can go wrong in talking to the runtime.
use vstd::prelude::*;

use crate::text::{decimal_string, decimal_text};

verus! {

/// An error in talking to the runtime's API.
#[derive(Debug, PartialEq, Eq)]
pub enum PlcError {
    /// The HTTP client could not be set up; the description of why.
    ClientSetup(String),
    /// The runtime answered with this HTTP status, which the request does not accept.
    HttpStatus(u16),
    /// The body of the answer is not what the endpoint sends.
    MalformedResponse,
    /// The runtime refused the uploaded program, for this reason.
    UploadRejected(String),
    /// The program did not compile; the build log.
    CompilationFailed(String),
    /// The compilation did not finish within the time allowed, in milliseconds.
    CompilationTimedOut(u64),
    /// The PLC did not start; what the runtime said instead.
    StartRejected(String),
}

/// A span of milliseconds as text: whole seconds as `<n>s`, otherwise `<n>ms`.
pub open spec fn duration_text(ms: u64) -> Seq<char> {
    if ms % 1000 == 0 {
        decimal_text((ms / 1000) as nat) + "s"@
    } else {
        decimal_text(ms as nat) + "ms"@
    }
}

fn duration_string(ms: u64) -> (r: String)
    ensures
        r@ == duration_text(ms),
{
    if ms % 1000 == 0 {
        let mut r = decimal_string(ms / 1000);
        r.append("s");
        r
    } else {
        let mut r = decimal_string(ms);
        r.append("ms");
        r
    }
}

/// The text that describes an error. A failed client setup is described by
/// its context alone; the reason is the text the error carries.
pub open spec fn error_message(e: PlcError) -> Seq<char> {
    match e {
        PlcError::ClientSetup(_) => "Failed to create PlcClient"@,
        PlcError::HttpStatus(code) => "the runtime answered with HTTP status "@ + decimal_text(
            code as nat,
        ),
        PlcError::MalformedResponse => "the runtime's answer could not be read"@,
        PlcError::UploadRejected(reason) => "upload rejected: "@ + reason@,
        PlcError::CompilationFailed(log) => "compilation failed: "@ + log@,
        PlcError::CompilationTimedOut(ms) => "timed out after "@ + duration_text(ms),
        PlcError::StartRejected(status) => "PLC did not start: "@ + status@,
    }
}

impl PlcError {
    /// The text that describes the error.
    pub fn message(&self) -> (r: String)
        ensures
            r@ == error_message(*self),
    {
        match self {
            PlcError::ClientSetup(_) => String::from_str("Failed to create PlcClient"),
            PlcError::HttpStatus(code) => {
                let mut r = String::from_str("the runtime answered with HTTP status ");
                let d = decimal_string(*code as u64);
                r.append(d.as_str());
                r
            },
            PlcError::MalformedResponse => String::from_str("the runtime's answer could not be read"),
            PlcError::UploadRejected(reason) => {
                let mut r = String::from_str("upload rejected: ");
                r.append(reason.as_str());
                r
            },
            PlcError::CompilationFailed(log) => {
                let mut r = String::from_str("compilation failed: ");
                r.append(log.as_str());
                r
            },
            PlcError::CompilationTimedOut(ms) => {
                let mut r = String::from_str("timed out after ");
                let d = duration_string(*ms);
                r.append(d.as_str());
                r
            },
            PlcError::StartRejected(status) => {
                let mut r = String::from_str("PLC did not start: ");
                r.append(status.as_str());
                r
            },
        }
    }
}

/// The text of a payload, at the end of its message, whole.
pub open spec fn ends_with(text: Seq<char>, tail: Seq<char>) -> bool {
    tail.len() <= text.len() && text.skip(text.len() - tail.len()) == tail
}

/// Each message carries what its error carries, whole and at its end: the
/// upload's rejection reason, the build log, the runtime's report of why the
/// PLC did not start, and the HTTP status; a timeout says it timed out; a
/// failed client setup is reported under "Failed to create PlcClient".
pub proof fn lemma_messages_carry_payload(text: String, ms: u64, code: u16)
    ensures
        ends_with(error_message(PlcError::UploadRejected(text)), text@),
        ends_with(error_message(PlcError::CompilationFailed(text)), text@),
        ends_with(error_message(PlcError::StartRejected(text)), text@),
        ends_with(error_message(PlcError::HttpStatus(code)), decimal_text(code as nat)),
        error_message(PlcError::CompilationTimedOut(ms)).take(9) == "timed out"@,
        error_message(PlcError::ClientSetup(text)) == "Failed to create PlcClient"@,
{
    let m1 = error_message(PlcError::UploadRejected(text));
    assert(m1.skip(m1.len() - text@.len()) =~= text@);
    let m2 = error_message(PlcError::CompilationFailed(text));
    assert(m2.skip(m2.len() - text@.len()) =~= text@);
    let m3 = error_message(PlcError::StartRejected(text));
    assert(m3.skip(m3.len() - text@.len()) =~= text@);
    let m4 = error_message(PlcError::HttpStatus(code));
    let t4 = decimal_text(code as nat);
    assert(m4.skip(m4.len() - t4.len()) =~= t4);
    reveal_strlit("timed out after ");
    reveal_strlit("timed out");
    let m5 = error_message(PlcError::CompilationTimedOut(ms));
    assert("timed out after "@.len() == 16);
    assert("timed out"@.len() == 9);
    assert(m5.take(9) =~= "timed out"@);
}

} // verus!
