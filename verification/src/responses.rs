//! The bodies the runtime's API answers with, and what each answer means for
//! the request that asked for it.
use vstd::prelude::*;

use crate::client::{bearer, PlcClient};
use crate::error::PlcError;
use crate::state::{state_of_report, PlcState};
use crate::text::{join_strings, joined, string_views, text_eq};

verus! {

/// The answer to a login.
#[derive(Debug)]
pub struct LoginResponse {
    pub access_token: String,
}

/// The answer to an upload: an empty `upload_fail` means the file was taken.
#[derive(Debug)]
pub struct UploadResponse {
    pub upload_fail: String,
    pub compilation_status: String,
}

/// The progress of a compilation; the log and exit code come once it is over.
#[derive(Debug)]
pub struct CompilationStatus {
    pub status: String,
    pub logs: Option<Vec<String>>,
    pub exit_code: Option<i32>,
}

/// The state of the PLC, or what starting it gave.
#[derive(Debug)]
pub struct PlcStatusResponse {
    pub status: String,
}

/// An HTTP status of the success class (2xx).
pub open spec fn is_success_status(code: u16) -> bool {
    200 <= code && code < 300
}

/// The status that creating a user who already exists answers with.
pub open spec fn is_conflict_status(code: u16) -> bool {
    code == 409
}

/// Creating the user succeeds when the runtime created it or already had it.
pub open spec fn create_user_accepted(code: u16) -> bool {
    is_success_status(code) || is_conflict_status(code)
}

/// What an answer to creating the user means: success when the user was
/// created (2xx) or already exists (409), an error with the status otherwise.
/// Creating the user is therefore safe on every start of the node.
pub fn create_user_outcome(http_status: u16) -> (r: Result<(), PlcError>)
    ensures
        r is Ok <==> create_user_accepted(http_status),
        r is Ok <==> ((200 <= http_status && http_status < 300) || http_status == 409),
        r matches Err(e) ==> e == PlcError::HttpStatus(http_status),
{
    if (200 <= http_status && http_status < 300) || http_status == 409 {
        Ok(())
    } else {
        Err(PlcError::HttpStatus(http_status))
    }
}

/// Whether an answer to a login is accepted: a success status and a body that
/// could be read.
pub open spec fn login_accepted(http_status: u16, body: Option<LoginResponse>) -> bool {
    is_success_status(http_status) && body is Some
}

/// The client after the answer to a login: an accepted answer puts its token
/// in place; any other answer leaves the client as it was.
pub open spec fn after_login(c: PlcClient, http_status: u16, body: Option<LoginResponse>) -> PlcClient {
    if login_accepted(http_status, body) {
        PlcClient { jwt_token: Some(body->0.access_token), ..c }
    } else {
        c
    }
}

/// The authorization header a client sends, once it holds a token.
pub open spec fn authorization(c: PlcClient) -> Option<Seq<char>> {
    match c.jwt_token {
        Some(t) => Some(bearer(t@)),
        None => None,
    }
}

impl PlcClient {
    /// Takes in the answer to a login (`body` is `None` where it could not be
    /// read): an accepted answer keeps the token for the requests that follow;
    /// a refused one is an error and leaves the client as it was.
    pub fn finish_login(&mut self, http_status: u16, body: Option<LoginResponse>) -> (r: Result<
        (),
        PlcError,
    >)
        ensures
            *final(self) == after_login(*old(self), http_status, body),
            r is Ok <==> login_accepted(http_status, body),
            r is Ok <==> (200 <= http_status && http_status < 300 && body is Some),
            (200 <= http_status && http_status < 300 && body is Some) ==> final(self).jwt_token
                == Some(body->0.access_token),
            r is Err ==> *final(self) == *old(self),
            !is_success_status(http_status) ==> r == Err::<(), PlcError>(
                PlcError::HttpStatus(http_status),
            ),
            (is_success_status(http_status) && body is None) ==> r == Err::<(), PlcError>(
                PlcError::MalformedResponse,
            ),
    {
        if !(200 <= http_status && http_status < 300) {
            return Err(PlcError::HttpStatus(http_status));
        }
        match body {
            Some(b) => {
                self.jwt_token = Some(b.access_token);
                Ok(())
            },
            None => Err(PlcError::MalformedResponse),
        }
    }
}

/// A refused login changes nothing: the client keeps the token it had, or
/// stays without one.
pub proof fn lemma_refused_login_keeps_client(c: PlcClient, http_status: u16, body: Option<LoginResponse>)
    requires
        !login_accepted(http_status, body),
    ensures
        after_login(c, http_status, body) == c,
        authorization(after_login(c, http_status, body)) == authorization(c),
{
}

/// After an accepted login the client authorizes its requests with exactly
/// the token the runtime sent, whatever it held before.
pub proof fn lemma_login_then_authorization(c: PlcClient, http_status: u16, body: Option<LoginResponse>)
    requires
        login_accepted(http_status, body),
    ensures
        authorization(after_login(c, http_status, body)) == Some(bearer(body->0.access_token@)),
{
}

/// What an answer to an upload means: the runtime took the program when the
/// status is a success and the body names no failure; a named failure comes
/// back with its reason.
pub fn upload_outcome(http_status: u16, body: Option<UploadResponse>) -> (r: Result<(), PlcError>)
    ensures
        r is Ok <==> (is_success_status(http_status) && body is Some
            && body->0.upload_fail@.len() == 0),
        !is_success_status(http_status) ==> r == Err::<(), PlcError>(
            PlcError::HttpStatus(http_status),
        ),
        (is_success_status(http_status) && body is None) ==> r == Err::<(), PlcError>(
            PlcError::MalformedResponse,
        ),
        (is_success_status(http_status) && body is Some && body->0.upload_fail@.len() != 0) ==> r
            == Err::<(), PlcError>(PlcError::UploadRejected(body->0.upload_fail)),
{
    if !(200 <= http_status && http_status < 300) {
        return Err(PlcError::HttpStatus(http_status));
    }
    match body {
        Some(b) => {
            if b.upload_fail.as_str().is_empty() {
                Ok(())
            } else {
                Err(PlcError::UploadRejected(b.upload_fail))
            }
        },
        None => Err(PlcError::MalformedResponse),
    }
}

/// What to do after one look at the compilation's progress.
#[derive(Debug, PartialEq, Eq)]
pub enum CompilationPoll {
    /// Wait one poll interval, then look again.
    PollAgain,
    /// The compilation is over: it succeeded, or the error says why not.
    Finished(Result<(), PlcError>),
}

/// The build log, one line per entry; empty when the runtime sent none.
pub open spec fn build_log(logs: Option<Vec<String>>) -> Seq<char> {
    match logs {
        Some(v) => joined(string_views(v@), "\n"@),
        None => Seq::empty(),
    }
}

/// The runtime's report of a finished, successful compilation.
pub open spec fn reports_success(body: CompilationStatus) -> bool {
    body.status@ == "SUCCESS"@
}

/// The runtime's report of a finished, failed compilation.
pub open spec fn reports_failure(body: CompilationStatus) -> bool {
    body.status@ == "FAILED"@
}

/// What one look at the compilation's progress means, `elapsed_ms` after the
/// waiting began and with `timeout_ms` allowed in all: `SUCCESS` ends the wait
/// with success, `FAILED` ends it with the build log, an error status or an
/// unreadable body ends it with that error; any other progress ends it as timed
/// out (after `timeout_ms`) once the time allowed has passed, and otherwise asks
/// for another look.
pub fn compilation_poll_outcome(
    http_status: u16,
    body: Option<CompilationStatus>,
    elapsed_ms: u64,
    timeout_ms: u64,
) -> (r: CompilationPoll)
    ensures
        !is_success_status(http_status) ==> r == CompilationPoll::Finished(
            Err(PlcError::HttpStatus(http_status)),
        ),
        (is_success_status(http_status) && body is None) ==> r == CompilationPoll::Finished(
            Err(PlcError::MalformedResponse),
        ),
        (is_success_status(http_status) && body is Some && reports_success(body->0)) ==> r
            == CompilationPoll::Finished(Ok(())),
        (is_success_status(http_status) && body is Some && reports_failure(body->0)) ==> (r
            matches CompilationPoll::Finished(Err(PlcError::CompilationFailed(log))) && log@
            == build_log(body->0.logs)),
        r == CompilationPoll::Finished(Ok(())) ==> (200 <= http_status && http_status < 300
            && body is Some && body->0.status@ == "SUCCESS"@),
        (200 <= http_status && http_status < 300 && body is Some && body->0.status@ != "SUCCESS"@
            && body->0.status@ != "FAILED"@) ==> r == (if elapsed_ms >= timeout_ms {
            CompilationPoll::Finished(Err(PlcError::CompilationTimedOut(timeout_ms)))
        } else {
            CompilationPoll::PollAgain
        }),
        (is_success_status(http_status) && body is Some && !reports_success(body->0)
            && !reports_failure(body->0)) ==> r == (if elapsed_ms >= timeout_ms {
            CompilationPoll::Finished(Err(PlcError::CompilationTimedOut(timeout_ms)))
        } else {
            CompilationPoll::PollAgain
        }),
{
    if !(200 <= http_status && http_status < 300) {
        return CompilationPoll::Finished(Err(PlcError::HttpStatus(http_status)));
    }
    let b = match body {
        Some(b) => b,
        None => {
            return CompilationPoll::Finished(Err(PlcError::MalformedResponse));
        },
    };
    proof {
        reveal_strlit("SUCCESS");
        reveal_strlit("FAILED");
        assert("SUCCESS"@.len() == 7);
        assert("FAILED"@.len() == 6);
    }
    if text_eq(b.status.as_str(), "SUCCESS") {
        CompilationPoll::Finished(Ok(()))
    } else if text_eq(b.status.as_str(), "FAILED") {
        let log = match &b.logs {
            Some(lines) => join_strings(lines, "\n"),
            None => String::new(),
        };
        CompilationPoll::Finished(Err(PlcError::CompilationFailed(log)))
    } else if elapsed_ms >= timeout_ms {
        CompilationPoll::Finished(Err(PlcError::CompilationTimedOut(timeout_ms)))
    } else {
        CompilationPoll::PollAgain
    }
}

/// What an answer to starting the PLC means: it runs when the runtime says
/// `Running`; any other report comes back as the reason it did not start.
pub fn start_outcome(http_status: u16, body: Option<PlcStatusResponse>) -> (r: Result<(), PlcError>)
    ensures
        r is Ok <==> (is_success_status(http_status) && body is Some && body->0.status@
            == "Running"@),
        !is_success_status(http_status) ==> r == Err::<(), PlcError>(
            PlcError::HttpStatus(http_status),
        ),
        (is_success_status(http_status) && body is None) ==> r == Err::<(), PlcError>(
            PlcError::MalformedResponse,
        ),
        (is_success_status(http_status) && body is Some && body->0.status@ != "Running"@) ==> r
            == Err::<(), PlcError>(PlcError::StartRejected(body->0.status)),
{
    if !(200 <= http_status && http_status < 300) {
        return Err(PlcError::HttpStatus(http_status));
    }
    match body {
        Some(b) => {
            if text_eq(b.status.as_str(), "Running") {
                Ok(())
            } else {
                Err(PlcError::StartRejected(b.status))
            }
        },
        None => Err(PlcError::MalformedResponse),
    }
}

/// What an answer to a status request means: the state the report names;
/// a report of a state never seen before is kept, not refused.
pub fn status_outcome(http_status: u16, body: Option<PlcStatusResponse>) -> (r: Result<
    PlcState,
    PlcError,
>)
    ensures
        r is Ok <==> (is_success_status(http_status) && body is Some),
        r matches Ok(st) ==> st == state_of_report(body->0.status),
        !is_success_status(http_status) ==> r == Err::<PlcState, PlcError>(
            PlcError::HttpStatus(http_status),
        ),
        (is_success_status(http_status) && body is None) ==> r == Err::<PlcState, PlcError>(
            PlcError::MalformedResponse,
        ),
{
    if !(200 <= http_status && http_status < 300) {
        return Err(PlcError::HttpStatus(http_status));
    }
    match body {
        Some(b) => Ok(PlcState::from(b.status)),
        None => Err(PlcError::MalformedResponse),
    }
}

/// The success class is exactly the statuses 200 to 299.
pub proof fn lemma_success_class(code: u16)
    ensures
        is_success_status(code) <==> (200 <= code && code < 300),
{
}

/// Creating the user is accepted exactly on a 2xx status or on 409, and on no
/// other status.
pub proof fn lemma_create_user_accepted_statuses(code: u16)
    ensures
        create_user_accepted(code) <==> ((200 <= code && code < 300) || code == 409),
{
}

/// Every login answered with a 2xx status and a readable body is accepted,
/// whatever the token is, and the client then holds exactly that token; the
/// other fields stay as they were.
pub proof fn lemma_login_keeps_any_token(c: PlcClient, http_status: u16, body: Option<LoginResponse>)
    requires
        200 <= http_status && http_status < 300,
        body is Some,
    ensures
        login_accepted(http_status, body),
        after_login(c, http_status, body).jwt_token == Some(body->0.access_token),
        after_login(c, http_status, body).base_api_url == c.base_api_url,
        after_login(c, http_status, body).auth_username == c.auth_username,
        after_login(c, http_status, body).auth_password == c.auth_password,
{
}

/// Only the report `SUCCESS` counts as a successful compilation and only
/// `FAILED` as a failed one: any other report leaves the compilation running.
pub proof fn lemma_only_final_reports_end_compilation(b: CompilationStatus)
    ensures
        reports_success(b) <==> b.status@ == "SUCCESS"@,
        reports_failure(b) <==> b.status@ == "FAILED"@,
        (b.status@ != "SUCCESS"@ && b.status@ != "FAILED"@) ==> (!reports_success(b)
            && !reports_failure(b)),
{
}

/// The build log of a failed compilation holds each log line in order, with a
/// line break between two lines: a single line is the log itself, and one
/// more line adds a break and that line at the end.
pub proof fn lemma_build_log_lines(lines: Seq<Seq<char>>, line: Seq<char>)
    ensures
        joined(seq![line], "\n"@) == line,
        lines.len() > 0 ==> joined(lines.push(line), "\n"@) == joined(lines, "\n"@) + "\n"@
            + line,
{
    assert(lines.push(line).drop_last() =~= lines);
}

} // verus!
