use vstd::prelude::*;
use crate::errors::ErrorKind;

verus! {

// ---------------------------------------------------------------------------
// The delivery pipeline: connect -> handshake -> authenticate -> open remote
// file -> write, as a state machine. The network work itself is performed by
// the caller outside this library; each stage's outcome is fed back in here,
// and this module decides — verifiably — what comes next: the following
// stage on success, or the stage's classified error on the first failure,
// after which nothing further is ever pending.
// ---------------------------------------------------------------------------

/// The five ordered stages of one delivery.
#[derive(Clone, Copy, Debug, PartialEq, Eq, Structural)]
pub enum Stage {
    /// Open the raw transport socket to the host.
    Connect,
    /// Perform the protocol version/key handshake.
    Handshake,
    /// Submit the username and password.
    Authenticate,
    /// Create the remote file with its declared length and permission bits.
    OpenRemote,
    /// Write the full payload to the open channel.
    Write,
}

/// Where one delivery stands: awaiting the outcome of a stage, finished with
/// a byte count, or stopped at the first failed stage.
#[derive(Clone, Copy, Debug, PartialEq, Eq, Structural)]
pub enum SessionState {
    /// The given stage must be performed next.
    Pending(Stage),
    /// Every stage succeeded; holds the count of bytes actually written.
    Done(usize),
    /// A stage failed; holds that stage's error. Terminal.
    Failed(ErrorKind),
}

/// The classified error reported when the given stage fails.
pub open spec fn stage_error(stage: Stage) -> ErrorKind {
    match stage {
        Stage::Connect => ErrorKind::ConnectionFailed,
        Stage::Handshake => ErrorKind::HandshakeFailed,
        Stage::Authenticate => ErrorKind::AuthenticationFailed,
        Stage::OpenRemote => ErrorKind::RemoteFileCreationFailed,
        Stage::Write => ErrorKind::WriteFailed,
    }
}

/// The stage that follows the given one when it succeeds, if any.
pub open spec fn stage_after(stage: Stage) -> Option<Stage> {
    match stage {
        Stage::Connect => Some(Stage::Handshake),
        Stage::Handshake => Some(Stage::Authenticate),
        Stage::Authenticate => Some(Stage::OpenRemote),
        Stage::OpenRemote => Some(Stage::Write),
        Stage::Write => None,
    }
}

/// How one recorded outcome moves the pipeline along: a failure of the
/// pending stage stops it with that stage's error; a success advances it to
/// the next stage, or — after the final write — finishes it with the byte
/// count. A finished or failed pipeline never moves again.
pub open spec fn spec_advance(state: SessionState, ok: bool, written: usize) -> SessionState {
    match state {
        SessionState::Pending(stage) => {
            if !ok {
                SessionState::Failed(stage_error(stage))
            } else {
                match stage_after(stage) {
                    Some(next) => SessionState::Pending(next),
                    None => SessionState::Done(written),
                }
            }
        },
        SessionState::Done(n) => SessionState::Done(n),
        SessionState::Failed(e) => SessionState::Failed(e),
    }
}

/// The stage the caller must perform next, if the pipeline is still moving.
pub open spec fn spec_pending(state: SessionState) -> Option<Stage> {
    match state {
        SessionState::Pending(stage) => Some(stage),
        SessionState::Done(_) => None,
        SessionState::Failed(_) => None,
    }
}

/// The fixed permission bits every remote file is created with:
/// read and write for owner, group and other.
pub const REMOTE_FILE_MODE: i32 = 0o666;

/// The length declared when the remote file is created: exactly the byte
/// count of the payload that the write stage will then stream, so that the
/// declared and written lengths can never disagree.
pub fn declared_length(payload: &Vec<u8>) -> (n: u64)
    ensures
        n == payload@.len(),
{
    payload.len() as u64
}

/// A fresh pipeline: nothing has run; the transport connection comes first.
pub fn start_session() -> (s: SessionState)
    ensures
        s == SessionState::Pending(Stage::Connect),
{
    SessionState::Pending(Stage::Connect)
}

/// Returns the stage to perform next, or `None` once the pipeline has
/// finished or failed.
pub fn pending_stage(state: &SessionState) -> (r: Option<Stage>)
    ensures
        r == spec_pending(*state),
{
    match state {
        SessionState::Pending(stage) => Some(*stage),
        SessionState::Done(_) => None,
        SessionState::Failed(_) => None,
    }
}

/// Records the outcome of the pending stage and moves the pipeline along.
/// `written` is the byte count a successful write reported; it is read only
/// when the succeeding stage is the final one.
pub fn advance(state: SessionState, ok: bool, written: usize) -> (next: SessionState)
    ensures
        next == spec_advance(state, ok, written),
{
    match state {
        SessionState::Pending(stage) => {
            if !ok {
                SessionState::Failed(stage_error_of(stage))
            } else {
                match stage_after_of(stage) {
                    Some(next) => SessionState::Pending(next),
                    None => SessionState::Done(written),
                }
            }
        },
        SessionState::Done(n) => SessionState::Done(n),
        SessionState::Failed(e) => SessionState::Failed(e),
    }
}

/// Returns the classified error for a failure of the given stage.
pub fn stage_error_of(stage: Stage) -> (e: ErrorKind)
    ensures
        e == stage_error(stage),
{
    match stage {
        Stage::Connect => ErrorKind::ConnectionFailed,
        Stage::Handshake => ErrorKind::HandshakeFailed,
        Stage::Authenticate => ErrorKind::AuthenticationFailed,
        Stage::OpenRemote => ErrorKind::RemoteFileCreationFailed,
        Stage::Write => ErrorKind::WriteFailed,
    }
}

/// Returns the stage that follows the given one on success, if any.
pub fn stage_after_of(stage: Stage) -> (r: Option<Stage>)
    ensures
        r == stage_after(stage),
{
    match stage {
        Stage::Connect => Some(Stage::Handshake),
        Stage::Handshake => Some(Stage::Authenticate),
        Stage::Authenticate => Some(Stage::OpenRemote),
        Stage::OpenRemote => Some(Stage::Write),
        Stage::Write => None,
    }
}

/// The final result once the pipeline has stopped moving: the byte count on
/// success, the first failed stage's error otherwise.
pub fn session_result(state: &SessionState) -> (r: Option<Result<usize, ErrorKind>>)
    ensures
        match *state {
            SessionState::Done(n) => r == Some(Result::<usize, ErrorKind>::Ok(n)),
            SessionState::Failed(e) => r == Some(Result::<usize, ErrorKind>::Err(e)),
            SessionState::Pending(_) => r is None,
        },
{
    match state {
        SessionState::Done(n) => Some(Ok(*n)),
        SessionState::Failed(e) => Some(Err(*e)),
        SessionState::Pending(_) => None,
    }
}

/// A failed pipeline is terminal: no stage is pending, and no further
/// outcome — successful or not — changes it. Together with the contract of
/// [`advance`], this is the short-circuit rule: once a stage has failed,
/// the later stages are never asked for and the reported error stays that
/// of the first failure.
pub proof fn lemma_failure_is_terminal(e: ErrorKind, ok: bool, written: usize)
    ensures
        spec_pending(SessionState::Failed(e)) is None,
        spec_advance(SessionState::Failed(e), ok, written) == SessionState::Failed(e),
{
}

/// Runs the whole delivery decision chain over the five stage outcomes,
/// strictly in order: the result is the error of the earliest failed stage,
/// ignoring everything after it, and the reported byte count only when all
/// five stages succeeded. The outcomes of stages after the first failure are
/// irrelevant to the result — they would never be performed.
pub fn send_remote_file(
    connect_ok: bool,
    handshake_ok: bool,
    auth_ok: bool,
    open_ok: bool,
    write_ok: bool,
    written: usize,
) -> (r: Result<usize, ErrorKind>)
    ensures
        !connect_ok ==> r == Result::<usize, ErrorKind>::Err(ErrorKind::ConnectionFailed),
        connect_ok && !handshake_ok ==> r == Result::<usize, ErrorKind>::Err(
            ErrorKind::HandshakeFailed,
        ),
        connect_ok && handshake_ok && !auth_ok ==> r == Result::<usize, ErrorKind>::Err(
            ErrorKind::AuthenticationFailed,
        ),
        connect_ok && handshake_ok && auth_ok && !open_ok ==> r == Result::<usize, ErrorKind>::Err(
            ErrorKind::RemoteFileCreationFailed,
        ),
        connect_ok && handshake_ok && auth_ok && open_ok && !write_ok ==> r == Result::<
            usize,
            ErrorKind,
        >::Err(ErrorKind::WriteFailed),
        connect_ok && handshake_ok && auth_ok && open_ok && write_ok ==> r == Result::<
            usize,
            ErrorKind,
        >::Ok(written),
{
    let mut state = start_session();
    state = advance(state, connect_ok, 0);
    state = advance(state, handshake_ok, 0);
    state = advance(state, auth_ok, 0);
    state = advance(state, open_ok, 0);
    state = advance(state, write_ok, written);
    match session_result(&state) {
        Some(r) => r,
        None => vstd::pervasive::unreached(),
    }
}

} // verus!
