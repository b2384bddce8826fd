use magnet_torrent::errors::ErrorKind;
use magnet_torrent::session::{
    advance, declared_length, pending_stage, send_remote_file, session_result, start_session,
    SessionState, Stage, REMOTE_FILE_MODE,
};

#[test]
fn remote_file_parameters() {
    // rw for owner, group and other; declared length is the payload's byte count.
    assert_eq!(REMOTE_FILE_MODE, 0o666);
    let payload = vec![1u8, 2, 3, 4, 5];
    assert_eq!(declared_length(&payload), 5);
    assert_eq!(declared_length(&Vec::new()), 0);
}

#[test]
fn connect_failure_short_circuits() {
    // Whatever the later stages would have done is irrelevant.
    assert_eq!(
        send_remote_file(false, true, true, true, true, 99),
        Err(ErrorKind::ConnectionFailed)
    );
    assert_eq!(
        send_remote_file(false, false, false, false, false, 0),
        Err(ErrorKind::ConnectionFailed)
    );
}

#[test]
fn handshake_failure_short_circuits() {
    assert_eq!(
        send_remote_file(true, false, true, true, true, 99),
        Err(ErrorKind::HandshakeFailed)
    );
}

#[test]
fn authentication_failure_short_circuits() {
    assert_eq!(
        send_remote_file(true, true, false, true, true, 99),
        Err(ErrorKind::AuthenticationFailed)
    );
}

#[test]
fn remote_file_failure_short_circuits() {
    assert_eq!(
        send_remote_file(true, true, true, false, true, 99),
        Err(ErrorKind::RemoteFileCreationFailed)
    );
}

#[test]
fn write_failure_is_reported() {
    assert_eq!(
        send_remote_file(true, true, true, true, false, 99),
        Err(ErrorKind::WriteFailed)
    );
}

#[test]
fn full_success_reports_bytes_written() {
    assert_eq!(send_remote_file(true, true, true, true, true, 48), Ok(48));
    // A short write's count is returned as-is.
    assert_eq!(send_remote_file(true, true, true, true, true, 7), Ok(7));
}

#[test]
fn stages_run_in_order() {
    let mut st = start_session();
    assert_eq!(pending_stage(&st), Some(Stage::Connect));
    st = advance(st, true, 0);
    assert_eq!(pending_stage(&st), Some(Stage::Handshake));
    st = advance(st, true, 0);
    assert_eq!(pending_stage(&st), Some(Stage::Authenticate));
    st = advance(st, true, 0);
    assert_eq!(pending_stage(&st), Some(Stage::OpenRemote));
    st = advance(st, true, 0);
    assert_eq!(pending_stage(&st), Some(Stage::Write));
    st = advance(st, true, 321);
    assert_eq!(pending_stage(&st), None);
    assert_eq!(session_result(&st), Some(Ok(321)));
}

#[test]
fn first_failure_is_terminal() {
    let mut st = start_session();
    st = advance(st, true, 0); // connected
    st = advance(st, false, 0); // handshake fails
    assert_eq!(st, SessionState::Failed(ErrorKind::HandshakeFailed));
    assert_eq!(pending_stage(&st), None);
    // No later outcome moves a failed pipeline.
    st = advance(st, true, 55);
    assert_eq!(st, SessionState::Failed(ErrorKind::HandshakeFailed));
    assert_eq!(session_result(&st), Some(Err(ErrorKind::HandshakeFailed)));
}

#[test]
fn no_result_while_pending() {
    let st = start_session();
    assert_eq!(session_result(&st), None);
}

#[test]
fn stage_messages_are_stable() {
    assert_eq!(
        ErrorKind::ConnectionFailed.message(),
        "Could not initialize TcpStream."
    );
    assert_eq!(
        ErrorKind::HandshakeFailed.message(),
        "Unable to successfully handshake."
    );
    assert_eq!(
        ErrorKind::AuthenticationFailed.message(),
        "Incorrect login credentials."
    );
    assert_eq!(
        ErrorKind::RemoteFileCreationFailed.message(),
        "Could not create remote file."
    );
    assert_eq!(
        ErrorKind::WriteFailed.message(),
        "Could not write to remote file."
    );
}
