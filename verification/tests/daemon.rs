use kild_ui::daemon::{
    ack_outcome, check_reply_line, create_outcome, create_session_request,
    find_first_running_session, frame_message, get_session_outcome, list_outcome,
    decode_output, next_request_id, ping_outcome, request_id, write_stdin_request, ClientRequest,
    DaemonClientError, DaemonReply, DaemonSession, ErrorCode, SessionStatus,
};

#[test]
fn test_next_request_id_increments() {
    let mut counter: u64 = 1;
    let id1 = next_request_id(&mut counter);
    let id2 = next_request_id(&mut counter);
    assert!(id1.starts_with("ui-"));
    assert!(id2.starts_with("ui-"));
    assert_ne!(id1, id2);
}

#[test]
fn request_ids_count_up() {
    let mut counter: u64 = 41;
    assert_eq!(next_request_id(&mut counter), "ui-41");
    assert_eq!(next_request_id(&mut counter), "ui-42");
    assert_eq!(counter, 43);
    let mut last: u64 = u64::MAX;
    assert_eq!(next_request_id(&mut last), format!("ui-{}", u64::MAX));
    assert_eq!(last, 0);
    assert_eq!(request_id(0), "ui-0");
}

#[test]
fn test_error_display_connection_closed() {
    let err = DaemonClientError::ConnectionClosed;
    assert_eq!(err.to_string(), "daemon closed connection (EOF)");
}

#[test]
fn test_error_display_session_not_found() {
    let err = DaemonClientError::SessionNotFound;
    assert_eq!(err.to_string(), "no running daemon session found");
}

#[test]
fn test_error_display_empty_response() {
    let err = DaemonClientError::EmptyResponse;
    assert_eq!(err.to_string(), "daemon sent empty response");
}

#[test]
fn test_error_display_daemon_error() {
    let err = DaemonClientError::DaemonError {
        code: "session_not_found".to_string(),
        message: "no such session".to_string(),
    };
    assert_eq!(
        err.to_string(),
        "daemon error (session_not_found): no such session"
    );
}

#[test]
fn test_error_variants_are_distinct() {
    let connect = DaemonClientError::Connect("test".to_string());
    let closed = DaemonClientError::ConnectionClosed;
    let empty = DaemonClientError::EmptyResponse;
    let not_found = DaemonClientError::SessionNotFound;
    assert_ne!(connect.to_string(), closed.to_string());
    assert_ne!(empty.to_string(), not_found.to_string());
}

#[test]
fn other_error_messages() {
    assert_eq!(
        DaemonClientError::Connect("refused".to_string()).to_string(),
        "failed to connect to daemon: refused"
    );
    assert_eq!(
        DaemonClientError::InvalidJson {
            source: "eof".to_string(),
            json: "{".to_string()
        }
        .to_string(),
        "invalid JSON from daemon: eof: {"
    );
    assert_eq!(
        DaemonClientError::UnexpectedResponse("Ack".to_string()).to_string(),
        "unexpected response from daemon: Ack"
    );
    assert_eq!(
        DaemonClientError::Base64Decode("bad".to_string()).to_string(),
        "base64 decode failed: bad"
    );
}

#[test]
fn reply_lines_are_checked() {
    assert_eq!(check_reply_line(0, ""), Err(DaemonClientError::ConnectionClosed));
    assert_eq!(check_reply_line(3, "  \n"), Err(DaemonClientError::EmptyResponse));
    assert_eq!(
        check_reply_line(20, "  {\"type\":\"ack\"}\n"),
        Ok("{\"type\":\"ack\"}".to_string())
    );
}

fn session(id: &str, status: SessionStatus) -> DaemonSession {
    DaemonSession {
        id: id.to_string(),
        working_directory: "/tmp".to_string(),
        command: "bash".to_string(),
        status,
        created_at: "2026-02-12T00:00:00Z".to_string(),
    }
}

#[test]
fn replies_are_judged() {
    assert_eq!(ping_outcome(DaemonReply::Ack), Ok(true));
    assert_eq!(
        ping_outcome(DaemonReply::SessionList(vec![])),
        Err(DaemonClientError::UnexpectedResponse("SessionList".to_string()))
    );
    assert_eq!(
        ping_outcome(DaemonReply::Error {
            code: ErrorCode::Other("internal".to_string()),
            message: "boom".to_string()
        }),
        Err(DaemonClientError::UnexpectedResponse("Error".to_string()))
    );
    assert!(ack_outcome(DaemonReply::Ack).is_ok());
    assert_eq!(
        ack_outcome(DaemonReply::Error {
            code: ErrorCode::Other("internal".to_string()),
            message: "boom".to_string()
        }),
        Err(DaemonClientError::DaemonError {
            code: "internal".to_string(),
            message: "boom".to_string()
        })
    );
    let found = get_session_outcome(DaemonReply::SessionInfo(session("s", SessionStatus::Running)))
        .unwrap()
        .unwrap();
    assert_eq!(found.id, "s");
    assert!(get_session_outcome(DaemonReply::Error {
        code: ErrorCode::SessionNotFound,
        message: "no such session".to_string()
    })
    .unwrap()
    .is_none());
    assert_eq!(
        create_outcome(DaemonReply::SessionCreated(session("new", SessionStatus::Creating))),
        Ok("new".to_string())
    );
    assert_eq!(list_outcome(DaemonReply::SessionList(vec![session("a", SessionStatus::Stopped)])).unwrap().len(), 1);
}

#[test]
fn first_running_session_is_found() {
    let sessions = vec![
        session("a", SessionStatus::Stopped),
        session("b", SessionStatus::Running),
        session("c", SessionStatus::Running),
    ];
    assert_eq!(find_first_running_session(sessions).unwrap().id, "b");
    assert_eq!(
        find_first_running_session(vec![session("a", SessionStatus::Stopped)]).unwrap_err(),
        DaemonClientError::SessionNotFound
    );
}

#[test]
fn test_write_stdin_base64_roundtrip() {
    match write_stdin_request("test".to_string(), "sess", b"hello world") {
        ClientRequest::WriteStdin { id, session_id, data } => {
            assert_eq!(id, "test");
            assert_eq!(session_id, "sess");
            assert_eq!(data, "aGVsbG8gd29ybGQ=");
        }
        _ => panic!("expected WriteStdin"),
    }
}

#[test]
fn create_requests_use_a_login_shell() {
    match create_session_request("ui-1".to_string(), "s", "/w", None) {
        ClientRequest::CreateSession {
            command,
            rows,
            cols,
            use_login_shell,
            ..
        } => {
            assert_eq!(command, "/bin/bash");
            assert_eq!((rows, cols), (24, 80));
            assert!(use_login_shell);
        }
        _ => panic!("expected CreateSession"),
    }
}

#[test]
fn messages_end_with_newline() {
    assert_eq!(frame_message("{\"a\":1}"), b"{\"a\":1}\n".to_vec());
}

#[test]
fn output_payloads_decode() {
    assert_eq!(decode_output("aGVsbG8=").unwrap(), b"hello".to_vec());
    assert!(matches!(decode_output("not base64!"), Err(DaemonClientError::Base64Decode(_))));
    if let ClientRequest::WriteStdin { data, .. } = write_stdin_request("id".to_string(), "s", b"hello world") {
        assert_eq!(decode_output(&data).unwrap(), b"hello world".to_vec());
    } else {
        panic!("expected WriteStdin");
    }
}
