use ratatube::child::{capture_stderr_chunk, child_verdict, exit_failure_text, timeout_text, ChildEnd, ChildVerdict, MAX_STDERR_BYTES};
use ratatube::server::{
    admit_connection, claim_step, handshake, next_client_id, server_full_text, Admission, ClaimStep, Handshake,
    HelloRead, SocketProbe,
};

#[test]
fn only_a_refused_probe_replaces_the_socket() {
    assert_eq!(claim_step(SocketProbe::Connected), ClaimStep::AlreadyRunning);
    assert_eq!(claim_step(SocketProbe::NotFound), ClaimStep::Bind);
    assert_eq!(claim_step(SocketProbe::Refused), ClaimStep::ReplaceStale);
    assert_eq!(claim_step(SocketProbe::Failed), ClaimStep::Undetermined);
}

#[test]
fn client_ids_skip_zero() {
    assert_eq!(next_client_id(1), 2);
    assert_eq!(next_client_id(u64::MAX), 1);
}

#[test]
fn connections_past_the_client_cap_are_refused() {
    assert_eq!(admit_connection(63, 0), Admission::Serve);
    assert_eq!(admit_connection(64, 15), Admission::Refuse);
    assert_eq!(admit_connection(64, 16), Admission::Drop);
    assert_eq!(server_full_text(), "daemon is already serving its maximum of 64 clients");
}

#[test]
fn handshakes_check_the_protocol() {
    assert!(matches!(handshake(HelloRead::Hello { protocol: 2 }, 2), Handshake::Accept));
    assert!(matches!(handshake(HelloRead::Hello { protocol: 1 }, 2),
        Handshake::RefuseProtocol { message } if message == "protocol 1 is not supported; this daemon speaks 2"));
    assert!(matches!(handshake(HelloRead::TimedOut, 2), Handshake::Drop));
    assert!(matches!(handshake(HelloRead::Other, 2), Handshake::Drop));
}

#[test]
fn stderr_capture_stops_at_the_limit() {
    let mut captured = vec![0u8; MAX_STDERR_BYTES - 2];
    capture_stderr_chunk(&mut captured, &[1, 2, 3, 4]);
    assert_eq!(captured.len(), MAX_STDERR_BYTES);
    assert_eq!(&captured[MAX_STDERR_BYTES - 2..], &[1, 2]);
    capture_stderr_chunk(&mut captured, &[9]);
    assert_eq!(captured.len(), MAX_STDERR_BYTES);
}

#[test]
fn every_unexited_child_is_reaped() {
    assert_eq!(child_verdict(ChildEnd::Exited { success: true }), (ChildVerdict::Succeeded, false));
    assert_eq!(child_verdict(ChildEnd::Exited { success: false }), (ChildVerdict::ExitFailure, false));
    assert_eq!(child_verdict(ChildEnd::Failed), (ChildVerdict::RunFailure, true));
    assert_eq!(child_verdict(ChildEnd::TimedOut), (ChildVerdict::Timeout, true));
    assert_eq!(child_verdict(ChildEnd::Cancelled), (ChildVerdict::Cancelled, true));
}

#[test]
fn failure_messages_include_trimmed_stderr() {
    assert_eq!(exit_failure_text("1", "  bad thing\n"), "exit status 1: bad thing");
    assert_eq!(exit_failure_text("2", " \n"), "exit status 2");
    assert_eq!(timeout_text("browser"), "browser command exceeded its deadline");
}
