use karnal_arch::resource::{
    ResourceCall, ResourceName, ResourceSession, SessionEvent, SessionOutcome, SessionPhase,
};

/// The kernel's replies, one per call the session makes.
struct Replies {
    acquire: i64,
    write: i64,
    read: (i64, u8),
    release: i64,
}

/// Drives `s` to the end, answering each call from `replies`; returns the
/// calls made (as short labels) and the outcome.
fn run(mut s: ResourceSession, replies: &Replies) -> (Vec<String>, SessionOutcome) {
    let mut calls = Vec::new();
    let mut call = s.step(SessionEvent::Start);
    loop {
        match call {
            ResourceCall::Acquire { resource, mode } => {
                calls.push(format!("acquire {} {}", resource.path(), mode));
                call = s.step(SessionEvent::Returned(replies.acquire));
            }
            ResourceCall::Write { handle, command } => {
                calls.push(format!("write {} {}", handle, command));
                call = s.step(SessionEvent::Returned(replies.write));
            }
            ResourceCall::ReadStatus { handle } => {
                calls.push(format!("read {}", handle));
                call = s.step(SessionEvent::StatusRead(replies.read.0, replies.read.1));
            }
            ResourceCall::Release { handle } => {
                calls.push(format!("release {}", handle));
                call = s.step(SessionEvent::Returned(replies.release));
            }
            ResourceCall::Finish(outcome) => {
                assert_eq!(s.phase, SessionPhase::Finished);
                return (calls, outcome);
            }
        }
    }
}

fn ok_replies() -> Replies {
    Replies { acquire: 7, write: 10, read: (1, 1), release: 0 }
}

#[test]
fn command_session_follows_the_protocol() {
    let s = ResourceSession::command(ResourceName::Power, Some("acpi_sleep"));
    let (calls, outcome) = run(s, &ok_replies());
    assert_eq!(calls, vec!["acquire karnal://power 0", "write 7 acpi_sleep", "release 7"]);
    assert_eq!(outcome, SessionOutcome::Done);
}

#[test]
fn failed_acquire_ends_without_release() {
    let s = ResourceSession::command(ResourceName::Power, Some("acpi_sleep"));
    let replies = Replies { acquire: -2, ..ok_replies() };
    let (calls, outcome) = run(s, &replies);
    assert_eq!(calls, vec!["acquire karnal://power 0"]);
    assert_eq!(outcome, SessionOutcome::Failed);
}

#[test]
fn missing_command_is_not_supported_and_the_handle_is_released() {
    let s = ResourceSession::command(ResourceName::Power, None);
    let (calls, outcome) = run(s, &ok_replies());
    assert_eq!(calls, vec!["acquire karnal://power 0", "release 7"]);
    assert_eq!(outcome, SessionOutcome::NotSupported);
}

#[test]
fn failed_write_still_releases() {
    let s = ResourceSession::command(ResourceName::Security, Some("enable_tpm"));
    let replies = Replies { write: -1, ..ok_replies() };
    let (calls, outcome) = run(s, &replies);
    assert_eq!(calls, vec!["acquire karnal://security 0", "write 7 enable_tpm", "release 7"]);
    assert_eq!(outcome, SessionOutcome::Failed);
}

#[test]
fn failed_release_does_not_change_the_outcome() {
    let s = ResourceSession::command(ResourceName::Power, Some("poweroff"));
    let replies = Replies { release: -5, ..ok_replies() };
    let (_, outcome) = run(s, &replies);
    assert_eq!(outcome, SessionOutcome::Done);
}

#[test]
fn query_reads_the_status_byte() {
    let s = ResourceSession::query(ResourceName::Security, "query_tpm");
    let (calls, outcome) = run(s, &Replies { read: (1, 3), ..ok_replies() });
    assert_eq!(calls, vec!["acquire karnal://security 0", "write 7 query_tpm", "read 7", "release 7"]);
    assert_eq!(outcome, SessionOutcome::Status(true));
    let s = ResourceSession::query(ResourceName::Security, "query_tpm");
    let (_, outcome) = run(s, &Replies { read: (1, 0), ..ok_replies() });
    assert_eq!(outcome, SessionOutcome::Status(false));
}

#[test]
fn query_ignores_the_write_result() {
    let s = ResourceSession::query(ResourceName::Security, "query_nx");
    let (_, outcome) = run(s, &Replies { write: -3, read: (1, 1), ..ok_replies() });
    assert_eq!(outcome, SessionOutcome::Status(true));
}

#[test]
fn query_with_short_read_fails() {
    for ret in [0i64, 2, -1] {
        let s = ResourceSession::query(ResourceName::Security, "query_nx");
        let (calls, outcome) = run(s, &Replies { read: (ret, 1), ..ok_replies() });
        assert_eq!(calls.len(), 4);
        assert_eq!(outcome, SessionOutcome::Failed);
    }
}

#[test]
fn out_of_order_event_ends_the_session() {
    let mut s = ResourceSession::command(ResourceName::Power, Some("sleep"));
    let call = s.step(SessionEvent::Returned(3));
    assert!(matches!(call, ResourceCall::Finish(SessionOutcome::Failed)));
    assert_eq!(s.phase, SessionPhase::Finished);
}

#[test]
fn fresh_sessions_start_idle() {
    let s = ResourceSession::command(ResourceName::Power, Some("sleep"));
    assert_eq!(s.phase, SessionPhase::Idle);
    assert_eq!(s.resource, ResourceName::Power);
    assert_eq!(s.command, Some("sleep"));
    assert!(!s.query);
    let q = ResourceSession::query(ResourceName::Security, "query_smon");
    assert!(q.query);
    assert_eq!(q.command, Some("query_smon"));
}

#[test]
fn resource_paths() {
    assert_eq!(ResourceName::Power.path(), "karnal://power");
    assert_eq!(ResourceName::Security.path(), "karnal://security");
}
