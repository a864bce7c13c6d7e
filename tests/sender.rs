use octane::sender::{SendAction, SendAttempt};

#[test]
fn two_failures_in_a_row_propagate() {
    let mut a = SendAttempt::new();
    assert_eq!(a.record(false, true), SendAction::RespawnAndRetry);
    assert_eq!(a.record(false, true), SendAction::Finish(false));
}

#[test]
fn first_send_delivered() {
    let mut a = SendAttempt::new();
    assert_eq!(a.record(true, false), SendAction::Finish(true));
}

#[test]
fn racing_respawn_only_retries() {
    let mut a = SendAttempt::new();
    assert_eq!(a.record(false, false), SendAction::Retry);
    assert_eq!(a.record(true, false), SendAction::Finish(true));
}
