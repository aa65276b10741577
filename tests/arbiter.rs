use cherrydoor_gateway::access::AccessStatus;
use cherrydoor_gateway::arbiter::{decision_effects, step, Effect, LinkEvent};
use cherrydoor_gateway::command::{Action, DENIED_TEXT, GRANTED_TEXT};
use cherrydoor_gateway::heartbeat::{HealthFlags, Heartbeat, ReadErrorKind};
use cherrydoor_gateway::rendezvous::{registration_response, Rendezvous, TimeoutError};

fn line(text: &str, parsed: Option<Heartbeat>) -> LinkEvent {
    LinkEvent::Line { text: text.to_string(), parsed }
}

fn is_report(e: &Effect, flags: HealthFlags) -> bool {
    matches!(e, Effect::ReportIssue(f) if *f == flags)
}

#[test]
fn init_announcement_syncs_profile_only() {
    let mut slot = Rendezvous::new();
    slot.register_wait();
    let hb = Heartbeat::new().with_code("A1B2".to_string());
    let effects = step(&mut slot, line("System initialized", Some(hb)));
    assert_eq!(effects.len(), 1);
    assert!(matches!(effects[0], Effect::SyncActiveProfile));
    assert!(slot.waiting());
}

#[test]
fn init_announcement_with_trailing_bytes() {
    let mut slot = Rendezvous::new();
    let effects = step(&mut slot, line("System initialized\n\0\0", None));
    assert_eq!(effects.len(), 1);
    assert!(matches!(effects[0], Effect::SyncActiveProfile));
}

#[test]
fn all_clear_without_code_clears_issue() {
    let mut slot = Rendezvous::new();
    let effects = step(&mut slot, line("heartbeat", Some(Heartbeat::new())));
    assert_eq!(effects.len(), 1);
    assert!(matches!(effects[0], Effect::ClearLastIssue));
    assert!(!effects.iter().any(|e| matches!(e, Effect::Dispatch(_) | Effect::Decide(_))));
}

#[test]
fn timeout_flag_with_code_reports_then_decides() {
    let mut slot = Rendezvous::new();
    let hb = Heartbeat::new().set_connection_timeout().with_code("A1B2".to_string());
    let effects = step(&mut slot, line("heartbeat", Some(hb)));
    assert_eq!(effects.len(), 2);
    let timeout = HealthFlags {
        connection_timeout: true,
        connection_broken: false,
        invalid_heartbeat: false,
    };
    assert!(is_report(&effects[0], timeout));
    assert!(matches!(&effects[1], Effect::Decide(c) if c == "A1B2"));

    let follow = decision_effects("A1B2".to_string(), Some(AccessStatus::Granted));
    assert_eq!(follow.len(), 2);
    match &follow[0] {
        Effect::Dispatch(cmd) => {
            let actions = cmd.actions();
            assert_eq!(actions.len(), 3);
            assert!(matches!(actions[0], Action::OpenFor(10)));
            assert!(matches!(&actions[1], Action::DisplayTextFor(t, 10) if t == GRANTED_TEXT));
            assert!(matches!(actions[2], Action::PlaySound(1)));
        },
        _ => panic!("expected a dispatch"),
    }
    assert!(matches!(&follow[1], Effect::RecordOutcome(c, AccessStatus::Granted) if c == "A1B2"));
}

#[test]
fn malformed_line_is_reported_and_loop_continues() {
    let mut slot = Rendezvous::new();
    let effects = step(&mut slot, line("garbage", None));
    let invalid = HealthFlags {
        connection_timeout: false,
        connection_broken: false,
        invalid_heartbeat: true,
    };
    assert_eq!(effects.len(), 1);
    assert!(is_report(&effects[0], invalid));
    assert!(!effects.iter().any(|e| matches!(e, Effect::Halt)));
}

#[test]
fn waiting_caller_receives_code_and_no_decision() {
    let mut slot = Rendezvous::new();
    slot.register_wait();
    let hb = Heartbeat::new().with_code("X9".to_string());
    let effects = step(&mut slot, line("heartbeat", Some(hb)));
    assert_eq!(effects.len(), 2);
    assert!(matches!(effects[0], Effect::ClearLastIssue));
    assert!(matches!(&effects[1], Effect::DeliverToWaiter(c) if c == "X9"));
    assert!(!effects.iter().any(|e| matches!(e, Effect::Decide(_))));
    assert!(!slot.waiting());
    assert_eq!(slot.finish_wait(Some("X9".to_string())), Ok("X9".to_string()));
}

#[test]
fn second_code_after_delivery_is_decided() {
    let mut slot = Rendezvous::new();
    slot.register_wait();
    let first = step(&mut slot, line("hb", Some(Heartbeat::new().with_code("A".to_string()))));
    assert!(matches!(&first[1], Effect::DeliverToWaiter(c) if c == "A"));
    let second = step(&mut slot, line("hb", Some(Heartbeat::new().with_code("B".to_string()))));
    assert!(matches!(&second[1], Effect::Decide(c) if c == "B"));
}

#[test]
fn timed_out_wait_routes_next_code_to_decision() {
    let mut slot = Rendezvous::new();
    slot.register_wait();
    assert_eq!(slot.finish_wait(None), Err(TimeoutError));
    assert!(!slot.waiting());
    let effects = step(&mut slot, line("hb", Some(Heartbeat::new().with_code("C3".to_string()))));
    assert!(matches!(&effects[1], Effect::Decide(c) if c == "C3"));
    assert!(!effects.iter().any(|e| matches!(e, Effect::DeliverToWaiter(_))));
}

#[test]
fn read_failures_are_classified() {
    let mut slot = Rendezvous::new();
    let t = step(&mut slot, LinkEvent::ReadFailed(ReadErrorKind::TimedOut));
    assert!(is_report(&t[0], HealthFlags {
        connection_timeout: true,
        connection_broken: false,
        invalid_heartbeat: false,
    }));
    let b = step(&mut slot, LinkEvent::ReadFailed(ReadErrorKind::BrokenPipe));
    assert!(is_report(&b[0], HealthFlags {
        connection_timeout: false,
        connection_broken: true,
        invalid_heartbeat: false,
    }));
    let o = step(&mut slot, LinkEvent::ReadFailed(ReadErrorKind::Other));
    assert_eq!(o.len(), 1);
    assert!(matches!(o[0], Effect::Halt));
}

#[test]
fn denial_dispatches_message_and_tone_without_unlock() {
    let follow = decision_effects("D4".to_string(), Some(AccessStatus::Denied));
    assert_eq!(follow.len(), 2);
    match &follow[0] {
        Effect::Dispatch(cmd) => {
            let actions = cmd.actions();
            assert_eq!(actions.len(), 2);
            assert!(matches!(&actions[0], Action::DisplayTextFor(t, 10) if t == DENIED_TEXT));
            assert!(matches!(actions[1], Action::PlaySound(2)));
        },
        _ => panic!("expected a dispatch"),
    }
    assert!(matches!(&follow[1], Effect::RecordOutcome(c, AccessStatus::Denied) if c == "D4"));
}

#[test]
fn service_failure_dispatches_nothing() {
    assert!(decision_effects("E5".to_string(), None).is_empty());
}

#[test]
fn registration_answers() {
    assert_eq!(registration_response(Ok("A1".to_string())), (200, "A1".to_string()));
    assert_eq!(registration_response(Err(TimeoutError)), (404, "timed out".to_string()));
}

#[test]
fn slot_claim_and_cancel() {
    let mut slot = Rendezvous::new();
    assert!(!slot.waiting());
    assert!(!slot.try_claim());
    slot.register_wait();
    assert!(slot.waiting());
    assert!(slot.try_claim());
    assert!(!slot.waiting());
    assert!(!slot.try_claim());
    slot.register_wait();
    slot.cancel_wait();
    assert!(!slot.waiting());
}

#[test]
fn broken_flag_with_code_while_waiting() {
    let mut slot = Rendezvous::new();
    slot.register_wait();
    let hb = Heartbeat::new().set_connection_broken().with_code("K".to_string());
    let effects = step(&mut slot, line("hb", Some(hb)));
    assert_eq!(effects.len(), 2);
    assert!(is_report(&effects[0], HealthFlags {
        connection_timeout: false,
        connection_broken: true,
        invalid_heartbeat: false,
    }));
    assert!(matches!(&effects[1], Effect::DeliverToWaiter(c) if c == "K"));
}

#[test]
fn malformed_line_keeps_waiter() {
    let mut slot = Rendezvous::new();
    slot.register_wait();
    let effects = step(&mut slot, line("???", None));
    assert_eq!(effects.len(), 1);
    assert!(slot.waiting());
}
