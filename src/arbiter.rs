use vstd::prelude::*;

use crate::access::AccessStatus;
use crate::command::{feedback_actions, feedback_command, Command};
use crate::heartbeat::{
    is_init_announcement, spec_is_init_announcement, HealthFlags, Heartbeat, ReadErrorKind,
};
use crate::rendezvous::Rendezvous;

verus! {

/// What one read from the link produced.
pub enum LinkEvent {
    /// The read failed.
    ReadFailed(ReadErrorKind),
    /// A line was read; `parsed` is the status report decoded from it, or
    /// `None` where the line is not a well-formed report.
    Line { text: String, parsed: Option<Heartbeat> },
}

/// What the read loop does in answer to an event, in order.
pub enum Effect {
    /// Ask the decision service to sync the active profile.
    SyncActiveProfile,
    /// Mark the last reported issue as resolved.
    ClearLastIssue,
    /// Report a health issue.
    ReportIssue(HealthFlags),
    /// Hand the code to the waiting registration call.
    DeliverToWaiter(String),
    /// Ask the decision service for a verdict on the code.
    Decide(String),
    /// Send the command to the controller.
    Dispatch(Command),
    /// Record the verdict on the code; skipped where the preceding dispatch
    /// failed.
    RecordOutcome(String, AccessStatus),
    /// Stop the loop: the link failed in a way it cannot recover from.
    Halt,
}

/// The health effect of a decoded report.
pub open spec fn health_effects(hb: Heartbeat) -> Seq<Effect> {
    if hb.flags.spec_all_ok() {
        seq![Effect::ClearLastIssue]
    } else {
        seq![Effect::ReportIssue(hb.flags)]
    }
}

/// Where a scanned code goes: to the waiting caller if there is one, else to
/// the decision service.
pub open spec fn route_effects(waiting: bool, code: Option<String>) -> Seq<Effect> {
    match code {
        None => Seq::empty(),
        Some(c) => if waiting {
            seq![Effect::DeliverToWaiter(c)]
        } else {
            seq![Effect::Decide(c)]
        },
    }
}

/// The effects of one event, given whether a registration call waits.
pub open spec fn step_effects(waiting: bool, event: LinkEvent) -> Seq<Effect> {
    match event {
        LinkEvent::ReadFailed(ReadErrorKind::TimedOut) => seq![
            Effect::ReportIssue(HealthFlags::timed_out()),
        ],
        LinkEvent::ReadFailed(ReadErrorKind::BrokenPipe) => seq![
            Effect::ReportIssue(HealthFlags::broken()),
        ],
        LinkEvent::ReadFailed(ReadErrorKind::Other) => seq![Effect::Halt],
        LinkEvent::Line { text, parsed } => if spec_is_init_announcement(text@) {
            seq![Effect::SyncActiveProfile]
        } else {
            match parsed {
                None => seq![Effect::ReportIssue(HealthFlags::invalid())],
                Some(hb) => health_effects(hb) + route_effects(waiting, hb.code),
            }
        },
    }
}

/// Whether a registration call still waits after the event: a scanned code
/// that is routed ends the wait.
pub open spec fn waiting_after(waiting: bool, event: LinkEvent) -> bool {
    match event {
        LinkEvent::Line { text, parsed } => if spec_is_init_announcement(text@) {
            waiting
        } else {
            match parsed {
                Some(hb) => waiting && hb.code is None,
                None => waiting,
            }
        },
        _ => waiting,
    }
}

fn flag_effect(flags: HealthFlags) -> (r: Effect)
    ensures
        r == (if flags.spec_all_ok() {
            Effect::ClearLastIssue
        } else {
            Effect::ReportIssue(flags)
        }),
{
    if !flags.connection_timeout && !flags.connection_broken && !flags.invalid_heartbeat {
        Effect::ClearLastIssue
    } else {
        Effect::ReportIssue(flags)
    }
}

/// Decides what the read loop does with one event. Whether a caller waits is
/// read and cleared in the same step as the routing of a code, so a code goes
/// to exactly one of the waiting caller and the decision service.
pub fn step(slot: &mut Rendezvous, event: LinkEvent) -> (r: Vec<Effect>)
    ensures
        r@ == step_effects(old(slot).is_waiting(), event),
        final(slot).is_waiting() == waiting_after(old(slot).is_waiting(), event),
{
    let ghost waiting = slot.is_waiting();
    match event {
        LinkEvent::ReadFailed(kind) => {
            let mut r: Vec<Effect> = Vec::new();
            match kind {
                ReadErrorKind::TimedOut => r.push(
                    Effect::ReportIssue(
                        HealthFlags {
                            connection_timeout: true,
                            connection_broken: false,
                            invalid_heartbeat: false,
                        },
                    ),
                ),
                ReadErrorKind::BrokenPipe => r.push(
                    Effect::ReportIssue(
                        HealthFlags {
                            connection_timeout: false,
                            connection_broken: true,
                            invalid_heartbeat: false,
                        },
                    ),
                ),
                ReadErrorKind::Other => r.push(Effect::Halt),
            }
            proof {
                assert(r@ =~= step_effects(waiting, event));
            }
            r
        },
        LinkEvent::Line { text, parsed } => {
            let mut r: Vec<Effect> = Vec::new();
            if is_init_announcement(text.as_str()) {
                r.push(Effect::SyncActiveProfile);
                proof {
                    assert(r@ =~= step_effects(waiting, event));
                }
                return r;
            }
            match parsed {
                None => {
                    r.push(
                        Effect::ReportIssue(
                            HealthFlags {
                                connection_timeout: false,
                                connection_broken: false,
                                invalid_heartbeat: true,
                            },
                        ),
                    );
                    proof {
                        assert(r@ =~= step_effects(waiting, event));
                    }
                    r
                },
                Some(hb) => {
                    r.push(flag_effect(hb.flags));
                    match hb.code {
                        None => {},
                        Some(code) => {
                            if slot.try_claim() {
                                r.push(Effect::DeliverToWaiter(code));
                            } else {
                                r.push(Effect::Decide(code));
                            }
                        },
                    }
                    proof {
                        assert(r@ =~= step_effects(waiting, event));
                    }
                    r
                },
            }
        },
    }
}

/// Decides what follows the decision service's answer on a code: with a
/// verdict, the feedback command and then the record of the verdict; without
/// one (the service failed), nothing.
pub fn decision_effects(code: String, verdict: Option<AccessStatus>) -> (r: Vec<Effect>)
    ensures
        match verdict {
            None => r@.len() == 0,
            Some(s) => {
                &&& r@.len() == 2
                &&& r@[0] matches Effect::Dispatch(c) && c@ == feedback_actions(s)
                &&& r@[1] == Effect::RecordOutcome(code, s)
            },
        },
{
    let mut r: Vec<Effect> = Vec::new();
    match verdict {
        None => {},
        Some(s) => {
            r.push(Effect::Dispatch(feedback_command(s)));
            r.push(Effect::RecordOutcome(code, s));
        },
    }
    r
}

/// A line that is neither the start-up announcement nor a well-formed report
/// is reported as a malformed report, and the loop goes on to the next line:
/// it does not halt, and the waiting flag is left as it was.
pub proof fn lemma_malformed_line_keeps_running(waiting: bool, text: String)
    requires
        !spec_is_init_announcement(text@),
    ensures
        ({
            let event = LinkEvent::Line { text, parsed: None };
            let e = step_effects(waiting, event);
            &&& e == seq![Effect::ReportIssue(HealthFlags::invalid())]
            &&& forall|i: int| 0 <= i < e.len() ==> !(e[i] is Halt)
            &&& waiting_after(waiting, event) == waiting
        }),
{
}

/// With a registration call waiting, a scanned code goes to that caller as the
/// last effect of the step, the decision service is not asked about it, and
/// nobody waits afterwards.
pub proof fn lemma_waiting_caller_receives_code(text: String, hb: Heartbeat, code: String)
    requires
        !spec_is_init_announcement(text@),
        hb.code == Some(code),
    ensures
        ({
            let event = LinkEvent::Line { text, parsed: Some(hb) };
            let e = step_effects(true, event);
            &&& e.len() > 0
            &&& e.last() == Effect::DeliverToWaiter(code)
            &&& forall|i: int| 0 <= i < e.len() ==> !(e[i] is Decide)
            &&& forall|i: int| 0 <= i < e.len() - 1 ==> !(e[i] is DeliverToWaiter)
            &&& !waiting_after(true, event)
        }),
{
}

/// With nobody waiting, a scanned code goes to the decision service exactly
/// once, as the last effect of the step, and to no registration call.
pub proof fn lemma_unclaimed_code_is_decided_once(text: String, hb: Heartbeat, code: String)
    requires
        !spec_is_init_announcement(text@),
        hb.code == Some(code),
    ensures
        ({
            let event = LinkEvent::Line { text, parsed: Some(hb) };
            let e = step_effects(false, event);
            &&& e.len() > 0
            &&& e.last() == Effect::Decide(code)
            &&& forall|i: int| 0 <= i < e.len() - 1 ==> !(e[i] is Decide)
            &&& forall|i: int| 0 <= i < e.len() ==> !(e[i] is DeliverToWaiter)
            &&& !waiting_after(false, event)
        }),
{
}

/// A registration call that timed out leaves nobody waiting, so the next
/// scanned code goes to the decision service and to no caller.
pub proof fn lemma_code_after_timeout_is_decided(
    slot: Rendezvous,
    text: String,
    hb: Heartbeat,
    code: String,
)
    requires
        !slot.is_waiting(),
        !spec_is_init_announcement(text@),
        hb.code == Some(code),
    ensures
        ({
            let e = step_effects(slot.is_waiting(), LinkEvent::Line { text, parsed: Some(hb) });
            &&& e.last() == Effect::Decide(code)
            &&& forall|i: int| 0 <= i < e.len() ==> !(e[i] is DeliverToWaiter)
        }),
{
    lemma_unclaimed_code_is_decided_once(text, hb, code);
}

/// The start-up announcement only triggers a profile sync: no health report,
/// no routing, and the waiting flag is left as it was.
pub proof fn lemma_init_announcement_only_syncs(
    waiting: bool,
    text: String,
    parsed: Option<Heartbeat>,
)
    requires
        spec_is_init_announcement(text@),
    ensures
        step_effects(waiting, LinkEvent::Line { text, parsed }) == seq![Effect::SyncActiveProfile],
        waiting_after(waiting, LinkEvent::Line { text, parsed }) == waiting,
{
}

/// A read that fails only for lack of data or a cut link is reported and the
/// loop goes on; any other read failure halts it.
pub proof fn lemma_read_failures(waiting: bool, kind: ReadErrorKind)
    ensures
        ({
            let e = step_effects(waiting, LinkEvent::ReadFailed(kind));
            &&& kind == ReadErrorKind::TimedOut ==> e == seq![
                Effect::ReportIssue(HealthFlags::timed_out()),
            ]
            &&& kind == ReadErrorKind::BrokenPipe ==> e == seq![
                Effect::ReportIssue(HealthFlags::broken()),
            ]
            &&& kind == ReadErrorKind::Other ==> e == seq![Effect::Halt]
            &&& waiting_after(waiting, LinkEvent::ReadFailed(kind)) == waiting
        }),
{
}

} // verus!
