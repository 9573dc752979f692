//! What holds of every probe, whatever the caller feeds the machine.

use vstd::prelude::*;
use crate::probe::{next, ProbeAction, ProbeEvent, ProbeState};

verus! {

/// How many actions a probe in `state` can still ask for.
pub open spec fn rank(state: ProbeState) -> nat {
    match state {
        ProbeState::Idle => 4,
        ProbeState::Resolving => 3,
        ProbeState::ResolvingHost => 2,
        ProbeState::Connecting { .. } => 1,
        ProbeState::Done => 0,
    }
}

/// The state of a probe that began in `state` and was told `events`.
pub open spec fn state_after(state: ProbeState, events: Seq<ProbeEvent>, default_port: u16)
    -> ProbeState
    decreases events.len(),
{
    if events.len() == 0 {
        state
    } else {
        state_after(next(state, events[0], default_port).0, events.skip(1), default_port)
    }
}

/// How many reports a probe that began in `state` asked for while it was
/// told `events`.
pub open spec fn reports(state: ProbeState, events: Seq<ProbeEvent>, default_port: u16) -> nat
    decreases events.len(),
{
    if events.len() == 0 {
        0
    } else {
        let (after, action) = next(state, events[0], default_port);
        let here: nat = if action is Report {
            1
        } else {
            0
        };
        here + reports(after, events.skip(1), default_port)
    }
}

/// How many connect attempts a probe that began in `state` asked for while
/// it was told `events`.
pub open spec fn connects(state: ProbeState, events: Seq<ProbeEvent>, default_port: u16) -> nat
    decreases events.len(),
{
    if events.len() == 0 {
        0
    } else {
        let (after, action) = next(state, events[0], default_port);
        let here: nat = if action is Connect {
            1
        } else {
            0
        };
        here + connects(after, events.skip(1), default_port)
    }
}

/// Every event either leaves the probe as it is and asks for nothing, or
/// takes it strictly closer to its end. The probe asks for the report
/// exactly when it reaches its end, and for a connect attempt exactly when
/// it begins to wait for one, to the address it then holds.
pub proof fn lemma_step_advances(state: ProbeState, event: ProbeEvent, default_port: u16)
    ensures
        ({
            let (after, action) = next(state, event, default_port);
            &&& action is Nothing ==> after == state
            &&& !(action is Nothing) ==> rank(after) < rank(state)
            &&& action is Report <==> after is Done && !(state is Done)
            &&& action is Connect <==> after is Connecting && !(state is Connecting)
            &&& action matches ProbeAction::Connect { address } ==> after
                == (ProbeState::Connecting { address })
        }),
{
}

/// A probe reports once and dials once, at most, and a probe at its end
/// stays there. It has reported exactly when it has reached its end, and it
/// never dials after reporting.
pub proof fn lemma_one_report_one_connect(
    state: ProbeState,
    events: Seq<ProbeEvent>,
    default_port: u16,
)
    ensures
        reports(state, events, default_port) <= 1,
        connects(state, events, default_port) <= 1,
        state is Done ==> state_after(state, events, default_port) is Done,
        state is Done ==> reports(state, events, default_port) == 0,
        state is Done || state is Connecting ==> connects(state, events, default_port) == 0,
        !(state is Done) ==> (reports(state, events, default_port) == 1 <==> state_after(
            state,
            events,
            default_port,
        ) is Done),
    decreases events.len(),
{
    if events.len() > 0 {
        lemma_step_advances(state, events[0], default_port);
        let (after, action) = next(state, events[0], default_port);
        lemma_one_report_one_connect(after, events.skip(1), default_port);
    }
}

/// Whether `event` is an answer to what a probe in `state` waits for: the
/// start for a fresh probe, the end of a lookup while it resolves, the end
/// of the attempt while it connects.
pub open spec fn answers(state: ProbeState, event: ProbeEvent) -> bool {
    match state {
        ProbeState::Idle => event is Started,
        ProbeState::Resolving => event is LookupFailed || event is LookupAnswered,
        ProbeState::ResolvingHost => event is LookupFailed || event is LookupAnswered,
        ProbeState::Connecting { .. } => event is Connected || event is TimedOut
            || event is ConnectFailed,
        ProbeState::Done => false,
    }
}

/// Whether each of `events` answers what the probe waits for when it comes,
/// as long as the probe has not reached its end.
pub open spec fn well_driven(state: ProbeState, events: Seq<ProbeEvent>, default_port: u16) -> bool
    decreases events.len(),
{
    events.len() == 0 || state is Done || (answers(state, events[0]) && well_driven(
        next(state, events[0], default_port).0,
        events.skip(1),
        default_port,
    ))
}

/// An event that answers what the probe waits for is never passed over.
pub proof fn lemma_answer_is_taken(state: ProbeState, event: ProbeEvent, default_port: u16)
    requires
        answers(state, event),
    ensures
        !(next(state, event, default_port).1 is Nothing),
        rank(next(state, event, default_port).0) < rank(state),
{
}

/// No probe is left pending: one whose actions are all answered reaches
/// its end, and with it its one report, within as many events as its rank,
/// four for a fresh probe.
pub proof fn lemma_answered_probe_reports(
    state: ProbeState,
    events: Seq<ProbeEvent>,
    default_port: u16,
)
    requires
        well_driven(state, events, default_port),
        events.len() >= rank(state),
    ensures
        state_after(state, events, default_port) is Done,
        !(state is Done) ==> reports(state, events, default_port) == 1,
    decreases events.len(),
{
    lemma_one_report_one_connect(state, events, default_port);
    if events.len() > 0 && !(state is Done) {
        lemma_answer_is_taken(state, events[0], default_port);
        let after = next(state, events[0], default_port).0;
        lemma_answered_probe_reports(after, events.skip(1), default_port);
    }
}

} // verus!
