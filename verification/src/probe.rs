//! The course of one probe, as a machine that is told what happened and
//! answers what to do next.
//!
//! The caller owns the clock, the resolver and the socket. It starts the
//! machine, carries out each action and hands back the event that the
//! action ended in, until the machine asks for the report.

use vstd::prelude::*;
use crate::address::{choose_address, dial_address, SocketAddress};
use crate::outcome::{Elapsed, ProbeError, ProbeOutcome};

verus! {

/// Where a probe stands.
#[derive(Clone, Copy, Debug, PartialEq, Eq, Structural)]
pub enum ProbeState {
    /// Nothing has been asked for yet.
    Idle,
    /// The target is being resolved as host and port.
    Resolving,
    /// The target is being resolved as a host without a port.
    ResolvingHost,
    /// The connect attempt is under way.
    Connecting { address: SocketAddress },
    /// The outcome has been handed out.
    Done,
}

/// What the caller tells the machine.
#[derive(Clone, Debug, PartialEq, Eq)]
pub enum ProbeEvent {
    /// The probe is to begin.
    Started,
    /// The resolver gave up; `reason` holds its words.
    LookupFailed { reason: String },
    /// The resolver answered with these addresses, port 0 where the target
    /// named none.
    LookupAnswered { candidates: Vec<SocketAddress> },
    /// The connection stood after `elapsed`.
    Connected { elapsed: Elapsed },
    /// The attempt ran into the timeout; `elapsed` is the time spent.
    TimedOut { elapsed: Elapsed },
    /// The attempt failed otherwise; `reason` holds the system's words.
    ConnectFailed { reason: String },
}

/// What the machine asks of the caller.
#[derive(Clone, Debug, PartialEq, Eq)]
pub enum ProbeAction {
    /// Resolve the target as it is written, as host and port.
    Lookup,
    /// Resolve the target as a host, with port 0.
    LookupHost,
    /// Start the clock and make one connect attempt, bounded by the
    /// timeout.
    Connect { address: SocketAddress },
    /// Report the outcome; `address` is what was dialled, if the probe got
    /// that far.
    Report { address: Option<SocketAddress>, outcome: ProbeOutcome },
    /// The event does not fit the state: nothing to do.
    Nothing,
}

/// What follows once the resolver has answered.
pub open spec fn after_lookup(candidates: Seq<SocketAddress>, default_port: u16) -> (
    ProbeState,
    ProbeAction,
) {
    if candidates.len() == 0 {
        (
            ProbeState::Done,
            ProbeAction::Report {
                address: None,
                outcome: ProbeOutcome::Failure { cause: ProbeError::NoAddressFound },
            },
        )
    } else {
        let address = dial_address(candidates[0], default_port);
        (ProbeState::Connecting { address }, ProbeAction::Connect { address })
    }
}

/// The transition table: the state after `event` and the action that the
/// machine asks for.
///
/// A target is first resolved as it is written. If that fails it is
/// resolved once more as a bare host, and only the failure of this second
/// lookup fails the probe. The first address of an answer is dialled, once;
/// whatever the attempt ends in is the outcome.
pub open spec fn next(state: ProbeState, event: ProbeEvent, default_port: u16) -> (
    ProbeState,
    ProbeAction,
) {
    match (state, event) {
        (ProbeState::Idle, ProbeEvent::Started) => (ProbeState::Resolving, ProbeAction::Lookup),
        (ProbeState::Resolving, ProbeEvent::LookupFailed { reason }) => (
            ProbeState::ResolvingHost,
            ProbeAction::LookupHost,
        ),
        (ProbeState::ResolvingHost, ProbeEvent::LookupFailed { reason }) => (
            ProbeState::Done,
            ProbeAction::Report {
                address: None,
                outcome: ProbeOutcome::Failure { cause: ProbeError::ResolutionFailed { reason } },
            },
        ),
        (ProbeState::Resolving, ProbeEvent::LookupAnswered { candidates }) => after_lookup(
            candidates@,
            default_port,
        ),
        (ProbeState::ResolvingHost, ProbeEvent::LookupAnswered { candidates }) => after_lookup(
            candidates@,
            default_port,
        ),
        (ProbeState::Connecting { address }, ProbeEvent::Connected { elapsed }) => (
            ProbeState::Done,
            ProbeAction::Report {
                address: Some(address),
                outcome: ProbeOutcome::Success { elapsed },
            },
        ),
        (ProbeState::Connecting { address }, ProbeEvent::TimedOut { elapsed }) => (
            ProbeState::Done,
            ProbeAction::Report {
                address: Some(address),
                outcome: ProbeOutcome::Failure { cause: ProbeError::ConnectTimeout { elapsed } },
            },
        ),
        (ProbeState::Connecting { address }, ProbeEvent::ConnectFailed { reason }) => (
            ProbeState::Done,
            ProbeAction::Report {
                address: Some(address),
                outcome: ProbeOutcome::Failure { cause: ProbeError::ConnectFailed { reason } },
            },
        ),
        _ => (state, ProbeAction::Nothing),
    }
}

/// What the machine does once the resolver has answered.
fn answer_lookup(candidates: Vec<SocketAddress>, default_port: u16) -> (step: (
    ProbeState,
    ProbeAction,
))
    ensures
        step == after_lookup(candidates@, default_port),
{
    match choose_address(&candidates, default_port) {
        Some(address) => (ProbeState::Connecting { address }, ProbeAction::Connect { address }),
        None => (
            ProbeState::Done,
            ProbeAction::Report {
                address: None,
                outcome: ProbeOutcome::Failure { cause: ProbeError::NoAddressFound },
            },
        ),
    }
}

/// Takes the machine one event further: the new state and what to do now.
pub fn step(state: ProbeState, event: ProbeEvent, default_port: u16) -> (step: (
    ProbeState,
    ProbeAction,
))
    ensures
        step == next(state, event, default_port),
{
    match state {
        ProbeState::Idle => match event {
            ProbeEvent::Started => (ProbeState::Resolving, ProbeAction::Lookup),
            _ => (state, ProbeAction::Nothing),
        },
        ProbeState::Resolving => match event {
            ProbeEvent::LookupFailed { reason } => (
                ProbeState::ResolvingHost,
                ProbeAction::LookupHost,
            ),
            ProbeEvent::LookupAnswered { candidates } => answer_lookup(candidates, default_port),
            _ => (state, ProbeAction::Nothing),
        },
        ProbeState::ResolvingHost => match event {
            ProbeEvent::LookupFailed { reason } => (
                ProbeState::Done,
                ProbeAction::Report {
                    address: None,
                    outcome: ProbeOutcome::Failure {
                        cause: ProbeError::ResolutionFailed { reason },
                    },
                },
            ),
            ProbeEvent::LookupAnswered { candidates } => answer_lookup(candidates, default_port),
            _ => (state, ProbeAction::Nothing),
        },
        ProbeState::Connecting { address } => match event {
            ProbeEvent::Connected { elapsed } => (
                ProbeState::Done,
                ProbeAction::Report {
                    address: Some(address),
                    outcome: ProbeOutcome::Success { elapsed },
                },
            ),
            ProbeEvent::TimedOut { elapsed } => (
                ProbeState::Done,
                ProbeAction::Report {
                    address: Some(address),
                    outcome: ProbeOutcome::Failure {
                        cause: ProbeError::ConnectTimeout { elapsed },
                    },
                },
            ),
            ProbeEvent::ConnectFailed { reason } => (
                ProbeState::Done,
                ProbeAction::Report {
                    address: Some(address),
                    outcome: ProbeOutcome::Failure { cause: ProbeError::ConnectFailed { reason } },
                },
            ),
            _ => (state, ProbeAction::Nothing),
        },
        ProbeState::Done => (state, ProbeAction::Nothing),
    }
}

} // verus!
