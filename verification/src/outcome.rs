//! What a probe ends in, and the line that reports it.

use vstd::prelude::*;
use vstd::string::StringExecFns;
use crate::text::{decimal, push_decimal};
use crate::timespan::TimeSpan;

verus! {

/// A measured time: the span, and the same time in seconds with three
/// decimals, in the words of whoever measured it. The text is taken as it
/// is handed in; the engine writes it into messages and never reads it.
#[derive(Clone, Debug, PartialEq, Eq)]
pub struct Elapsed {
    pub span: TimeSpan,
    pub seconds: String,
}

/// Why a probe failed.
#[derive(Clone, Debug, PartialEq, Eq)]
pub enum ProbeError {
    /// The target could not be resolved; the resolver's words are kept.
    ResolutionFailed { reason: String },
    /// The target resolved to no address at all.
    NoAddressFound,
    /// The connect attempt did not end within the timeout.
    ConnectTimeout { elapsed: Elapsed },
    /// The connect attempt failed for another reason (refused, unreachable
    /// and the like); the system's words are kept.
    ConnectFailed { reason: String },
}

/// The result of one probe.
#[derive(Clone, Debug, PartialEq, Eq)]
pub enum ProbeOutcome {
    Success { elapsed: Elapsed },
    Failure { cause: ProbeError },
}

impl ProbeError {
    /// The reason as the report gives it. Only a timeout has a text of the
    /// engine's own; the others pass on what they were given.
    pub open spec fn reason_text(&self) -> Seq<char> {
        match self {
            ProbeError::ResolutionFailed { reason } => reason@,
            ProbeError::NoAddressFound => "uh bad address not sure"@,
            ProbeError::ConnectTimeout { elapsed } => "Timeout after "@ + elapsed.seconds@
                + " seconds"@,
            ProbeError::ConnectFailed { reason } => reason@,
        }
    }

    /// The reason as the report gives it.
    pub fn reason(&self) -> (text: String)
        ensures
            text@ == self.reason_text(),
    {
        match self {
            ProbeError::ResolutionFailed { reason } => reason.clone(),
            ProbeError::NoAddressFound => String::from_str("uh bad address not sure"),
            ProbeError::ConnectTimeout { elapsed } => {
                let mut text = String::from_str("Timeout after ");
                text.append(elapsed.seconds.as_str());
                text.append(" seconds");
                text
            },
            ProbeError::ConnectFailed { reason } => reason.clone(),
        }
    }
}

impl ProbeOutcome {
    /// What the report line says after the target.
    pub open spec fn verdict_text(&self) -> Seq<char> {
        match self {
            ProbeOutcome::Success { elapsed } => "  worked in "@ + elapsed.seconds@
                + " seconds"@,
            ProbeOutcome::Failure { cause } => "  failed due to: "@ + cause.reason_text(),
        }
    }

    /// Whether the probe reached its target.
    pub fn is_success(&self) -> (yes: bool)
        ensures
            yes == (self is Success),
    {
        match self {
            ProbeOutcome::Success { .. } => true,
            ProbeOutcome::Failure { .. } => false,
        }
    }
}

/// The name a report line gives its target: the address that was dialled,
/// as the caller writes it, or, where the probe never got to dial, the
/// target as the operator wrote it, a colon and the default port.
pub open spec fn label_text(target: Seq<char>, default_port: u16, dialled: Option<Seq<char>>)
    -> Seq<char> {
    match dialled {
        Some(address) => address,
        None => target + ":"@ + decimal(default_port as nat),
    }
}

/// The line that reports the outcome of the probe of `target`: the label of
/// the target, two blanks, then `worked in <seconds> seconds` or
/// `failed due to: <reason>`.
pub fn report_line(
    target: &str,
    default_port: u16,
    dialled: Option<&str>,
    outcome: &ProbeOutcome,
) -> (line: String)
    ensures
        line@ == label_text(
            target@,
            default_port,
            match dialled {
                Some(address) => Some(address@),
                None => None,
            },
        ) + outcome.verdict_text(),
{
    let mut line = match dialled {
        Some(address) => String::from_str(address),
        None => {
            let mut label = String::from_str(target);
            label.append(":");
            push_decimal(&mut label, default_port as u64);
            assert(label@ =~= target@ + ":"@ + decimal(default_port as nat));
            label
        },
    };
    let ghost label = line@;
    match outcome {
        ProbeOutcome::Success { elapsed } => {
            line.append("  worked in ");
            line.append(elapsed.seconds.as_str());
            line.append(" seconds");
            assert(line@ =~= label + outcome.verdict_text());
        },
        ProbeOutcome::Failure { cause } => {
            line.append("  failed due to: ");
            let reason = cause.reason();
            line.append(reason.as_str());
            assert(line@ =~= label + outcome.verdict_text());
        },
    }
    line
}

} // verus!
