//! The configuration of a run and what follows from it before any probe
//! starts: whether the run may start at all, how many workers it gets, and
//! the unit of work for each target.

use vstd::prelude::*;
use vstd::string::StringExecFns;
use crate::duration::{dur_from_str, parse_duration, DurationError};
use crate::text::{decimal, push_decimal};
use crate::timespan::{TimeSpan, NANOS_PER_SEC};

verus! {

/// No run gets more workers than this, whatever was asked for.
pub const MAX_WORKERS: usize = 256;

/// With more targets than this, a run without a limit earns an advisory.
pub const ADVICE_THRESHOLD: usize = 1024;

/// Test TCP connectivity to many hosts at once.
#[derive(Clone, Debug)]
pub struct ConnTestCfg {
    /// The targets, each a host with or without a port.
    pub ips: Vec<String>,
    /// The port for targets that name none.
    pub default_port: u16,
    /// How long one connect attempt may take.
    pub timeout: TimeSpan,
    /// How many probes may run at once; 0 leaves the number to the count of
    /// targets.
    pub no_threads: usize,
}

/// What one worker needs to probe one target.
#[derive(Clone, Debug)]
pub struct ProbeTask {
    pub target: String,
    pub default_port: u16,
    pub timeout: TimeSpan,
}

/// Why a run cannot start.
#[derive(Clone, Debug, PartialEq, Eq)]
pub enum ConfigError {
    /// No target was given.
    NoTargets,
    /// The timeout is no duration.
    BadTimeout(DurationError),
    /// The timeout is a duration of zero.
    ZeroTimeout,
}

impl ConfigError {
    /// The message that belongs to the error.
    pub open spec fn message_text(self) -> Seq<char> {
        match self {
            ConfigError::NoTargets => "at least one target is required"@,
            ConfigError::BadTimeout(error) => DurationError::message_text(error@),
            ConfigError::ZeroTimeout => "the timeout must be longer than zero"@,
        }
    }

    /// The error in words, for the operator.
    pub fn message(&self) -> (text: String)
        ensures
            text@ == self.message_text(),
    {
        match self {
            ConfigError::NoTargets => String::from_str("at least one target is required"),
            ConfigError::BadTimeout(error) => error.message(),
            ConfigError::ZeroTimeout => String::from_str("the timeout must be longer than zero"),
        }
    }
}

/// The workers for a run over `targets` targets with the limit `limit`: the
/// limit if there is one, else one worker per target, and never more than
/// `MAX_WORKERS`.
pub open spec fn workers_for(limit: nat, targets: nat) -> nat {
    let wanted = if limit > 0 {
        limit
    } else {
        targets
    };
    if wanted < MAX_WORKERS {
        wanted
    } else {
        MAX_WORKERS as nat
    }
}

/// Whether a run should tell its operator that no limit was set.
pub open spec fn lacks_limit(limit: nat, targets: nat) -> bool {
    limit == 0 && targets > ADVICE_THRESHOLD
}

/// The advisory for a run over `targets` targets without a limit.
pub open spec fn advice_text(targets: nat) -> Seq<char> {
    "You might consider setting no_threads to some limit with so many ["@ + decimal(targets)
        + "] IPs"@
}

impl ConnTestCfg {
    /// A configuration that a run can start from: at least one target, and
    /// a timeout that is a well-formed span longer than zero.
    pub open spec fn valid(&self) -> bool {
        &&& self.ips@.len() > 0
        &&& self.timeout.wf()
        &&& self.timeout.total_nanos() > 0
    }

    /// Whether a run can start from this configuration.
    pub fn is_valid(&self) -> (valid: bool)
        ensures
            valid == self.valid(),
    {
        self.ips.len() > 0 && self.timeout.nanos < NANOS_PER_SEC && !self.timeout.is_zero()
    }

    /// Builds the configuration from what the operator gave, with the
    /// timeout still in duration notation. Targets are checked first, then
    /// the timeout.
    pub fn new(ips: Vec<String>, default_port: u16, timeout: &str, no_threads: usize) -> (built:
        Result<ConnTestCfg, ConfigError>)
        ensures
            ips@.len() == 0 ==> built == Err::<ConnTestCfg, ConfigError>(ConfigError::NoTargets),
            ips@.len() > 0 ==> match parse_duration(timeout@) {
                Err(fault) => built matches Err(ConfigError::BadTimeout(error)) && error@ == fault,
                Ok(millis) => if millis == 0 {
                    built == Err::<ConnTestCfg, ConfigError>(ConfigError::ZeroTimeout)
                } else {
                    built == Ok::<ConnTestCfg, ConfigError>(
                        ConnTestCfg {
                            ips,
                            default_port,
                            timeout: TimeSpan::of_millis(millis as u64),
                            no_threads,
                        },
                    )
                },
            },
            built matches Ok(cfg) ==> cfg.valid(),
    {
        if ips.len() == 0 {
            return Err(ConfigError::NoTargets);
        }
        let timeout = match dur_from_str(timeout) {
            Ok(timeout) => timeout,
            Err(error) => {
                return Err(ConfigError::BadTimeout(error));
            },
        };
        if timeout.is_zero() {
            return Err(ConfigError::ZeroTimeout);
        }
        Ok(ConnTestCfg { ips, default_port, timeout, no_threads })
    }

    /// The size of the worker pool for this run. With a limit set the pool
    /// never holds more workers than the limit, and never more than
    /// `MAX_WORKERS`; a valid configuration always gets at least one.
    pub fn worker_count(&self) -> (workers: usize)
        ensures
            workers == workers_for(self.no_threads as nat, self.ips@.len()),
            workers <= MAX_WORKERS,
            self.no_threads > 0 ==> workers == if self.no_threads <= MAX_WORKERS {
                self.no_threads
            } else {
                MAX_WORKERS
            },
            self.no_threads == 0 ==> workers <= self.ips@.len(),
            self.valid() ==> workers >= 1,
    {
        let wanted = if self.no_threads > 0 {
            self.no_threads
        } else {
            self.ips.len()
        };
        if wanted < MAX_WORKERS {
            wanted
        } else {
            MAX_WORKERS
        }
    }

    /// The advisory that no limit was set, where one is due.
    pub fn limit_advice(&self) -> (advice: Option<String>)
        ensures
            advice is Some <==> lacks_limit(self.no_threads as nat, self.ips@.len()),
            advice matches Some(text) ==> text@ == advice_text(self.ips@.len()),
    {
        if self.ips.len() > ADVICE_THRESHOLD && self.no_threads == 0 {
            let mut text = String::from_str(
                "You might consider setting no_threads to some limit with so many [",
            );
            push_decimal(&mut text, self.ips.len() as u64);
            text.append("] IPs");
            Some(text)
        } else {
            None
        }
    }

    /// The units of work of the run: one for each target, in the order of
    /// the targets, each with the default port and the timeout of the run.
    pub fn tasks(&self) -> (tasks: Vec<ProbeTask>)
        ensures
            tasks@.len() == self.ips@.len(),
            forall|i: int|
                0 <= i < tasks@.len() ==> (#[trigger] tasks@[i]) == (ProbeTask {
                    target: self.ips@[i],
                    default_port: self.default_port,
                    timeout: self.timeout,
                }),
    {
        let mut tasks: Vec<ProbeTask> = Vec::new();
        let mut i: usize = 0;
        while i < self.ips.len()
            invariant
                i <= self.ips@.len(),
                tasks@.len() == i,
                forall|j: int|
                    0 <= j < i ==> (#[trigger] tasks@[j]) == (ProbeTask {
                        target: self.ips@[j],
                        default_port: self.default_port,
                        timeout: self.timeout,
                    }),
            decreases self.ips@.len() - i,
        {
            tasks.push(
                ProbeTask {
                    target: self.ips[i].clone(),
                    default_port: self.default_port,
                    timeout: self.timeout,
                },
            );
            i = i + 1;
        }
        tasks
    }
}

} // verus!
