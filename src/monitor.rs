use vstd::prelude::*;
use vstd::string::{StrSliceExecFns, StringExecFns};

use crate::address::{Address, AddressSet};
use crate::config::{MonitorError, ResolverChoice};
use crate::differ::{diff, Diff};

verus! {

/// The name with a trailing dot, so that no search path is applied to it.
pub open spec fn qualified(name: Seq<char>) -> Seq<char> {
    if name.len() > 0 && name.last() == '.' {
        name
    } else {
        name.push('.')
    }
}

/// The fully-qualified form of a domain name: a dot is appended unless one ends it.
pub fn fully_qualified(domain: &str) -> (r: String)
    ensures
        r@ == qualified(domain@),
{
    let n = domain.unicode_len();
    let mut r = domain.to_owned();
    if n > 0 && domain.get_char(n - 1) == '.' {
        r
    } else {
        proof {
            reveal_strlit(".");
        }
        r.append(".");
        assert(r@ =~= domain@.push('.'));
        r
    }
}

/// Where the monitor stands.
#[derive(Debug)]
pub enum MonitorState {
    /// Waiting for the host's resolver configuration.
    AwaitingHostConfig,
    /// Waiting for the first resolution, which sets the baseline.
    Initializing,
    /// Comparing fresh snapshots with the baseline, which never changes.
    Polling { baseline: AddressSet },
    /// A snapshot differed from the baseline: final.
    Changed { baseline: AddressSet, diff: Diff },
    /// The first resolution found no address: final, and a success.
    NothingToMonitor,
    /// A fatal error: final.
    Failed { error: MonitorError },
}

/// What the caller reports back after performing an action.
#[derive(Debug)]
pub enum Event {
    /// The host's resolver configuration was read and parsed.
    HostConfigReady,
    /// The host's resolver configuration could not be read or parsed.
    HostConfigUnavailable,
    /// A lookup answered with these addresses.
    Resolved(AddressSet),
    /// No server answered a lookup.
    ResolutionFailed,
}

/// What the monitor asks the caller to do next.
#[derive(PartialEq, Eq, Structural, Clone, Copy, Debug)]
pub enum Action {
    /// Read and parse the host's resolver configuration.
    ReadHostConfig,
    /// Look the domain up after waiting this many milliseconds.
    Resolve { delay_ms: u64 },
    /// Stop: the monitor has reached a final state.
    Finish,
}

pub open spec fn is_final(s: MonitorState) -> bool {
    s is Changed || s is NothingToMonitor || s is Failed
}

/// The action a state waits on.
pub open spec fn awaited(s: MonitorState, poll_interval_ms: u64) -> Action {
    match s {
        MonitorState::AwaitingHostConfig => Action::ReadHostConfig,
        MonitorState::Initializing => Action::Resolve { delay_ms: 0 },
        MonitorState::Polling { .. } => Action::Resolve { delay_ms: poll_interval_ms },
        _ => Action::Finish,
    }
}

/// One move of the monitor: from state `s`, on event `e`, to state `t`.
pub open spec fn steps_to(s: MonitorState, e: Event, t: MonitorState) -> bool {
    match s {
        MonitorState::AwaitingHostConfig => match e {
            Event::HostConfigReady => t is Initializing,
            Event::HostConfigUnavailable => t == (MonitorState::Failed { error: MonitorError::ConfigUnavailable }),
            _ => t == s,
        },
        MonitorState::Initializing => match e {
            Event::Resolved(found) => if found@ == Set::<Address>::empty() {
                t is NothingToMonitor
            } else {
                t == (MonitorState::Polling { baseline: found })
            },
            Event::ResolutionFailed => t == (MonitorState::Failed { error: MonitorError::ResolutionFailed }),
            _ => t == s,
        },
        MonitorState::Polling { baseline } => match e {
            Event::Resolved(found) => if found@ == baseline@ {
                t == s
            } else {
                match t {
                    MonitorState::Changed { baseline: kept, diff } => kept == baseline && diff.describes(baseline@, found@),
                    _ => false,
                }
            },
            _ => t == s,
        },
        _ => t == s,
    }
}

/// The change-detection loop for one domain, driven by its caller.
#[derive(Debug)]
pub struct Monitor {
    state: MonitorState,
    poll_interval_ms: u64,
}

impl Monitor {
    pub closed spec fn state_spec(&self) -> MonitorState {
        self.state
    }

    pub closed spec fn interval(&self) -> u64 {
        self.poll_interval_ms
    }

    pub open spec fn wf(&self) -> bool {
        match self.state_spec() {
            MonitorState::Polling { baseline } => baseline.wf() && baseline@ != Set::<Address>::empty(),
            MonitorState::Changed { baseline, diff } =>
                baseline.wf() && diff.has_change(),
            _ => true,
        }
    }

    /// A monitor about to start. Only the host resolver needs the host's
    /// configuration; the well-known one starts with the first lookup.
    pub fn new(choice: ResolverChoice, poll_interval_ms: u64) -> (r: Monitor)
        ensures
            r.wf(),
            r.interval() == poll_interval_ms,
            choice is Host ==> r.state_spec() is AwaitingHostConfig,
            choice is WellKnown ==> r.state_spec() is Initializing,
    {
        let state = match choice {
            ResolverChoice::Host => MonitorState::AwaitingHostConfig,
            ResolverChoice::WellKnown => MonitorState::Initializing,
        };
        Monitor { state, poll_interval_ms }
    }

    pub fn state(&self) -> (r: &MonitorState)
        ensures
            *r == self.state_spec(),
    {
        &self.state
    }

    pub fn poll_interval_ms(&self) -> (r: u64)
        ensures
            r == self.interval(),
    {
        self.poll_interval_ms
    }

    /// What the caller should do now.
    pub fn next_action(&self) -> (r: Action)
        ensures
            r == awaited(self.state_spec(), self.interval()),
    {
        match &self.state {
            MonitorState::AwaitingHostConfig => Action::ReadHostConfig,
            MonitorState::Initializing => Action::Resolve { delay_ms: 0 },
            MonitorState::Polling { .. } => Action::Resolve { delay_ms: self.poll_interval_ms },
            _ => Action::Finish,
        }
    }

    /// Takes the outcome of the last action, moves to the next state and says
    /// what to do next. Once a baseline is set it is never replaced; a failed
    /// lookup while polling is transient and polling goes on.
    pub fn step(&mut self, event: Event) -> (a: Action)
        requires
            old(self).wf(),
            event is Resolved ==> event->Resolved_0.wf(),
        ensures
            final(self).wf(),
            final(self).interval() == old(self).interval(),
            steps_to(old(self).state_spec(), event, final(self).state_spec()),
            a == awaited(final(self).state_spec(), final(self).interval()),
    {
        let mut st = MonitorState::NothingToMonitor;
        core::mem::swap(&mut self.state, &mut st);
        let next = match st {
            MonitorState::AwaitingHostConfig => match event {
                Event::HostConfigReady => MonitorState::Initializing,
                Event::HostConfigUnavailable => MonitorState::Failed { error: MonitorError::ConfigUnavailable },
                _ => MonitorState::AwaitingHostConfig,
            },
            MonitorState::Initializing => match event {
                Event::Resolved(found) => {
                    if found.is_empty() {
                        MonitorState::NothingToMonitor
                    } else {
                        MonitorState::Polling { baseline: found }
                    }
                },
                Event::ResolutionFailed => MonitorState::Failed { error: MonitorError::ResolutionFailed },
                _ => MonitorState::Initializing,
            },
            MonitorState::Polling { baseline } => match event {
                Event::Resolved(found) => {
                    let d = diff(&baseline, &found);
                    if d.is_change() {
                        MonitorState::Changed { baseline, diff: d }
                    } else {
                        MonitorState::Polling { baseline }
                    }
                },
                _ => MonitorState::Polling { baseline },
            },
            other => other,
        };
        self.state = next;
        self.next_action()
    }

    pub fn is_finished(&self) -> (r: bool)
        ensures
            r == is_final(self.state_spec()),
    {
        match &self.state {
            MonitorState::Changed { .. } | MonitorState::NothingToMonitor | MonitorState::Failed { .. } => true,
            _ => false,
        }
    }

    /// The error that ended the monitor, if one did.
    pub fn failure(&self) -> (r: Option<MonitorError>)
        ensures
            r == (match self.state_spec() {
                MonitorState::Failed { error } => Some(error),
                _ => None::<MonitorError>,
            }),
    {
        match &self.state {
            MonitorState::Failed { error } => Some(*error),
            _ => None,
        }
    }
}

/// With the well-known resolver the monitor starts past the host configuration,
/// and from any such state no move leads back to it: the host's configuration
/// is never asked for.
pub proof fn lemma_host_config_never_revisited(s: MonitorState, e: Event, t: MonitorState, poll_interval_ms: u64)
    requires
        !(s is AwaitingHostConfig),
        steps_to(s, e, t),
    ensures
        !(t is AwaitingHostConfig),
        awaited(t, poll_interval_ms) != Action::ReadHostConfig,
{
}

/// A host configuration that cannot be had ends the monitor with
/// `ConfigUnavailable`, and a final state never moves again: no lookup is
/// ever asked for.
pub proof fn lemma_config_failure_is_fatal(e: Event, t: MonitorState, poll_interval_ms: u64)
    requires
        e is HostConfigUnavailable,
        steps_to(MonitorState::AwaitingHostConfig, e, t),
    ensures
        t == (MonitorState::Failed { error: MonitorError::ConfigUnavailable }),
        is_final(t),
        awaited(t, poll_interval_ms) == Action::Finish,
{
}

/// A final state stays as it is, whatever is reported, and asks for nothing more.
pub proof fn lemma_final_is_stable(s: MonitorState, e: Event, t: MonitorState, poll_interval_ms: u64)
    requires
        is_final(s),
        steps_to(s, e, t),
    ensures
        t == s,
        awaited(t, poll_interval_ms) == Action::Finish,
{
}

/// An empty first resolution ends the monitor successfully before any
/// second lookup.
pub proof fn lemma_empty_first_resolution(found: AddressSet, t: MonitorState, poll_interval_ms: u64)
    requires
        found@ == Set::<Address>::empty(),
        steps_to(MonitorState::Initializing, Event::Resolved(found), t),
    ensures
        t is NothingToMonitor,
        is_final(t),
        awaited(t, poll_interval_ms) == Action::Finish,
{
}

/// Once set, the baseline is never replaced: polling keeps it, and a detected
/// change reports against it.
pub proof fn lemma_baseline_kept(baseline: AddressSet, e: Event, t: MonitorState)
    requires
        steps_to(MonitorState::Polling { baseline }, e, t),
    ensures
        t is Polling || t is Changed,
        t is Polling ==> t->Polling_baseline == baseline,
        t is Changed ==> t->Changed_baseline == baseline,
{
}

/// While polling, a snapshot equal to the baseline keeps the monitor polling,
/// and any other one stops it with exactly what was added and removed.
pub proof fn lemma_first_change_stops(baseline: AddressSet, found: AddressSet, t: MonitorState)
    requires
        steps_to(MonitorState::Polling { baseline }, Event::Resolved(found), t),
    ensures
        found@ == baseline@ ==> t == (MonitorState::Polling { baseline }),
        found@ != baseline@ ==> t is Changed && t->Changed_diff.describes(baseline@, found@),
{
}

} // verus!
