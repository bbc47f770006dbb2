use dns_monitor::address::{Address, AddressSet};
use dns_monitor::config::{choose_resolver, MonitorError, ResolverChoice};
use dns_monitor::monitor::{fully_qualified, Action, Event, Monitor, MonitorState};

fn ip(a: u32, b: u32, c: u32, d: u32) -> Address {
    Address::V4((a << 24) | (b << 16) | (c << 8) | d)
}

fn set_of(items: &[Address]) -> AddressSet {
    AddressSet::from_vec(&items.to_vec())
}

const INTERVAL: u64 = 250;

#[test]
fn monitor_stops_at_first_changed_snapshot() {
    let mut m = Monitor::new(ResolverChoice::WellKnown, INTERVAL);
    assert_eq!(m.next_action(), Action::Resolve { delay_ms: 0 });
    let baseline = set_of(&[ip(10, 0, 0, 1), ip(10, 0, 0, 2)]);
    assert_eq!(m.step(Event::Resolved(baseline)), Action::Resolve { delay_ms: INTERVAL });
    let candidates = vec![
        set_of(&[ip(10, 0, 0, 1), ip(10, 0, 0, 2)]),
        set_of(&[ip(10, 0, 0, 2), ip(10, 0, 0, 1)]),
        set_of(&[ip(10, 0, 0, 1), ip(10, 0, 0, 3)]),
    ];
    let mut stopped_at = None;
    for (i, c) in candidates.into_iter().enumerate() {
        let a = m.step(Event::Resolved(c));
        if a == Action::Finish {
            stopped_at = Some(i);
            break;
        }
        assert_eq!(a, Action::Resolve { delay_ms: INTERVAL });
    }
    assert_eq!(stopped_at, Some(2));
    assert!(m.is_finished());
    assert_eq!(m.failure(), None);
    match m.state() {
        MonitorState::Changed { baseline, diff } => {
            assert_eq!(diff.added, vec![ip(10, 0, 0, 3)]);
            assert_eq!(diff.removed, vec![ip(10, 0, 0, 2)]);
            assert_eq!(baseline.to_vec(), vec![ip(10, 0, 0, 1), ip(10, 0, 0, 2)]);
        }
        other => panic!("unexpected state {:?}", other),
    }
}

#[test]
fn empty_first_resolution_finishes_without_second_lookup() {
    let mut m = Monitor::new(ResolverChoice::WellKnown, INTERVAL);
    assert_eq!(m.step(Event::Resolved(AddressSet::new())), Action::Finish);
    assert!(matches!(m.state(), MonitorState::NothingToMonitor));
    assert!(m.is_finished());
    assert_eq!(m.failure(), None);
    assert_eq!(m.next_action(), Action::Finish);
    assert_eq!(m.step(Event::Resolved(set_of(&[ip(1, 2, 3, 4)]))), Action::Finish);
    assert!(matches!(m.state(), MonitorState::NothingToMonitor));
}

#[test]
fn well_known_resolver_never_asks_for_host_config() {
    let choice = choose_resolver(true);
    assert_eq!(choice, ResolverChoice::WellKnown);
    let mut m = Monitor::new(choice, INTERVAL);
    assert!(matches!(m.state(), MonitorState::Initializing));
    assert_ne!(m.next_action(), Action::ReadHostConfig);
    assert_ne!(m.step(Event::HostConfigUnavailable), Action::ReadHostConfig);
    assert!(matches!(m.state(), MonitorState::Initializing));
    assert_ne!(m.step(Event::Resolved(set_of(&[ip(1, 1, 1, 1)]))), Action::ReadHostConfig);
    assert_ne!(m.step(Event::ResolutionFailed), Action::ReadHostConfig);
    assert!(matches!(m.state(), MonitorState::Polling { .. }));
}

#[test]
fn host_resolver_reads_host_config_first() {
    let choice = choose_resolver(false);
    assert_eq!(choice, ResolverChoice::Host);
    let mut m = Monitor::new(choice, INTERVAL);
    assert_eq!(m.next_action(), Action::ReadHostConfig);
    assert_eq!(m.step(Event::HostConfigReady), Action::Resolve { delay_ms: 0 });
    assert!(matches!(m.state(), MonitorState::Initializing));
}

#[test]
fn unavailable_host_config_is_fatal_before_any_lookup() {
    let mut m = Monitor::new(ResolverChoice::Host, INTERVAL);
    assert_eq!(m.step(Event::HostConfigUnavailable), Action::Finish);
    assert_eq!(m.failure(), Some(MonitorError::ConfigUnavailable));
    assert!(m.is_finished());
    assert_eq!(m.step(Event::HostConfigReady), Action::Finish);
    assert_eq!(m.step(Event::Resolved(set_of(&[ip(1, 1, 1, 1)]))), Action::Finish);
    assert_eq!(m.failure(), Some(MonitorError::ConfigUnavailable));
}

#[test]
fn failed_first_lookup_is_fatal() {
    let mut m = Monitor::new(ResolverChoice::WellKnown, INTERVAL);
    assert_eq!(m.step(Event::ResolutionFailed), Action::Finish);
    assert_eq!(m.failure(), Some(MonitorError::ResolutionFailed));
}

#[test]
fn failed_lookup_while_polling_is_transient() {
    let mut m = Monitor::new(ResolverChoice::WellKnown, 5);
    let baseline = set_of(&[ip(10, 0, 0, 1)]);
    m.step(Event::Resolved(baseline));
    assert_eq!(m.step(Event::ResolutionFailed), Action::Resolve { delay_ms: 5 });
    assert_eq!(m.failure(), None);
    assert!(!m.is_finished());
    assert_eq!(m.poll_interval_ms(), 5);
}

#[test]
fn removal_alone_is_a_change() {
    let mut m = Monitor::new(ResolverChoice::WellKnown, INTERVAL);
    m.step(Event::Resolved(set_of(&[ip(10, 0, 0, 1), ip(10, 0, 0, 2)])));
    assert_eq!(m.step(Event::Resolved(set_of(&[ip(10, 0, 0, 1)]))), Action::Finish);
    match m.state() {
        MonitorState::Changed { diff, .. } => {
            assert!(diff.added.is_empty());
            assert_eq!(diff.removed, vec![ip(10, 0, 0, 2)]);
        }
        other => panic!("unexpected state {:?}", other),
    }
}

#[test]
fn domain_gets_a_trailing_dot() {
    assert_eq!(fully_qualified("example.com"), "example.com.");
    assert_eq!(fully_qualified("example.com."), "example.com.");
    assert_eq!(fully_qualified(""), ".");
}
