use bluescan::enrich::{distinct_ids, query_device, DeviceAnswers};
use bluescan::session::{Action, Event, Phase, Probe, ScanSession, StepOutcome, IDLE_POLL_MS};
use bluescan::types::{
    transport_from_flags, AddressKind, DeviceAddress, ScanError, ScanParameters, Transport,
};

fn addr(raw: u64) -> DeviceAddress {
    DeviceAddress { raw }
}

fn answers(name: &str, connected: bool) -> DeviceAnswers {
    DeviceAnswers {
        name: Some(Some(name.to_string())),
        connected: Some(connected),
        services: Some(Some(vec![7, 3, 7])),
        paired: Some(false),
        trusted: Some(true),
        address_type: Some(AddressKind::LePublic),
    }
}

fn failing() -> DeviceAnswers {
    DeviceAnswers {
        name: None,
        connected: None,
        services: None,
        paired: None,
        trusted: None,
        address_type: None,
    }
}

/// Runs a session up to its first wait for a device event.
fn started(params: ScanParameters) -> ScanSession {
    let (mut s, a) = ScanSession::begin(params);
    assert_eq!(a, Action::CheckDiscovering);
    let t = s.params.transport;
    assert_eq!(s.step(Event::Discovering(Probe::Idle), 0), Action::ApplyFilter(t));
    assert_eq!(s.step(Event::FilterApplied(StepOutcome::Succeeded), 0), Action::OpenEvents);
    let d = s.params.duration_ms;
    assert_eq!(s.step(Event::EventsOpened(StepOutcome::Succeeded), 0), Action::WaitEvent(d));
    s
}

fn finish(mut s: ScanSession, at: u64) -> Vec<u64> {
    assert_eq!(s.step(Event::Quiet, at), Action::ResetFilter);
    assert_eq!(s.step(Event::FilterReset(StepOutcome::Succeeded), at), Action::Finish);
    let r = s.into_result().unwrap();
    r.discovered_devices.iter().map(|d| d.address.raw).collect()
}

#[test]
fn one_enrichable_device_among_two() {
    let a = addr(0xA);
    let b = addr(0xB);
    let p = ScanParameters::new(Transport::Auto, vec![], false, Some(5));
    assert_eq!(p.duration_ms, 5000);
    let mut s = started(p);
    assert_eq!(s.step(Event::DeviceAdded(a), 1000), Action::QueryDevice(a));
    let ra = query_device(a, answers("Jarvis", false));
    assert_eq!(s.step(Event::Queried(ra), 1000), Action::WaitEvent(4000));
    assert_eq!(s.step(Event::DeviceAdded(b), 2000), Action::QueryDevice(b));
    let rb = query_device(b, failing());
    assert_eq!(s.step(Event::Queried(rb), 2000), Action::WaitEvent(3000));
    assert_eq!(s.step(Event::Quiet, 4999), Action::WaitEvent(1));
    assert_eq!(s.step(Event::Quiet, 5000), Action::ResetFilter);
    assert_eq!(s.step(Event::FilterReset(StepOutcome::Succeeded), 5000), Action::Finish);
    let r = s.into_result().unwrap();
    assert_eq!(r.discovered_devices.len(), 1);
    let d = &r.discovered_devices[0];
    assert_eq!(d.address, a);
    assert_eq!(d.name.as_deref(), Some("Jarvis"));
    assert!(!d.is_connected);
    assert!(d.is_trusted);
    assert!(!d.is_pairing);
    assert_eq!(d.address_type, AddressKind::LePublic);
}

#[test]
fn device_outside_allow_list_is_ignored() {
    let a = addr(0xA);
    let b = addr(0xB);
    let p = ScanParameters::new(Transport::Auto, vec![a], false, None);
    let mut s = started(p);
    assert_eq!(s.step(Event::DeviceAdded(b), 100), Action::WaitEvent(4900));
    assert_eq!(finish(s, 5000), Vec::<u64>::new());
}

#[test]
fn allow_list_admits_only_its_addresses() {
    let a = addr(0xA);
    let b = addr(0xB);
    let p = ScanParameters::new(Transport::LowEnergyOnly, vec![a], false, None);
    let mut s = started(p);
    assert_eq!(s.step(Event::DeviceAdded(b), 10), Action::WaitEvent(4990));
    assert_eq!(s.step(Event::DeviceAdded(a), 20), Action::QueryDevice(a));
    assert_eq!(s.step(Event::Queried(query_device(a, answers("x", true))), 30), Action::WaitEvent(4970));
    assert_eq!(finish(s, 6000), vec![0xA]);
}

#[test]
fn device_seen_twice_is_recorded_once() {
    let a = addr(0xA);
    let p = ScanParameters::new(Transport::Auto, vec![], false, None);
    let mut s = started(p);
    assert_eq!(s.step(Event::DeviceAdded(a), 10), Action::QueryDevice(a));
    s.step(Event::Queried(query_device(a, answers("first", false))), 10);
    assert_eq!(s.step(Event::DeviceRemoved(a), 20), Action::WaitEvent(4980));
    assert_eq!(s.step(Event::DeviceAdded(a), 30), Action::WaitEvent(4970));
    assert_eq!(s.discovered.len(), 1);
    assert_eq!(s.discovered[0].name.as_deref(), Some("first"));
    assert_eq!(finish(s, 5000), vec![0xA]);
}

#[test]
fn zero_duration_returns_empty_result() {
    let p = ScanParameters::new(Transport::Auto, vec![], false, Some(0));
    let (mut s, _) = ScanSession::begin(p);
    s.step(Event::Discovering(Probe::Idle), 0);
    s.step(Event::FilterApplied(StepOutcome::Succeeded), 0);
    assert_eq!(s.step(Event::EventsOpened(StepOutcome::Succeeded), 0), Action::ResetFilter);
    assert_eq!(s.step(Event::FilterReset(StepOutcome::Succeeded), 0), Action::Finish);
    assert_eq!(s.into_result().unwrap().discovered_devices.len(), 0);
}

#[test]
fn rejected_filter_is_reset_before_failing() {
    let p = ScanParameters::new(Transport::ClassicOnly, vec![], false, None);
    let (mut s, _) = ScanSession::begin(p);
    assert_eq!(s.step(Event::Discovering(Probe::Idle), 0), Action::ApplyFilter(Transport::ClassicOnly));
    assert_eq!(s.step(Event::FilterApplied(StepOutcome::Rejected), 0), Action::ResetFilter);
    assert_eq!(s.phase, Phase::Resetting);
    assert_eq!(
        s.step(Event::FilterReset(StepOutcome::Unavailable), 0),
        Action::Fail(ScanError::FilterRejected)
    );
    assert_eq!(s.into_result().err(), Some(ScanError::FilterRejected));
}

#[test]
fn unavailable_adapter_is_reset_before_failing() {
    let p = ScanParameters::new(Transport::Auto, vec![], false, None);
    let (mut s, _) = ScanSession::begin(p);
    assert_eq!(s.step(Event::Discovering(Probe::Unavailable), 0), Action::ResetFilter);
    assert_eq!(
        s.step(Event::FilterReset(StepOutcome::Succeeded), 0),
        Action::Fail(ScanError::AdapterUnavailable)
    );
    let p = ScanParameters::new(Transport::Auto, vec![], false, None);
    let (mut s, _) = ScanSession::begin(p);
    s.step(Event::Discovering(Probe::Idle), 0);
    s.step(Event::FilterApplied(StepOutcome::Succeeded), 0);
    assert_eq!(s.step(Event::EventsOpened(StepOutcome::Unavailable), 0), Action::ResetFilter);
    assert_eq!(
        s.step(Event::FilterReset(StepOutcome::Succeeded), 0),
        Action::Fail(ScanError::AdapterUnavailable)
    );
}

#[test]
fn failed_reset_after_scan_fails_the_scan() {
    let p = ScanParameters::new(Transport::Auto, vec![], false, None);
    let mut s = started(p);
    assert_eq!(s.step(Event::SourcesExhausted, 10), Action::ResetFilter);
    assert_eq!(
        s.step(Event::FilterReset(StepOutcome::Unavailable), 10),
        Action::Fail(ScanError::AdapterUnavailable)
    );
    assert_eq!(s.into_result().err(), Some(ScanError::AdapterUnavailable));
}

#[test]
fn busy_adapter_is_polled_until_idle() {
    let p = ScanParameters::new(Transport::Auto, vec![], false, None);
    let (mut s, _) = ScanSession::begin(p);
    assert_eq!(s.step(Event::Discovering(Probe::Busy), 0), Action::Pause(IDLE_POLL_MS));
    assert_eq!(IDLE_POLL_MS, 1000);
    assert_eq!(s.step(Event::PauseOver, 0), Action::CheckDiscovering);
    assert_eq!(s.step(Event::Discovering(Probe::Idle), 0), Action::ApplyFilter(Transport::Auto));
}

#[test]
fn events_past_the_deadline_are_not_handled() {
    let a = addr(0xA);
    let p = ScanParameters::new(Transport::Auto, vec![], false, Some(1));
    let mut s = started(p);
    assert_eq!(s.step(Event::DeviceAdded(a), 1000), Action::ResetFilter);
    assert_eq!(s.step(Event::FilterReset(StepOutcome::Succeeded), 1000), Action::Finish);
    assert_eq!(s.into_result().unwrap().discovered_devices.len(), 0);
}

#[test]
fn device_in_flight_at_deadline_is_completed() {
    let a = addr(0xA);
    let p = ScanParameters::new(Transport::Auto, vec![], false, Some(1));
    let mut s = started(p);
    assert_eq!(s.step(Event::DeviceAdded(a), 999), Action::QueryDevice(a));
    assert_eq!(s.step(Event::Queried(query_device(a, answers("late", false))), 1200), Action::ResetFilter);
    assert_eq!(s.step(Event::FilterReset(StepOutcome::Succeeded), 1200), Action::Finish);
    assert_eq!(s.into_result().unwrap().discovered_devices.len(), 1);
}

#[test]
fn tracked_device_is_subscribed_once() {
    let a = addr(0xA);
    let p = ScanParameters::new(Transport::Auto, vec![], true, None);
    let mut s = started(p);
    assert_eq!(s.step(Event::DeviceAdded(a), 10), Action::SubscribeChanges(a));
    assert_eq!(s.step(Event::Subscribed(true), 10), Action::QueryDevice(a));
    assert_eq!(s.step(Event::Queried(query_device(a, failing())), 10), Action::WaitEvent(4990));
    assert_eq!(s.step(Event::DeviceChanged(a), 20), Action::WaitEvent(4980));
    assert_eq!(s.step(Event::DeviceAdded(a), 30), Action::QueryDevice(a));
    assert_eq!(s.subscribed, vec![a]);
    assert_eq!(s.step(Event::Queried(query_device(a, answers("a", true))), 40), Action::WaitEvent(4960));
    assert_eq!(finish(s, 5000), vec![0xA]);
}

#[test]
fn failed_subscription_still_queries_the_device() {
    let a = addr(0xA);
    let p = ScanParameters::new(Transport::Auto, vec![], true, None);
    let mut s = started(p);
    assert_eq!(s.step(Event::DeviceAdded(a), 10), Action::SubscribeChanges(a));
    assert_eq!(s.step(Event::Subscribed(false), 10), Action::QueryDevice(a));
    assert!(s.subscribed.is_empty());
}

#[test]
fn session_accepts_only_the_awaited_event() {
    let p = ScanParameters::new(Transport::Auto, vec![], false, None);
    let (s, _) = ScanSession::begin(p);
    assert!(s.accepts(&Event::Discovering(Probe::Idle)));
    assert!(!s.accepts(&Event::Quiet));
    assert!(!s.accepts(&Event::FilterReset(StepOutcome::Succeeded)));
}

#[test]
fn default_and_huge_durations() {
    assert_eq!(ScanParameters::new(Transport::Auto, vec![], false, None).duration_ms, 5000);
    assert_eq!(ScanParameters::new(Transport::Auto, vec![], false, Some(u64::MAX)).duration_ms, u64::MAX);
    assert_eq!(ScanParameters::new(Transport::Auto, vec![], false, Some(7)).duration_ms, 7000);
}

#[test]
fn allow_list_membership() {
    let p = ScanParameters::new(Transport::Auto, vec![addr(1), addr(2)], false, None);
    assert!(p.is_admitted(addr(2)));
    assert!(!p.is_admitted(addr(3)));
    let q = ScanParameters::new(Transport::Auto, vec![], false, None);
    assert!(q.is_admitted(addr(3)));
}

#[test]
fn transport_switches() {
    assert_eq!(transport_from_flags(true, true), Transport::LowEnergyOnly);
    assert_eq!(transport_from_flags(false, true), Transport::ClassicOnly);
    assert_eq!(transport_from_flags(false, false), Transport::Auto);
}

#[test]
fn query_answers_make_a_record() {
    let a = addr(0x42);
    let d = query_device(a, answers("n", true)).unwrap();
    assert_eq!(d.device_id, vec![7, 3]);
    assert!(d.is_connected);
    let mut no_name = answers("n", true);
    no_name.name = Some(None);
    assert_eq!(query_device(a, no_name).unwrap().name, None);
    let mut name_failed = answers("n", true);
    name_failed.name = None;
    assert_eq!(query_device(a, name_failed).unwrap().name, None);
    let mut no_services = answers("n", true);
    no_services.services = Some(None);
    assert!(query_device(a, no_services).unwrap().device_id.is_empty());
    let mut broken = answers("n", true);
    broken.trusted = None;
    assert_eq!(query_device(a, broken).err(), Some(ScanError::DeviceQueryFailed));
}

#[test]
fn distinct_ids_keeps_first_occurrences() {
    assert_eq!(distinct_ids(&vec![5, 1, 5, 2, 1]), vec![5, 1, 2]);
    assert_eq!(distinct_ids(&vec![]), Vec::<u128>::new());
}

#[test]
fn address_octets_round_trip() {
    let o = [0x00, 0x1A, 0x7D, 0xDA, 0x71, 0x13];
    let a = DeviceAddress::from_octets(o);
    assert_eq!(a.raw, 0x001A_7DDA_7113);
    assert_eq!(a.octets(), o);
    assert_eq!(DeviceAddress { raw: 0xFFFF_FFFF_FFFF }.octets(), [0xFF; 6]);
}
