//! The decisions of one scan session, as a state machine. A driver performs
//! each action on the adapter and hands back what came of it as an event,
//! with the milliseconds elapsed since the adapter's event stream was opened.

use vstd::prelude::*;
use crate::types::{
    addresses_of, BluetoothScanResult, DeviceAddress, DeviceInfo, ScanError, ScanParameters,
    Transport,
};

verus! {

/// How long to wait before asking again whether another discovery still runs.
pub const IDLE_POLL_MS: u64 = 1000;

/// The answer to "is a discovery already running on the adapter".
#[derive(Clone, Copy, Debug, PartialEq, Eq, Structural)]
pub enum Probe {
    Idle,
    Busy,
    Unavailable,
}

/// What came of a setup or teardown operation on the adapter.
#[derive(Clone, Copy, Debug, PartialEq, Eq, Structural)]
pub enum StepOutcome {
    Succeeded,
    Rejected,
    Unavailable,
}

/// Where a session stands; each phase but the last two awaits one kind of event.
#[derive(Clone, Copy, Debug, PartialEq, Eq, Structural)]
pub enum Phase {
    CheckingIdle,
    Pausing,
    ApplyingFilter,
    OpeningEvents,
    Scanning,
    Subscribing(DeviceAddress),
    Querying(DeviceAddress),
    Resetting,
    Finished,
    Failed(ScanError),
}

/// What the driver is to do next.
#[derive(Clone, Copy, Debug, PartialEq, Eq, Structural)]
pub enum Action {
    /// Ask the adapter whether a discovery is already running.
    CheckDiscovering,
    /// Sleep this many milliseconds.
    Pause(u64),
    /// Set the adapter's discovery filter to this transport.
    ApplyFilter(Transport),
    /// Open the adapter's stream of device events.
    OpenEvents,
    /// Wait for the next device or change event, at most this many milliseconds.
    WaitEvent(u64),
    /// Open the property-change stream of this device.
    SubscribeChanges(DeviceAddress),
    /// Query this device's properties.
    QueryDevice(DeviceAddress),
    /// Set the discovery filter back to neutral.
    ResetFilter,
    /// The scan is over: take its result.
    Finish,
    /// The scan failed with this error.
    Fail(ScanError),
}

/// What the driver observed after an action.
#[derive(Debug)]
pub enum Event {
    Discovering(Probe),
    PauseOver,
    FilterApplied(StepOutcome),
    EventsOpened(StepOutcome),
    DeviceAdded(DeviceAddress),
    DeviceRemoved(DeviceAddress),
    DeviceChanged(DeviceAddress),
    /// The wait ended without a device event: its time ran out, or the
    /// adapter reported something that concerns no device.
    Quiet,
    /// The device stream and every change stream have ended.
    SourcesExhausted,
    Subscribed(bool),
    Queried(Result<DeviceInfo, ScanError>),
    FilterReset(StepOutcome),
}

/// The error a failed setup operation stands for.
pub open spec fn setup_error(o: StepOutcome) -> ScanError {
    if o == StepOutcome::Rejected {
        ScanError::FilterRejected
    } else {
        ScanError::AdapterUnavailable
    }
}

/// The error of a failed setup operation.
fn failed_setup(o: StepOutcome) -> (r: ScanError)
    ensures
        r == setup_error(o),
{
    if o == StepOutcome::Rejected {
        ScanError::FilterRejected
    } else {
        ScanError::AdapterUnavailable
    }
}

/// Where a session goes once a device has been handled or the stream opened:
/// on to the next event while time remains, else to teardown.
pub open spec fn resume(params: ScanParameters, elapsed_ms: u64) -> (Phase, Action) {
    if elapsed_ms >= params.duration_ms {
        (Phase::Resetting, Action::ResetFilter)
    } else {
        (Phase::Scanning, Action::WaitEvent((params.duration_ms - elapsed_ms) as u64))
    }
}

/// The state of one scan session.
pub struct ScanSession {
    pub params: ScanParameters,
    pub phase: Phase,
    /// Records of the devices observed so far, in order of first observation.
    pub discovered: Vec<DeviceInfo>,
    /// Devices whose change stream is open, each once.
    pub subscribed: Vec<DeviceAddress>,
    /// The setup error to report once the filter has been reset.
    pub pending: Option<ScanError>,
}

impl ScanSession {
    /// Whether a device with this address has been recorded.
    pub open spec fn recorded(&self, a: DeviceAddress) -> bool {
        addresses_of(self.discovered@).contains(a)
    }

    /// The invariant of a session.
    pub open spec fn wf(&self) -> bool {
        &&& addresses_of(self.discovered@).no_duplicates()
        &&& forall|i: int| 0 <= i < self.discovered@.len() ==> #[trigger] self.params.admits(
            self.discovered@[i].address,
        )
        &&& self.params.duration_ms == 0 ==> self.discovered@.len() == 0
        &&& self.subscribed@.no_duplicates()
        &&& self.phase matches Phase::Subscribing(a) ==> {
            &&& self.params.admits(a)
            &&& !self.recorded(a)
            &&& !self.subscribed@.contains(a)
            &&& self.params.duration_ms > 0
        }
        &&& self.phase matches Phase::Querying(a) ==> {
            &&& self.params.admits(a)
            &&& !self.recorded(a)
            &&& self.params.duration_ms > 0
        }
        &&& self.pending is Some ==> self.phase == Phase::Resetting
    }

    /// Whether the session awaits this kind of event.
    pub open spec fn expects(&self, e: Event) -> bool {
        match self.phase {
            Phase::CheckingIdle => e is Discovering,
            Phase::Pausing => e is PauseOver,
            Phase::ApplyingFilter => e is FilterApplied,
            Phase::OpeningEvents => e is EventsOpened,
            Phase::Scanning => {
                ||| e is DeviceAdded
                ||| e is DeviceRemoved
                ||| e is DeviceChanged
                ||| e is Quiet
                ||| e is SourcesExhausted
            },
            Phase::Subscribing(_) => e is Subscribed,
            Phase::Querying(_) => e is Queried,
            Phase::Resetting => e is FilterReset,
            Phase::Finished => false,
            Phase::Failed(_) => false,
        }
    }

    /// Whether the session has ended, one way or the other.
    pub open spec fn ended(&self) -> bool {
        self.phase is Finished || self.phase is Failed
    }

    /// A new session and its first action: ask whether a discovery runs.
    pub fn begin(params: ScanParameters) -> (r: (ScanSession, Action))
        ensures
            r.0.wf(),
            r.0.params == params,
            r.0.phase == Phase::CheckingIdle,
            r.0.discovered@.len() == 0,
            r.0.subscribed@.len() == 0,
            r.0.pending is None,
            r.1 == Action::CheckDiscovering,
    {
        let s = ScanSession {
            params,
            phase: Phase::CheckingIdle,
            discovered: Vec::new(),
            subscribed: Vec::new(),
            pending: None,
        };
        proof {
            assert(addresses_of(s.discovered@) =~= Seq::<DeviceAddress>::empty());
        }
        (s, Action::CheckDiscovering)
    }

    /// Whether the session awaits this kind of event.
    pub fn accepts(&self, e: &Event) -> (r: bool)
        ensures
            r == self.expects(*e),
    {
        match (self.phase, e) {
            (Phase::CheckingIdle, Event::Discovering(_)) => true,
            (Phase::Pausing, Event::PauseOver) => true,
            (Phase::ApplyingFilter, Event::FilterApplied(_)) => true,
            (Phase::OpeningEvents, Event::EventsOpened(_)) => true,
            (Phase::Scanning, Event::DeviceAdded(_)) => true,
            (Phase::Scanning, Event::DeviceRemoved(_)) => true,
            (Phase::Scanning, Event::DeviceChanged(_)) => true,
            (Phase::Scanning, Event::Quiet) => true,
            (Phase::Scanning, Event::SourcesExhausted) => true,
            (Phase::Subscribing(_), Event::Subscribed(_)) => true,
            (Phase::Querying(_), Event::Queried(_)) => true,
            (Phase::Resetting, Event::FilterReset(_)) => true,
            _ => false,
        }
    }

    /// The phase and action that follow the end of a device's handling, or the
    /// opening of the event stream, at `elapsed_ms`.
    fn resume_at(&mut self, elapsed_ms: u64) -> (act: Action)
        requires
            old(self).pending is None,
        ensures
            (final(self).phase, act) == resume(old(self).params, elapsed_ms),
            final(self).params == old(self).params,
            final(self).discovered@ == old(self).discovered@,
            final(self).subscribed@ == old(self).subscribed@,
            final(self).pending is None,
    {
        if elapsed_ms >= self.params.duration_ms {
            self.phase = Phase::Resetting;
            Action::ResetFilter
        } else {
            self.phase = Phase::Scanning;
            Action::WaitEvent(self.params.duration_ms - elapsed_ms)
        }
    }

    /// Begins teardown because a setup operation failed with `e`.
    fn abort_with(&mut self, e: ScanError) -> (act: Action)
        ensures
            final(self).phase == Phase::Resetting,
            final(self).pending == Some(e),
            act == Action::ResetFilter,
            final(self).params == old(self).params,
            final(self).discovered@ == old(self).discovered@,
            final(self).subscribed@ == old(self).subscribed@,
    {
        self.phase = Phase::Resetting;
        self.pending = Some(e);
        Action::ResetFilter
    }

    /// Takes in what the driver observed `elapsed_ms` milliseconds after the
    /// device stream was opened, and says what to do next.
    pub fn step(&mut self, e: Event, elapsed_ms: u64) -> (act: Action)
        requires
            old(self).wf(),
            old(self).expects(e),
        ensures
            final(self).wf(),
            final(self).params == old(self).params,
            // Waiting for another discovery to end.
            old(self).phase == Phase::CheckingIdle ==> {
                &&& e == Event::Discovering(Probe::Idle) ==> final(self).phase
                    == Phase::ApplyingFilter && act == Action::ApplyFilter(old(self).params.transport)
                &&& e == Event::Discovering(Probe::Busy) ==> final(self).phase == Phase::Pausing
                    && act == Action::Pause(IDLE_POLL_MS)
                &&& e == Event::Discovering(Probe::Unavailable) ==> final(self).phase
                    == Phase::Resetting && final(self).pending == Some(ScanError::AdapterUnavailable)
                    && act == Action::ResetFilter
            },
            old(self).phase == Phase::Pausing ==> final(self).phase == Phase::CheckingIdle && act
                == Action::CheckDiscovering,
            // Setting up.
            old(self).phase == Phase::ApplyingFilter ==> (e matches Event::FilterApplied(o) && {
                &&& o == StepOutcome::Succeeded ==> final(self).phase == Phase::OpeningEvents && act
                    == Action::OpenEvents
                &&& o != StepOutcome::Succeeded ==> final(self).phase == Phase::Resetting
                    && final(self).pending == Some(setup_error(o)) && act == Action::ResetFilter
            }),
            old(self).phase == Phase::OpeningEvents ==> (e matches Event::EventsOpened(o) && {
                &&& o == StepOutcome::Succeeded ==> (final(self).phase, act) == resume(
                    old(self).params,
                    elapsed_ms,
                ) && final(self).pending is None
                &&& o != StepOutcome::Succeeded ==> final(self).phase == Phase::Resetting
                    && final(self).pending == Some(setup_error(o)) && act == Action::ResetFilter
            }),
            // Scanning: past the deadline no event is handled.
            old(self).phase == Phase::Scanning && elapsed_ms >= old(self).params.duration_ms ==> {
                &&& final(self).phase == Phase::Resetting
                &&& act == Action::ResetFilter
            },
            old(self).phase == Phase::Scanning && elapsed_ms < old(self).params.duration_ms ==> {
                &&& e is SourcesExhausted ==> final(self).phase == Phase::Resetting && act
                    == Action::ResetFilter
                &&& e matches Event::DeviceAdded(a) ==> {
                    &&& (!old(self).params.admits(a) || old(self).recorded(a)) ==> final(self).phase
                        == Phase::Scanning && act == Action::WaitEvent(
                        (old(self).params.duration_ms - elapsed_ms) as u64,
                    )
                    &&& (old(self).params.admits(a) && !old(self).recorded(a)
                        && old(self).params.track_changes && !old(self).subscribed@.contains(a))
                        ==> final(self).phase == Phase::Subscribing(a) && act
                        == Action::SubscribeChanges(a)
                    &&& (old(self).params.admits(a) && !old(self).recorded(a) && !(
                    old(self).params.track_changes && !old(self).subscribed@.contains(a)))
                        ==> final(self).phase == Phase::Querying(a) && act == Action::QueryDevice(a)
                }
                &&& (e is DeviceRemoved || e is DeviceChanged || e is Quiet) ==> final(self).phase
                    == Phase::Scanning && act == Action::WaitEvent(
                    (old(self).params.duration_ms - elapsed_ms) as u64,
                )
            },
            // A change stream, then the device's record.
            old(self).phase matches Phase::Subscribing(a) ==> (e matches Event::Subscribed(ok) && {
                &&& ok ==> final(self).subscribed@ == old(self).subscribed@.push(a)
                &&& !ok ==> final(self).subscribed@ == old(self).subscribed@
                &&& final(self).phase == Phase::Querying(a)
                &&& act == Action::QueryDevice(a)
            }),
            !(old(self).phase is Subscribing) ==> final(self).subscribed@ == old(self).subscribed@,
            old(self).phase matches Phase::Querying(a) ==> (e matches Event::Queried(q) && {
                &&& q matches Ok(d) ==> final(self).discovered@ == old(self).discovered@.push(
                    DeviceInfo { address: a, ..d },
                )
                &&& q is Err ==> final(self).discovered@ == old(self).discovered@
                &&& (final(self).phase, act) == resume(old(self).params, elapsed_ms)
            }),
            !(old(self).phase is Querying) ==> final(self).discovered@ == old(self).discovered@,
            // Teardown.
            old(self).phase == Phase::Resetting ==> (e matches Event::FilterReset(o) && {
                &&& old(self).pending matches Some(err) ==> final(self).phase == Phase::Failed(err)
                    && act == Action::Fail(err)
                &&& old(self).pending is None && o == StepOutcome::Succeeded ==> final(self).phase
                    == Phase::Finished && act == Action::Finish
                &&& old(self).pending is None && o != StepOutcome::Succeeded ==> final(self).phase
                    == Phase::Failed(ScanError::AdapterUnavailable) && act == Action::Fail(
                    ScanError::AdapterUnavailable,
                )
            }),
            // A session ends only once the filter has been reset, and each way
            // into teardown asks for that reset.
            final(self).ended() ==> old(self).phase == Phase::Resetting,
            final(self).phase == Phase::Resetting && old(self).phase != Phase::Resetting ==> act
                == Action::ResetFilter,
            // The scan stops before its deadline only when every source has ended.
            old(self).phase == Phase::Scanning && final(self).phase == Phase::Resetting ==> (
            elapsed_ms >= old(self).params.duration_ms || e is SourcesExhausted),
            act matches Action::WaitEvent(budget) ==> elapsed_ms < old(self).params.duration_ms
                && budget == old(self).params.duration_ms - elapsed_ms,
            // Only admitted, unrecorded devices are ever queried or subscribed to.
            act matches Action::QueryDevice(a) ==> old(self).params.admits(a) && !old(
                self,
            ).recorded(a),
            act matches Action::SubscribeChanges(a) ==> old(self).params.admits(a) && !old(
                self,
            ).recorded(a),
            // A setup error is kept until it is reported.
            old(self).phase == Phase::Scanning || old(self).phase is Subscribing || old(
                self,
            ).phase is Querying ==> final(self).pending is None,
            old(self).phase == Phase::Resetting ==> final(self).pending is None,
    {
        match e {
            Event::Discovering(p) => match p {
                Probe::Idle => {
                    self.phase = Phase::ApplyingFilter;
                    Action::ApplyFilter(self.params.transport)
                },
                Probe::Busy => {
                    self.phase = Phase::Pausing;
                    Action::Pause(IDLE_POLL_MS)
                },
                Probe::Unavailable => self.abort_with(ScanError::AdapterUnavailable),
            },
            Event::PauseOver => {
                self.phase = Phase::CheckingIdle;
                Action::CheckDiscovering
            },
            Event::FilterApplied(o) => {
                if o == StepOutcome::Succeeded {
                    self.phase = Phase::OpeningEvents;
                    Action::OpenEvents
                } else {
                    self.abort_with(failed_setup(o))
                }
            },
            Event::EventsOpened(o) => {
                if o == StepOutcome::Succeeded {
                    self.resume_at(elapsed_ms)
                } else {
                    self.abort_with(failed_setup(o))
                }
            },
            Event::Subscribed(ok) => {
                let a = match self.phase {
                    Phase::Subscribing(a) => a,
                    _ => {
                        proof {
                            assert(false);
                        }
                        return Action::ResetFilter;
                    },
                };
                if ok {
                    self.subscribed.push(a);
                    proof {
                        assert forall|p: int, q: int|
                            0 <= p < q < self.subscribed@.len() implies self.subscribed@[p]
                            != self.subscribed@[q] by {
                            if q == self.subscribed@.len() - 1 {
                                assert(old(self).subscribed@.contains(self.subscribed@[p]));
                            }
                        }
                    }
                }
                self.phase = Phase::Querying(a);
                Action::QueryDevice(a)
            },
            Event::Queried(q) => {
                let a = match self.phase {
                    Phase::Querying(a) => a,
                    _ => {
                        proof {
                            assert(false);
                        }
                        return Action::ResetFilter;
                    },
                };
                match q {
                    Ok(d) => {
                        let rec = DeviceInfo { address: a, ..d };
                        self.discovered.push(rec);
                        proof {
                            self.lemma_pushed_record(old(self).discovered@, rec);
                        }
                    },
                    Err(_) => {},
                }
                self.resume_at(elapsed_ms)
            },
            Event::FilterReset(o) => {
                match self.pending {
                    Some(err) => {
                        self.phase = Phase::Failed(err);
                        self.pending = None;
                        Action::Fail(err)
                    },
                    None => {
                        if o == StepOutcome::Succeeded {
                            self.phase = Phase::Finished;
                            Action::Finish
                        } else {
                            self.phase = Phase::Failed(ScanError::AdapterUnavailable);
                            Action::Fail(ScanError::AdapterUnavailable)
                        }
                    },
                }
            },
            scanning => {
                if elapsed_ms >= self.params.duration_ms {
                    self.phase = Phase::Resetting;
                    return Action::ResetFilter;
                }
                let budget = self.params.duration_ms - elapsed_ms;
                match scanning {
                    Event::SourcesExhausted => {
                        self.phase = Phase::Resetting;
                        Action::ResetFilter
                    },
                    Event::DeviceAdded(a) => {
                        if !self.params.is_admitted(a) || self.is_recorded(a) {
                            Action::WaitEvent(budget)
                        } else if self.params.track_changes && !self.is_subscribed(a) {
                            self.phase = Phase::Subscribing(a);
                            Action::SubscribeChanges(a)
                        } else {
                            self.phase = Phase::Querying(a);
                            Action::QueryDevice(a)
                        }
                    },
                    _ => Action::WaitEvent(budget),
                }
            },
        }
    }

    /// Appending a record of an admitted, unrecorded address keeps the
    /// invariant's parts on records.
    proof fn lemma_pushed_record(&self, before: Seq<DeviceInfo>, rec: DeviceInfo)
        requires
            self.discovered@ == before.push(rec),
            addresses_of(before).no_duplicates(),
            !addresses_of(before).contains(rec.address),
        ensures
            addresses_of(self.discovered@).no_duplicates(),
            addresses_of(self.discovered@) == addresses_of(before).push(rec.address),
    {
        assert(addresses_of(self.discovered@) =~= addresses_of(before).push(rec.address));
        let s = addresses_of(self.discovered@);
        assert forall|p: int, q: int| 0 <= p < q < s.len() implies s[p] != s[q] by {
            if q == s.len() - 1 {
                assert(addresses_of(before)[p] == s[p]);
            }
        }
    }

    /// Whether a device with this address has been recorded.
    pub fn is_recorded(&self, a: DeviceAddress) -> (r: bool)
        ensures
            r == self.recorded(a),
    {
        let mut i: usize = 0;
        while i < self.discovered.len()
            invariant
                0 <= i <= self.discovered@.len(),
                forall|j: int| 0 <= j < i ==> self.discovered@[j].address != a,
            decreases self.discovered@.len() - i,
        {
            if self.discovered[i].address == a {
                proof {
                    assert(addresses_of(self.discovered@)[i as int] == a);
                }
                return true;
            }
            i = i + 1;
        }
        proof {
            if self.recorded(a) {
                let k = choose|k: int|
                    0 <= k < addresses_of(self.discovered@).len() && addresses_of(
                        self.discovered@,
                    )[k] == a;
                assert(self.discovered@[k].address == a);
            }
        }
        false
    }

    /// Whether the change stream of this device is open.
    pub fn is_subscribed(&self, a: DeviceAddress) -> (r: bool)
        ensures
            r == self.subscribed@.contains(a),
    {
        let mut i: usize = 0;
        while i < self.subscribed.len()
            invariant
                0 <= i <= self.subscribed@.len(),
                forall|j: int| 0 <= j < i ==> self.subscribed@[j] != a,
            decreases self.subscribed@.len() - i,
        {
            if self.subscribed[i] == a {
                return true;
            }
            i = i + 1;
        }
        false
    }
    /// What an ended session hands its caller: every record on success, the
    /// error alone on failure.
    pub fn into_result(self) -> (r: Result<BluetoothScanResult, ScanError>)
        requires
            self.wf(),
            self.ended(),
        ensures
            self.phase == Phase::Finished ==> (r matches Ok(res) && res.discovered_devices@
                == self.discovered@),
            self.phase matches Phase::Failed(err) ==> r == Err::<BluetoothScanResult, ScanError>(
                err,
            ),
            r matches Ok(res) ==> {
                &&& addresses_of(res.discovered_devices@).no_duplicates()
                &&& forall|i: int|
                    0 <= i < res.discovered_devices@.len() ==> #[trigger] self.params.admits(
                        res.discovered_devices@[i].address,
                    )
                &&& self.params.duration_ms == 0 ==> res.discovered_devices@.len() == 0
            },
    {
        match self.phase {
            Phase::Failed(err) => Err(err),
            _ => Ok(BluetoothScanResult { discovered_devices: self.discovered }),
        }
    }
}

/// A scan of zero length records no device and never queries one: from the
/// opening of the stream on, every step leads straight to teardown.
pub proof fn lemma_zero_duration_scan_is_empty(s: ScanSession, elapsed_ms: u64)
    requires
        s.wf(),
        s.params.duration_ms == 0,
    ensures
        s.discovered@.len() == 0,
        !(s.phase is Querying),
        !(s.phase is Subscribing),
        resume(s.params, elapsed_ms) == (Phase::Resetting, Action::ResetFilter),
{
}

/// Every record a session holds has an admitted address, and no address is
/// recorded twice.
pub proof fn lemma_records_admitted_and_distinct(s: ScanSession)
    requires
        s.wf(),
    ensures
        forall|i: int|
            0 <= i < s.discovered@.len() ==> #[trigger] s.params.admits(s.discovered@[i].address),
        forall|i: int, j: int|
            0 <= i < j < s.discovered@.len() ==> s.discovered@[i].address
                != s.discovered@[j].address,
{
    assert forall|i: int, j: int| 0 <= i < j < s.discovered@.len() implies s.discovered@[i].address
        != s.discovered@[j].address by {
        assert(addresses_of(s.discovered@)[i] == s.discovered@[i].address);
        assert(addresses_of(s.discovered@)[j] == s.discovered@[j].address);
    }
}

} // verus!
