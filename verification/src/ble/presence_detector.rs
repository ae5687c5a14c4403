//! The orchestrator: what happens to each command, and what is to be done about it.
//!
//! The orchestrator owns one detector and one classifier. It is driven from
//! outside: whoever runs the command loop hands it each command together with
//! the time, and carries out the reaction it gets back. Readings that arrive
//! sooner after the last accepted one than the debounce interval are dropped,
//! not queued.

use vstd::prelude::*;
use vstd::string::StringExecFns;
use crate::ble::detection::Detector;
use crate::ble::device_table::{distinct_ids, table_of, DeviceTable};
use crate::ble::processor::{classify, Processor};
use crate::ble::ring_buffer::{latest, pushed};
use crate::ble::service::{fingerprint_of, get_device_fingerprint};
use crate::dto::detection::{AlgoConfig, DetectionEvent, DeviceState};
use crate::errors::AppError;

verus! {

/// A command to the orchestrator.
#[derive(Debug)]
pub enum ProcessorMsg {
    /// A reading of the signal strength of one device.
    Sample { device_id: String, rssi: i16 },
    /// A request for what is known of each device.
    GetStatus,
    /// The request to stop.
    Shutdown,
}

/// Where the orchestrator is in its life.
#[derive(Debug, Clone, Copy, PartialEq, Eq, Structural)]
pub enum Phase {
    /// Commands are taken.
    Running,
    /// A shutdown was asked for; the command loop is about to end.
    ShuttingDown,
    /// The command loop has ended. Nothing follows.
    Stopped,
}

/// What is to be done after a command.
#[derive(Debug)]
pub enum Reaction {
    /// Nothing: the command was dropped.
    Ignored,
    /// The reading was accepted. `window`, if there is one, is the fresh
    /// window to be sent on; `event` is the classifier's word on it.
    Sampled { window: Option<Vec<i16>>, event: Option<DetectionEvent<i16>> },
    /// The status request is to be answered with this listing, in which every
    /// device occurs once.
    Status(Vec<(String, DeviceState<i16>)>),
    /// The command loop is to end.
    Stop,
}

/// The orchestrator as the contracts see it.
pub struct PipelineState {
    pub phase: Phase,
    /// The readings in the detector's window, oldest first.
    pub window: Seq<i16>,
    /// When the last reading was accepted, or when the orchestrator was made.
    pub last_sample_at: u64,
    /// The last accepted reading of each device.
    pub devices: Map<Seq<char>, DeviceState<i16>>,
}

/// The time from `last` to `now`; none if the clock reads earlier than before.
pub open spec fn elapsed(last: u64, now: u64) -> int {
    if now >= last {
        now - last
    } else {
        0
    }
}

/// Whether a reading that arrives at `now` passes the debounce gate.
pub open spec fn accepts(config: AlgoConfig, state: PipelineState, now: u64) -> bool {
    state.phase is Running && elapsed(state.last_sample_at, now) >= config.debounce_ms
}

/// The state after `msg` has been handled at `now`.
///
/// An accepted reading enters the window, becomes the last one of its device
/// and restarts the debounce interval. A shutdown ends the running phase.
/// Nothing else changes anything.
pub open spec fn next_state(
    config: AlgoConfig,
    state: PipelineState,
    msg: ProcessorMsg,
    now: u64,
) -> PipelineState {
    match msg {
        ProcessorMsg::Sample { device_id, rssi } => {
            if accepts(config, state, now) {
                PipelineState {
                    phase: state.phase,
                    window: pushed(state.window, config.window_size as nat, rssi),
                    last_sample_at: now,
                    devices: state.devices.insert(
                        device_id@,
                        DeviceState { last_value: rssi, last_seen: now },
                    ),
                }
            } else {
                state
            }
        },
        ProcessorMsg::GetStatus => state,
        ProcessorMsg::Shutdown => {
            if state.phase is Running {
                PipelineState { phase: Phase::ShuttingDown, ..state }
            } else {
                state
            }
        },
    }
}

/// Whether `reaction` is what handling `msg` at `now` in the state `before`
/// asks for.
pub open spec fn reaction_fits(
    config: AlgoConfig,
    before: PipelineState,
    msg: ProcessorMsg,
    now: u64,
    reaction: Reaction,
) -> bool {
    match msg {
        ProcessorMsg::Sample { device_id, rssi } => {
            if accepts(config, before, now) {
                let fresh = pushed(before.window, config.window_size as nat, rssi);
                &&& reaction matches Reaction::Sampled { window, event }
                &&& window is Some <==> fresh.len() == config.window_size
                &&& window matches Some(w) ==> w@ == fresh
                &&& event == if fresh.len() == config.window_size {
                    classify::<i16>(config.threshold as int, config.stability_window as nat, fresh)
                } else {
                    None
                }
            } else {
                reaction is Ignored
            }
        },
        ProcessorMsg::GetStatus => {
            if before.phase is Running {
                &&& reaction matches Reaction::Status(listing)
                &&& distinct_ids(listing@)
                &&& table_of(listing@) == before.devices
            } else {
                reaction is Ignored
            }
        },
        ProcessorMsg::Shutdown => reaction is Stop,
    }
}

/// The command that a device update gives rise to: a reading, if the update
/// carries both a signal strength and a name and the name's fingerprint is
/// `target`; nothing otherwise.
pub open spec fn update_command(
    rssi: Option<i16>,
    local_name: Option<String>,
    target: Seq<char>,
) -> Option<ProcessorMsg> {
    match (rssi, local_name) {
        (Some(r), Some(name)) => {
            if fingerprint_of(name@) == target {
                Some(ProcessorMsg::Sample { device_id: name, rssi: r })
            } else {
                None
            }
        },
        _ => None,
    }
}

/// Debounce: of two readings that arrive closer together than the debounce
/// interval, at most one is accepted.
pub proof fn lemma_debounce_at_most_one(
    config: AlgoConfig,
    state: PipelineState,
    first: ProcessorMsg,
    first_at: u64,
    second_at: u64,
)
    requires
        first is Sample,
        first_at <= second_at,
        second_at - first_at < config.debounce_ms,
    ensures
        !(accepts(config, state, first_at) && accepts(
            config,
            next_state(config, state, first, first_at),
            second_at,
        )),
{
}

/// Debounce: of two readings that arrive closer together than the debounce
/// interval, exactly one is accepted, provided the orchestrator is running and
/// the interval since the last accepted reading is over when the second
/// arrives.
pub proof fn lemma_debounce_exactly_one(
    config: AlgoConfig,
    state: PipelineState,
    first: ProcessorMsg,
    first_at: u64,
    second_at: u64,
)
    requires
        first is Sample,
        state.phase is Running,
        first_at <= second_at,
        second_at - first_at < config.debounce_ms,
        second_at - state.last_sample_at >= config.debounce_ms,
    ensures
        accepts(config, state, first_at) != accepts(
            config,
            next_state(config, state, first, first_at),
            second_at,
        ),
{
}

/// After a shutdown nothing is processed: once the running phase is over, no
/// command changes the state, and no reading is accepted.
pub proof fn lemma_nothing_after_shutdown(
    config: AlgoConfig,
    state: PipelineState,
    msg: ProcessorMsg,
    now: u64,
)
    requires
        !(state.phase is Running),
    ensures
        next_state(config, state, msg, now) == state,
        !accepts(config, state, now),
        next_state(config, next_state(config, state, ProcessorMsg::Shutdown, now), msg, now)
            == next_state(config, state, ProcessorMsg::Shutdown, now),
{
}

/// With a valid configuration every fresh window is classified: an accepted
/// reading that fills the window is answered with the window and an event.
pub proof fn lemma_fresh_window_gets_verdict(
    config: AlgoConfig,
    before: PipelineState,
    msg: ProcessorMsg,
    now: u64,
    reaction: Reaction,
)
    requires
        config.is_valid(),
        reaction_fits(config, before, msg, now, reaction),
        reaction matches Reaction::Sampled { window, .. } && window is Some,
    ensures
        reaction matches Reaction::Sampled { event, .. } && event is Some,
{
}

/// The state after a run of commands has been handled, each at its own time.
pub open spec fn after_all(
    config: AlgoConfig,
    state: PipelineState,
    arrivals: Seq<(ProcessorMsg, u64)>,
) -> PipelineState
    decreases arrivals.len(),
{
    if arrivals.len() == 0 {
        state
    } else {
        next_state(
            config,
            after_all(config, state, arrivals.drop_last()),
            arrivals.last().0,
            arrivals.last().1,
        )
    }
}

/// The readings of a run of commands that pass the debounce gate, in the
/// order in which they arrive.
pub open spec fn accepted_readings(
    config: AlgoConfig,
    state: PipelineState,
    arrivals: Seq<(ProcessorMsg, u64)>,
) -> Seq<i16>
    decreases arrivals.len(),
{
    if arrivals.len() == 0 {
        Seq::empty()
    } else {
        let earlier = accepted_readings(config, state, arrivals.drop_last());
        let before = after_all(config, state, arrivals.drop_last());
        match arrivals.last().0 {
            ProcessorMsg::Sample { device_id, rssi } => {
                if accepts(config, before, arrivals.last().1) {
                    earlier.push(rssi)
                } else {
                    earlier
                }
            },
            _ => earlier,
        }
    }
}

/// Order is preserved: whatever commands arrive, the window holds the latest
/// accepted readings in the order of their arrival, after what it held before.
/// No dropped reading enters it and no accepted reading enters it twice.
pub proof fn lemma_window_keeps_arrival_order(
    config: AlgoConfig,
    state: PipelineState,
    arrivals: Seq<(ProcessorMsg, u64)>,
)
    requires
        config.window_size > 0,
        state.window.len() <= config.window_size,
    ensures
        after_all(config, state, arrivals).window == latest(
            state.window + accepted_readings(config, state, arrivals),
            config.window_size as nat,
        ),
    decreases arrivals.len(),
{
    if arrivals.len() == 0 {
        assert(state.window + Seq::<i16>::empty() =~= state.window);
    } else {
        let earlier = arrivals.drop_last();
        lemma_window_keeps_arrival_order(config, state, earlier);
        let before = after_all(config, state, earlier);
        let history = state.window + accepted_readings(config, state, earlier);
        match arrivals.last().0 {
            ProcessorMsg::Sample { device_id, rssi } => {
                if accepts(config, before, arrivals.last().1) {
                    let size = config.window_size as nat;
                    assert(state.window + accepted_readings(config, state, earlier).push(rssi)
                        =~= history.push(rssi));
                    assert(pushed(latest(history, size), size, rssi) =~= latest(
                        history.push(rssi),
                        size,
                    ));
                }
            },
            _ => {},
        }
    }
}

/// Between any two readings that are accepted one after the other, at least
/// the debounce interval passes, as long as the clock does not read earlier
/// than before.
pub proof fn lemma_accepted_readings_are_spaced(
    config: AlgoConfig,
    state: PipelineState,
    msg: ProcessorMsg,
    now: u64,
)
    requires
        msg is Sample,
        accepts(config, state, now),
        now >= state.last_sample_at,
    ensures
        next_state(config, state, msg, now).last_sample_at - state.last_sample_at
            >= config.debounce_ms,
{
}

/// The state of the pipeline for one tracked device, and the rules by which
/// commands change it.
pub struct PresenceDetector {
    config: AlgoConfig,
    detector: Detector<i16>,
    processor: Processor<i16>,
    devices: DeviceTable<i16>,
    last_sample_at: u64,
    phase: Phase,
}

impl View for PresenceDetector {
    type V = PipelineState;

    closed spec fn view(&self) -> PipelineState {
        PipelineState {
            phase: self.phase,
            window: self.detector.window(),
            last_sample_at: self.last_sample_at,
            devices: self.devices@,
        }
    }
}

impl PresenceDetector {
    /// The settings the orchestrator was made with.
    pub closed spec fn config(&self) -> AlgoConfig {
        self.config
    }

    /// The parts fit the configuration and are well formed themselves.
    pub closed spec fn wf(&self) -> bool {
        &&& self.config.is_valid()
        &&& self.detector.wf()
        &&& self.detector.window_size() == self.config.window_size
        &&& self.devices.wf()
        &&& self.processor.threshold() == self.config.threshold
        &&& self.processor.stability_window() == self.config.stability_window
    }

    /// The window of a well-formed orchestrator never exceeds the configured size.
    pub proof fn lemma_window_bounded(&self)
        requires
            self.wf(),
        ensures
            self@.window.len() <= self.config().window_size,
            self.config().is_valid(),
    {
        self.detector.lemma_window_bounded();
    }

    /// Builds an orchestrator from a configuration, at the time `started_at`.
    ///
    /// An invalid configuration is refused. The orchestrator starts running,
    /// with an empty window and no device known.
    pub fn new(config: AlgoConfig, started_at: u64) -> (made: Result<Self, AppError>)
        ensures
            config.is_valid() <==> made is Ok,
            made matches Err(e) ==> e == AppError::ConfigError,
            made matches Ok(orchestrator) ==> {
                &&& orchestrator.wf()
                &&& orchestrator.config() == config
                &&& orchestrator@ == PipelineState {
                    phase: Phase::Running,
                    window: Seq::<i16>::empty(),
                    last_sample_at: started_at,
                    devices: Map::<Seq<char>, DeviceState<i16>>::empty(),
                }
            },
    {
        match config.validate() {
            Ok(()) => {},
            Err(e) => {
                return Err(e);
            },
        }
        match Detector::new(config.window_size) {
            Ok(detector) => Ok(
                PresenceDetector {
                    config,
                    detector,
                    processor: Processor::new(config.threshold, config.stability_window),
                    devices: DeviceTable::new(),
                    last_sample_at: started_at,
                    phase: Phase::Running,
                },
            ),
            Err(e) => Err(e),
        }
    }

    /// Where the orchestrator is in its life.
    pub fn phase(&self) -> (phase: Phase)
        ensures
            phase == self@.phase,
    {
        self.phase
    }

    /// Handles one command that arrived at `now`.
    pub fn handle(&mut self, msg: ProcessorMsg, now: u64) -> (reaction: Reaction)
        requires
            old(self).wf(),
        ensures
            final(self).wf(),
            final(self).config() == old(self).config(),
            final(self)@ == next_state(old(self).config(), old(self)@, msg, now),
            reaction_fits(old(self).config(), old(self)@, msg, now, reaction),
    {
        match self.phase {
            Phase::Running => {},
            _ => {
                return match msg {
                    ProcessorMsg::Shutdown => Reaction::Stop,
                    _ => Reaction::Ignored,
                };
            },
        }
        match msg {
            ProcessorMsg::Sample { device_id, rssi } => {
                let since_last: u64 = if now >= self.last_sample_at {
                    now - self.last_sample_at
                } else {
                    0
                };
                if since_last < self.config.debounce_ms {
                    return Reaction::Ignored;
                }
                let window = self.detector.process(rssi);
                self.last_sample_at = now;
                self.devices.record(device_id, DeviceState { last_value: rssi, last_seen: now });
                let event = match &window {
                    Some(fresh) => self.processor.process_samples(fresh.as_slice()),
                    None => None,
                };
                Reaction::Sampled { window, event }
            },
            ProcessorMsg::GetStatus => Reaction::Status(self.devices.snapshot()),
            ProcessorMsg::Shutdown => {
                self.phase = Phase::ShuttingDown;
                Reaction::Stop
            },
        }
    }

    /// Ends the running phase, as the shutdown command does.
    ///
    /// Shutting down twice is the same as shutting down once.
    pub fn shutdown(&mut self)
        requires
            old(self).wf(),
        ensures
            final(self).wf(),
            final(self).config() == old(self).config(),
            final(self)@ == next_state(old(self).config(), old(self)@, ProcessorMsg::Shutdown, 0),
            !(final(self)@.phase is Running),
    {
        match self.phase {
            Phase::Running => {
                self.phase = Phase::ShuttingDown;
            },
            _ => {},
        }
    }

    /// Records that the command loop has ended.
    ///
    /// An orchestrator that was never told to shut down keeps running.
    pub fn finish(&mut self)
        requires
            old(self).wf(),
        ensures
            final(self).wf(),
            final(self).config() == old(self).config(),
            final(self)@ == (PipelineState {
                phase: if old(self)@.phase is Running {
                    Phase::Running
                } else {
                    Phase::Stopped
                },
                ..old(self)@
            }),
    {
        match self.phase {
            Phase::Running => {},
            _ => {
                self.phase = Phase::Stopped;
            },
        }
    }

    /// Turns an update of a device into the command it gives rise to.
    ///
    /// Only the device whose name has the fingerprint `target` is tracked.
    pub fn handle_device_update(
        rssi: Option<i16>,
        local_name: Option<String>,
        target: &str,
    ) -> (msg: Option<ProcessorMsg>)
        ensures
            msg == update_command(rssi, local_name, target@),
    {
        match (rssi, local_name) {
            (Some(r), Some(name)) => {
                let fingerprint = get_device_fingerprint(name.as_str());
                let wanted = String::from_str(target);
                if fingerprint == wanted {
                    Some(ProcessorMsg::Sample { device_id: name, rssi: r })
                } else {
                    None
                }
            },
            _ => None,
        }
    }
}

} // verus!
