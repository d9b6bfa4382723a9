//! Control state of the audio engine.
//!
//! The engine's streams, buffers and background tasks live with the caller;
//! this type holds the decisions: the reported state, the processing and
//! monitor switches, whether the engine's buffers exist, whether the output
//! monitor runs, and the name of the virtual microphone in use.

use vstd::prelude::*;
use crate::text::{concat_str, contains, contains_chars, debug_quoted, quote_debug};

verus! {

/// Reported state of the engine.
#[derive(Debug, Clone, PartialEq)]
pub enum EngineState {
    Idle,
    Initializing,
    Ready,
    Processing,
    Degraded,
    Error(String),
}

/// The text that `{:?}` gives for a state.
pub open spec fn state_label(s: EngineState) -> Seq<char> {
    match s {
        EngineState::Idle => "Idle"@,
        EngineState::Initializing => "Initializing"@,
        EngineState::Ready => "Ready"@,
        EngineState::Processing => "Processing"@,
        EngineState::Degraded => "Degraded"@,
        EngineState::Error(m) => "Error("@ + debug_quoted(m@) + ")"@,
    }
}

/// Different states are reported differently: no two states that carry no
/// message share a label, and no such state reads like an error report.
pub proof fn lemma_state_labels_tell_states_apart(s1: EngineState, s2: EngineState)
    requires
        s1 != s2,
        !(s1 is Error && s2 is Error),
    ensures
        state_label(s1) != state_label(s2),
{
    reveal_strlit("Idle");
    reveal_strlit("Initializing");
    reveal_strlit("Ready");
    reveal_strlit("Processing");
    reveal_strlit("Degraded");
    reveal_strlit("Error(");
    reveal_strlit(")");
    assert(state_label(EngineState::Idle).len() == 4);
    assert(state_label(EngineState::Ready).len() == 5);
    assert(state_label(EngineState::Degraded).len() == 8);
    assert(state_label(EngineState::Processing).len() == 10);
    assert(state_label(EngineState::Initializing).len() == 12);
    assert(state_label(EngineState::Degraded)[5] == 'd');
    assert(state_label(EngineState::Processing)[5] == 's');
    assert(state_label(EngineState::Initializing)[5] == 'a');
    if let EngineState::Error(m) = s1 {
        let l = state_label(s1);
        assert(l[5] == '(');
        assert(l.len() >= 7);
    }
    if let EngineState::Error(m) = s2 {
        let l = state_label(s2);
        assert(l[5] == '(');
        assert(l.len() >= 7);
    }
}

/// A state is reported by the name of its variant, as `{:?}` writes it: a
/// state without a message by the bare name, an error as `Error(..)` around
/// its quoted message.
pub proof fn lemma_state_labels_are_variant_names(m: String)
    ensures
        state_label(EngineState::Idle) == "Idle"@,
        state_label(EngineState::Initializing) == "Initializing"@,
        state_label(EngineState::Ready) == "Ready"@,
        state_label(EngineState::Processing) == "Processing"@,
        state_label(EngineState::Degraded) == "Degraded"@,
        state_label(EngineState::Error(m)) == "Error("@ + debug_quoted(m@) + ")"@,
{
}

impl EngineState {
    /// A copy of the state.
    pub fn snapshot(&self) -> (s: EngineState)
        ensures
            s == *self,
    {
        match self {
            EngineState::Idle => EngineState::Idle,
            EngineState::Initializing => EngineState::Initializing,
            EngineState::Ready => EngineState::Ready,
            EngineState::Processing => EngineState::Processing,
            EngineState::Degraded => EngineState::Degraded,
            EngineState::Error(m) => EngineState::Error(m.clone()),
        }
    }

    /// The state's name as `{:?}` writes it (`Error` with its quoted message).
    pub fn label(&self) -> (text: String)
        ensures
            text@ == state_label(*self),
    {
        match self {
            EngineState::Idle => String::from_str("Idle"),
            EngineState::Initializing => String::from_str("Initializing"),
            EngineState::Ready => String::from_str("Ready"),
            EngineState::Processing => String::from_str("Processing"),
            EngineState::Degraded => String::from_str("Degraded"),
            EngineState::Error(m) => {
                let quoted = quote_debug(m.as_str());
                let head = concat_str("Error(", quoted.as_str());
                concat_str(head.as_str(), ")")
            },
        }
    }
}

/// What the caller does with the output monitor after a monitor switch.
#[derive(Debug, Clone, Copy, PartialEq, Eq)]
pub enum MonitorAction {
    /// Open the monitor stream, then report it with `monitor_started`.
    Start,
    /// The monitor already runs.
    Keep,
    /// Close the monitor stream.
    Stop,
}

/// Refusals of the engine control.
#[derive(Debug, Clone, Copy, PartialEq, Eq)]
pub enum EngineError {
    /// The monitor was switched on before the engine's buffers existed.
    NotStarted,
}

impl EngineError {
    /// The error's message.
    pub fn message(&self) -> (text: String)
        ensures
            text@ == "Engine not started"@,
    {
        String::from_str("Engine not started")
    }
}

/// What a failed conversion request did to the engine.
#[derive(Debug, Clone, Copy, PartialEq, Eq)]
pub enum ConversionFailure {
    /// The provider rate-limited the request (HTTP 429): the chunk is dropped
    /// and the state is unchanged.
    RateLimited,
    /// Any other failure: the chunk is lost, the engine reports `Degraded`
    /// and falls back to the original voice: conversion is switched off, so
    /// captured audio bypasses the converter until conversion is switched on
    /// again, and a new conversion session starts, so results of chunks sent
    /// before the failure are not played.
    Degraded,
}

/// Control state of the audio engine.
pub struct EngineControl {
    state: EngineState,
    processing_enabled: bool,
    monitor_enabled: bool,
    buffers_ready: bool,
    monitor_running: bool,
    virtual_mic_name: Option<String>,
    conversion_session: u64,
}

/// The conversion session that follows `s` when conversion is switched off.
pub open spec fn next_session(s: u64) -> u64 {
    if s == u64::MAX {
        0
    } else {
        (s + 1) as u64
    }
}

impl EngineControl {
    /// The reported state.
    pub closed spec fn state(&self) -> EngineState {
        self.state
    }

    /// Whether captured audio is sent for conversion (otherwise it bypasses).
    pub closed spec fn processing_on(&self) -> bool {
        self.processing_enabled
    }

    /// Whether output is also sent to the monitor.
    pub closed spec fn monitor_on(&self) -> bool {
        self.monitor_enabled
    }

    /// Whether the engine's output and monitor buffers exist.
    pub closed spec fn has_buffers(&self) -> bool {
        self.buffers_ready
    }

    /// Whether the monitor stream runs.
    pub closed spec fn monitor_running(&self) -> bool {
        self.monitor_running
    }

    /// The current conversion session. Every chunk sent for conversion is
    /// tagged with the session it was captured in; switching conversion off
    /// starts a new session, so results of earlier sessions are never played.
    pub closed spec fn session(&self) -> u64 {
        self.conversion_session
    }

    /// Whether converted audio of `session` may reach the output: conversion
    /// is on and the audio belongs to the current session.
    pub open spec fn plays(&self, session: u64) -> bool {
        self.processing_on() && session == self.session()
    }

    /// Name of the virtual microphone in use.
    pub closed spec fn mic_name(&self) -> Option<Seq<char>> {
        match self.virtual_mic_name {
            Some(n) => Some(n@),
            None => None,
        }
    }

    /// A stopped engine with processing and monitoring off.
    pub fn new() -> (e: EngineControl)
        ensures
            e.state() == EngineState::Idle,
            !e.processing_on(),
            !e.monitor_on(),
            !e.has_buffers(),
            !e.monitor_running(),
            e.mic_name() is None,
            e.session() == 0,
    {
        EngineControl {
            state: EngineState::Idle,
            processing_enabled: false,
            monitor_enabled: false,
            buffers_ready: false,
            monitor_running: false,
            virtual_mic_name: None,
            conversion_session: 0,
        }
    }

    /// A start begins: the previous monitor is dropped, fresh buffers exist
    /// and the engine reports `Initializing` until `finish_start`.
    pub fn begin_start(&mut self)
        ensures
            final(self).state() == EngineState::Initializing,
            final(self).has_buffers(),
            !final(self).monitor_running(),
            final(self).processing_on() == old(self).processing_on(),
            final(self).session() == old(self).session(),
            final(self).monitor_on() == old(self).monitor_on(),
            final(self).mic_name() == old(self).mic_name(),
    {
        self.monitor_running = false;
        self.state = EngineState::Initializing;
        self.buffers_ready = true;
    }

    /// The virtual microphone stream opened on the device `name`.
    pub fn virtual_mic_started(&mut self, name: String)
        ensures
            final(self).mic_name() == Some(name@),
            final(self).state() == old(self).state(),
            final(self).processing_on() == old(self).processing_on(),
            final(self).session() == old(self).session(),
            final(self).monitor_on() == old(self).monitor_on(),
            final(self).has_buffers() == old(self).has_buffers(),
            final(self).monitor_running() == old(self).monitor_running(),
    {
        self.virtual_mic_name = Some(name);
    }

    /// All streams and tasks of a start are running: the engine is `Ready`.
    pub fn finish_start(&mut self)
        ensures
            final(self).state() == EngineState::Ready,
            final(self).processing_on() == old(self).processing_on(),
            final(self).session() == old(self).session(),
            final(self).monitor_on() == old(self).monitor_on(),
            final(self).has_buffers() == old(self).has_buffers(),
            final(self).monitor_running() == old(self).monitor_running(),
            final(self).mic_name() == old(self).mic_name(),
    {
        self.state = EngineState::Ready;
    }

    /// Switches conversion on or off. Returns whether the output buffer must
    /// be drained (it exists) so no audio of the old mode bleeds through.
    /// Switching off starts a new conversion session: no converted audio
    /// plays while conversion is off, and audio of an earlier session never
    /// plays again.
    pub fn set_processing(&mut self, enabled: bool) -> (drain: bool)
        ensures
            drain == old(self).has_buffers(),
            final(self).processing_on() == enabled,
            final(self).session() == (if enabled {
                old(self).session()
            } else {
                next_session(old(self).session())
            }),
            !enabled ==> forall|s: u64| !#[trigger] final(self).plays(s),
            !enabled ==> final(self).session() != old(self).session(),
            final(self).state() == (if enabled { EngineState::Processing } else { EngineState::Ready }),
            final(self).monitor_on() == old(self).monitor_on(),
            final(self).has_buffers() == old(self).has_buffers(),
            final(self).monitor_running() == old(self).monitor_running(),
            final(self).mic_name() == old(self).mic_name(),
    {
        self.processing_enabled = enabled;
        if !enabled {
            self.conversion_session = self.next_conversion_session();
        }
        self.state = if enabled { EngineState::Processing } else { EngineState::Ready };
        self.buffers_ready
    }

    /// Switches the output monitor on or off. Switching it on before the
    /// engine's buffers exist is refused (the switch itself is still recorded).
    pub fn set_monitor(&mut self, enabled: bool) -> (action: Result<MonitorAction, EngineError>)
        ensures
            final(self).monitor_on() == enabled,
            final(self).state() == old(self).state(),
            final(self).processing_on() == old(self).processing_on(),
            final(self).session() == old(self).session(),
            final(self).has_buffers() == old(self).has_buffers(),
            final(self).mic_name() == old(self).mic_name(),
            enabled ==> final(self).monitor_running() == old(self).monitor_running(),
            !enabled ==> !final(self).monitor_running(),
            action == (if !enabled {
                Ok(MonitorAction::Stop)
            } else if old(self).monitor_running() {
                Ok(MonitorAction::Keep)
            } else if !old(self).has_buffers() {
                Err(EngineError::NotStarted)
            } else {
                Ok(MonitorAction::Start)
            }),
    {
        self.monitor_enabled = enabled;
        if enabled {
            if !self.monitor_running {
                if !self.buffers_ready {
                    return Err(EngineError::NotStarted);
                }
                Ok(MonitorAction::Start)
            } else {
                Ok(MonitorAction::Keep)
            }
        } else {
            self.monitor_running = false;
            Ok(MonitorAction::Stop)
        }
    }

    /// The monitor stream opened after `MonitorAction::Start`.
    pub fn monitor_started(&mut self)
        ensures
            final(self).monitor_running(),
            final(self).state() == old(self).state(),
            final(self).processing_on() == old(self).processing_on(),
            final(self).session() == old(self).session(),
            final(self).monitor_on() == old(self).monitor_on(),
            final(self).has_buffers() == old(self).has_buffers(),
            final(self).mic_name() == old(self).mic_name(),
    {
        self.monitor_running = true;
    }

    /// Whether the monitor stream runs.
    pub fn monitor_active(&self) -> (running: bool)
        ensures
            running == self.monitor_running(),
    {
        self.monitor_running
    }

    fn next_conversion_session(&self) -> (s: u64)
        ensures
            s == next_session(self.session()),
    {
        if self.conversion_session == u64::MAX {
            0
        } else {
            self.conversion_session + 1
        }
    }

    /// The current conversion session, to tag a chunk sent for conversion.
    pub fn conversion_session(&self) -> (s: u64)
        ensures
            s == self.session(),
    {
        self.conversion_session
    }

    /// Whether converted audio of `session` may be played now.
    pub fn accept_converted(&self, session: u64) -> (play: bool)
        ensures
            play == self.plays(session),
    {
        self.processing_enabled && session == self.conversion_session
    }

    /// Whether captured audio is sent for conversion.
    pub fn processing_enabled(&self) -> (on: bool)
        ensures
            on == self.processing_on(),
    {
        self.processing_enabled
    }

    /// Whether output is also sent to the monitor.
    pub fn monitor_enabled(&self) -> (on: bool)
        ensures
            on == self.monitor_on(),
    {
        self.monitor_enabled
    }

    /// Stops the engine: buffers, monitor and virtual microphone are gone and
    /// the engine is `Idle`. The two switches keep their values.
    pub fn stop(&mut self)
        ensures
            final(self).state() == EngineState::Idle,
            !final(self).has_buffers(),
            !final(self).monitor_running(),
            final(self).mic_name() is None,
            final(self).processing_on() == old(self).processing_on(),
            final(self).session() == old(self).session(),
            final(self).monitor_on() == old(self).monitor_on(),
    {
        self.monitor_running = false;
        self.buffers_ready = false;
        self.virtual_mic_name = None;
        self.state = EngineState::Idle;
    }

    /// Name of the virtual microphone in use.
    pub fn virtual_mic_name(&self) -> (name: Option<&str>)
        ensures
            match name {
                Some(n) => self.mic_name() == Some(n@),
                None => self.mic_name() is None,
            },
    {
        match &self.virtual_mic_name {
            Some(n) => Some(n.as_str()),
            None => None,
        }
    }

    /// The reported state.
    pub fn current_state(&self) -> (s: EngineState)
        ensures
            s == self.state(),
    {
        self.state.snapshot()
    }

    /// A conversion request failed with the error text `message`: a rate
    /// limit (the text holds "429") leaves the state alone, anything else
    /// makes the engine `Degraded` and falls back to bypass (conversion off).
    pub fn on_conversion_failure(&mut self, message: &str) -> (outcome: ConversionFailure)
        ensures
            outcome == (if contains_chars(message@, "429"@) {
                ConversionFailure::RateLimited
            } else {
                ConversionFailure::Degraded
            }),
            final(self).state() == (if outcome == ConversionFailure::Degraded {
                EngineState::Degraded
            } else {
                old(self).state()
            }),
            final(self).processing_on() == (if outcome == ConversionFailure::Degraded {
                false
            } else {
                old(self).processing_on()
            }),
            final(self).session() == (if outcome == ConversionFailure::Degraded {
                next_session(old(self).session())
            } else {
                old(self).session()
            }),
            final(self).monitor_on() == old(self).monitor_on(),
            final(self).has_buffers() == old(self).has_buffers(),
            final(self).monitor_running() == old(self).monitor_running(),
            final(self).mic_name() == old(self).mic_name(),
    {
        if contains(message, "429") {
            ConversionFailure::RateLimited
        } else {
            self.state = EngineState::Degraded;
            self.processing_enabled = false;
            self.conversion_session = self.next_conversion_session();
            ConversionFailure::Degraded
        }
    }
}

} // verus!
