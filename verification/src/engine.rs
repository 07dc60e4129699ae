//! The capture engine: the state machine that supervises one capture
//! session, from resolving the device through streaming to the single
//! hand-off of the accumulated buffer.
//!
//! States advance `Idle -> DeviceBound -> FormatNegotiated ->
//! Streaming -> Stopped`.  Binding requires a resolved device; the
//! negotiated transition requires a completed mode handshake and a
//! completed, agreeing format negotiation; a failed callback
//! registration or stream start stops the session abnormally.  While
//! streaming, the engine owns the sample accumulator and forwards each
//! delivered buffer to it; the buffer leaves the engine exactly once,
//! after the session has stopped.

use crate::accumulator::AccumulatorError;
use crate::accumulator::Sample;
use crate::accumulator::SampleAccumulator;
use crate::format::FormatNegotiation;
use crate::format::SampleRep;
use crate::format::StreamFormatSpec;
use crate::handshake::HandshakeSession;
use crate::resolver::Scope;
use vstd::prelude::*;

verus! {

/// Stage of a capture session.
#[derive(Clone, Copy, Debug, PartialEq, Eq, Structural)]
pub enum EngineState {
    Idle,
    DeviceBound,
    FormatNegotiated,
    Streaming,
    Stopped,
}

/// Failure to enter the streaming state.
#[derive(Clone, Copy, Debug, PartialEq, Eq, Structural)]
pub enum StreamStartError {
    /// Registering the sample-delivery callback failed.
    CallbackRegistrationFailed,
    /// Starting the stream failed.
    StartFailed,
}

/// One capture session: its stage, the resolved device, the
/// negotiated format, and the sample accumulator it owns.
pub struct CaptureEngine {
    state: EngineState,
    device: Option<(u32, String)>,
    format: Option<StreamFormatSpec>,
    acc: SampleAccumulator,
}

impl CaptureEngine {
    /// The stage the session has reached.
    pub closed spec fn state_spec(&self) -> EngineState {
        self.state
    }

    /// The resolved device: its identifier and name.
    pub closed spec fn device_spec(&self) -> Option<(u32, Seq<char>)> {
        match self.device {
            Some(p) => Some((p.0, p.1@)),
            None => None,
        }
    }

    /// The negotiated stream format.
    pub closed spec fn format_spec(&self) -> Option<StreamFormatSpec> {
        self.format
    }

    /// The owned sample accumulator.
    pub closed spec fn acc_spec(&self) -> SampleAccumulator {
        self.acc
    }

    /// The accumulated raw sample words.
    pub open spec fn contents(&self) -> Seq<u32> {
        self.acc_spec().contents()
    }

    /// How many discontinuity warnings the accumulator has emitted.
    pub open spec fn warnings(&self) -> int {
        self.acc_spec().warnings_spec()
    }

    /// The engine's invariant: the accumulator is well formed, a bound
    /// device exists from `DeviceBound` on, and a negotiated format
    /// exists from `FormatNegotiated` on.
    pub open spec fn wf(&self) -> bool {
        &&& self.acc_spec().wf()
        &&& !(self.state_spec() is Idle) ==> self.device_spec() is Some
        &&& (self.state_spec() is FormatNegotiated || self.state_spec() is Streaming
            || self.state_spec() is Stopped) ==> self.format_spec() is Some
    }

    /// Begins a session in `Idle` with an empty accumulator.
    pub fn new(acc: SampleAccumulator) -> (e: Self)
        requires
            acc.wf(),
            acc.contents().len() == 0,
        ensures
            e.wf(),
            e.state_spec() is Idle,
            e.acc_spec() == acc,
            e.device_spec() is None,
            e.format_spec() is None,
    {
        CaptureEngine { state: EngineState::Idle, device: None, format: None, acc }
    }

    /// Binds the resolved device: `Idle -> DeviceBound`.
    pub fn bind_device(&mut self, id: u32, name: String)
        requires
            old(self).wf(),
            old(self).state_spec() is Idle,
        ensures
            final(self).wf(),
            final(self).state_spec() is DeviceBound,
            final(self).device_spec() == Some((id, name@)),
            final(self).format_spec() == old(self).format_spec(),
            final(self).acc_spec() == old(self).acc_spec(),
    {
        self.device = Some((id, name));
        self.state = EngineState::DeviceBound;
    }

    /// Records that the mode handshake completed and both format
    /// negotiations succeeded, in that order:
    /// `DeviceBound -> FormatNegotiated`.  The engine adopts the
    /// negotiated physical format.
    pub fn mark_negotiated(&mut self, hs: &HandshakeSession, negotiation: &FormatNegotiation)
        requires
            old(self).wf(),
            old(self).state_spec() is DeviceBound,
            hs.stage_spec() is Complete,
            negotiation.complete(),
        ensures
            final(self).wf(),
            final(self).state_spec() is FormatNegotiated,
            final(self).format_spec() == negotiation.physical_spec(),
            final(self).device_spec() == old(self).device_spec(),
            final(self).acc_spec() == old(self).acc_spec(),
    {
        match negotiation.physical() {
            Some(fmt) => {
                self.format = Some(fmt);
                self.state = EngineState::FormatNegotiated;
            },
            None => {
                proof {
                    assert(false);
                }
            },
        }
    }

    /// Takes the outcomes of registering the delivery callback and
    /// starting the stream.  Both succeeding enters `Streaming`;
    /// either failing stops the session abnormally with the
    /// originating error.
    pub fn start_streaming(&mut self, callback_registered: bool, started: bool) -> (r: Result<
        (),
        StreamStartError,
    >)
        requires
            old(self).wf(),
            old(self).state_spec() is FormatNegotiated,
        ensures
            final(self).wf(),
            final(self).device_spec() == old(self).device_spec(),
            final(self).format_spec() == old(self).format_spec(),
            final(self).acc_spec() == old(self).acc_spec(),
            if !callback_registered {
                r == Err::<(), StreamStartError>(StreamStartError::CallbackRegistrationFailed)
                    && final(self).state_spec() is Stopped
            } else if !started {
                r == Err::<(), StreamStartError>(StreamStartError::StartFailed) && final(self).state_spec() is Stopped
            } else {
                r is Ok && final(self).state_spec() is Streaming
            },
    {
        if !callback_registered {
            self.state = EngineState::Stopped;
            Err(StreamStartError::CallbackRegistrationFailed)
        } else if !started {
            self.state = EngineState::Stopped;
            Err(StreamStartError::StartFailed)
        } else {
            self.state = EngineState::Streaming;
            Ok(())
        }
    }

    /// Forwards one delivered buffer to the accumulator.  Only a
    /// streaming session accepts deliveries.
    pub fn deliver(&mut self, frame_count: usize, samples: &Vec<Sample>) -> (r: Result<
        usize,
        AccumulatorError,
    >)
        requires
            old(self).wf(),
            old(self).state_spec() is Streaming,
            frame_count >= 1,
            samples@.len() == frame_count * old(self).acc_spec().channels_spec(),
        ensures
            final(self).wf(),
            final(self).state_spec() is Streaming,
            final(self).device_spec() == old(self).device_spec(),
            final(self).format_spec() == old(self).format_spec(),
            if old(self).contents().len() + samples@.len() > old(self).acc_spec().capacity_spec() {
                r == Err::<usize, AccumulatorError>(AccumulatorError::Overflow) && final(self).acc_spec() == old(self).acc_spec()
            } else {
                r == Ok::<usize, AccumulatorError>(frame_count)
                    && SampleAccumulator::delivered(
                    old(self).acc_spec(),
                    final(self).acc_spec(),
                    samples@,
                )
            },
    {
        self.acc.on_samples(frame_count, samples)
    }

    /// Stops a streaming session normally: `Streaming -> Stopped`.
    pub fn stop(&mut self)
        requires
            old(self).wf(),
            old(self).state_spec() is Streaming,
        ensures
            final(self).wf(),
            final(self).state_spec() is Stopped,
            final(self).device_spec() == old(self).device_spec(),
            final(self).format_spec() == old(self).format_spec(),
            final(self).acc_spec() == old(self).acc_spec(),
    {
        self.state = EngineState::Stopped;
    }

    /// The stage the session has reached.
    pub fn state(&self) -> (s: EngineState)
        ensures
            s == self.state_spec(),
    {
        self.state
    }

    /// How many discontinuity warnings have been emitted so far.
    pub fn warning_count(&self) -> (n: usize)
        ensures
            n == self.warnings(),
    {
        self.acc.warning_count()
    }

    /// Hands the accumulated buffer out of a stopped session,
    /// consuming the engine: the hand-off happens exactly once.
    pub fn into_buffer(self) -> (w: Vec<u32>)
        requires
            self.state_spec() is Stopped,
        ensures
            w@ == self.contents(),
    {
        self.acc.into_words()
    }
}

/// The fixed parameters of the reference capture session.
pub struct SessionPlan {
    /// Substring that the target device's name must contain.
    pub device_substring: &'static str,
    /// Required capability scope of the device.
    pub scope: Scope,
    /// The stream format to negotiate, physically and logically.
    pub format: StreamFormatSpec,
    /// Capacity of the sample buffer, in samples.
    pub buffer_capacity: usize,
    /// Expected per-sample step of the calibration waveform, in
    /// hundred-thousandths of full scale.
    pub expected_step: i32,
    /// How many wake intervals the controlling thread sleeps through.
    pub wake_intervals: u32,
    /// Length of one wake interval, in milliseconds.
    pub wake_millis: u32,
}

/// The reference session: the debug input device, 48 kHz packed-float
/// stereo, a ten-million-sample buffer, and a two-second supervised
/// run.
pub fn default_session_plan() -> (p: SessionPlan)
    ensures
        p.device_substring@ == "Meta Audio Debug"@,
        p.scope is Input,
        p.format == (StreamFormatSpec {
            sample_rate: 48000,
            channel_count: 2,
            rep: SampleRep::F32Packed,
        }),
        p.buffer_capacity == 10_000_000,
        p.expected_step == 5764,
        p.wake_intervals == 2,
        p.wake_millis == 1000,
{
    SessionPlan {
        device_substring: "Meta Audio Debug",
        scope: Scope::Input,
        format: StreamFormatSpec { sample_rate: 48000, channel_count: 2, rep: SampleRep::F32Packed },
        buffer_capacity: 10_000_000,
        expected_step: 5764,
        wake_intervals: 2,
        wake_millis: 1000,
    }
}

} // verus!
