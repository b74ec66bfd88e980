//! The capture pump: one cycle per tick, never two at once. A cycle takes
//! a captured frame, measures its change against the last frame that was
//! sent, and either encodes and publishes it or lets it go.

use crate::capture::detector::{changed_ratio, ratio_of};
use crate::capture::encoder::{encode, encoding_of, EncodeError};
use crate::capture::ScreenCapture;
use crate::frame::{EncodedFrame, RawFrame, RawFrameView};
use crate::hub::{delivered, BroadcastHub};
use vstd::prelude::*;

verus! {

/// A frame is sent when more than `SEND_THRESHOLD_NUM / SEND_THRESHOLD_DEN`
/// of its pixels changed: more than one in a hundred.
pub const SEND_THRESHOLD_NUM: u64 = 1;

/// The denominator of the send threshold.
pub const SEND_THRESHOLD_DEN: u64 = 100;

/// The lowest encode quality.
pub const MIN_QUALITY: u8 = 1;

/// The highest encode quality.
pub const MAX_QUALITY: u8 = 100;

/// Where the pump is in its cycle.
#[derive(Debug, Clone, Copy, PartialEq, Eq, Structural)]
pub enum PumpState {
    /// Between cycles, waiting for the next tick.
    Idle,
    /// A frame was asked for and has not come yet.
    Capturing,
    /// A frame is being compared with the last one sent.
    Deciding,
    /// The frame is being encoded.
    Encoding,
    /// The encoded frame is being handed to the hub.
    Publishing,
    /// The frame is being let go.
    Skipping,
    /// Shut down: nothing happens any more.
    Stopped,
}

/// What can happen to the pump.
#[derive(Debug, Clone, Copy, PartialEq, Eq, Structural)]
pub enum PumpEvent {
    /// The frame period has passed.
    Tick,
    /// The frame source gave a frame.
    Captured,
    /// The frame source gave none.
    CaptureFailed,
    /// The frame differs enough from the last one sent.
    Changed,
    /// The frame does not differ enough.
    Unchanged,
    /// The codec gave a payload.
    Encoded,
    /// The codec gave up.
    EncodeFailed,
    /// The hub took the payload.
    Published,
    /// The frame was let go.
    Discarded,
    /// The process shuts down.
    Shutdown,
}

/// What the pump wants done next.
#[derive(Debug, Clone, Copy, PartialEq, Eq, Structural)]
pub enum PumpAction {
    /// Ask the frame source for a frame.
    Capture,
    /// Compare the frame with the last one sent.
    Compare,
    /// Encode the frame.
    Encode,
    /// Publish the payload.
    Publish,
    /// Let the frame go.
    Discard,
    /// Nothing until the next event.
    Wait,
    /// Nothing ever again.
    Halt,
}

/// The pump's transition table. A shutdown stops it from any state, and
/// once stopped it stays so. A tick starts a cycle only from `Idle`: one
/// that comes while a cycle runs is dropped. An event that does not belong
/// to the current state changes nothing.
pub open spec fn step(state: PumpState, event: PumpEvent) -> (PumpState, PumpAction) {
    match (state, event) {
        (_, PumpEvent::Shutdown) => (PumpState::Stopped, PumpAction::Halt),
        (PumpState::Stopped, _) => (PumpState::Stopped, PumpAction::Halt),
        (PumpState::Idle, PumpEvent::Tick) => (PumpState::Capturing, PumpAction::Capture),
        (PumpState::Capturing, PumpEvent::Captured) => (PumpState::Deciding, PumpAction::Compare),
        (PumpState::Capturing, PumpEvent::CaptureFailed) => (PumpState::Idle, PumpAction::Wait),
        (PumpState::Deciding, PumpEvent::Changed) => (PumpState::Encoding, PumpAction::Encode),
        (PumpState::Deciding, PumpEvent::Unchanged) => (PumpState::Skipping, PumpAction::Discard),
        (PumpState::Encoding, PumpEvent::Encoded) => (PumpState::Publishing, PumpAction::Publish),
        (PumpState::Encoding, PumpEvent::EncodeFailed) => (
            PumpState::Skipping,
            PumpAction::Discard,
        ),
        (PumpState::Publishing, PumpEvent::Published) => (PumpState::Idle, PumpAction::Wait),
        (PumpState::Skipping, PumpEvent::Discarded) => (PumpState::Idle, PumpAction::Wait),
        (other, _) => (other, PumpAction::Wait),
    }
}

/// The pump's next state and action for `event` in `state`.
pub fn transition(state: PumpState, event: PumpEvent) -> (next: (PumpState, PumpAction))
    ensures
        next == step(state, event),
{
    match (state, event) {
        (_, PumpEvent::Shutdown) => (PumpState::Stopped, PumpAction::Halt),
        (PumpState::Stopped, _) => (PumpState::Stopped, PumpAction::Halt),
        (PumpState::Idle, PumpEvent::Tick) => (PumpState::Capturing, PumpAction::Capture),
        (PumpState::Capturing, PumpEvent::Captured) => (PumpState::Deciding, PumpAction::Compare),
        (PumpState::Capturing, PumpEvent::CaptureFailed) => (PumpState::Idle, PumpAction::Wait),
        (PumpState::Deciding, PumpEvent::Changed) => (PumpState::Encoding, PumpAction::Encode),
        (PumpState::Deciding, PumpEvent::Unchanged) => (PumpState::Skipping, PumpAction::Discard),
        (PumpState::Encoding, PumpEvent::Encoded) => (PumpState::Publishing, PumpAction::Publish),
        (PumpState::Encoding, PumpEvent::EncodeFailed) => (
            PumpState::Skipping,
            PumpAction::Discard,
        ),
        (PumpState::Publishing, PumpEvent::Published) => (PumpState::Idle, PumpAction::Wait),
        (PumpState::Skipping, PumpEvent::Discarded) => (PumpState::Idle, PumpAction::Wait),
        (other, _) => (other, PumpAction::Wait),
    }
}

/// A capture is asked for only by a tick that finds the pump idle: no
/// second cycle starts while one runs.
pub proof fn lemma_single_flight(state: PumpState, event: PumpEvent)
    ensures
        step(state, event).1 == PumpAction::Capture <==> state == PumpState::Idle && event
            == PumpEvent::Tick,
{
}

/// A shutdown stops the pump from any state, and no event starts it again.
pub proof fn lemma_stopped_is_final(state: PumpState, event: PumpEvent)
    ensures
        step(state, PumpEvent::Shutdown).0 == PumpState::Stopped,
        step(PumpState::Stopped, event) == (PumpState::Stopped, PumpAction::Halt),
{
}

/// A quality setting brought into the range from `MIN_QUALITY` to
/// `MAX_QUALITY`.
pub open spec fn clamp_quality(quality: u8) -> u8 {
    if quality < MIN_QUALITY {
        MIN_QUALITY
    } else if quality > MAX_QUALITY {
        MAX_QUALITY
    } else {
        quality
    }
}

/// Whether `current` is to be sent, given the last frame that was sent:
/// always when there is none, else when the share of changed pixels is
/// over the threshold.
pub open spec fn should_send(current: RawFrameView, baseline: Option<RawFrameView>) -> bool {
    let ratio = ratio_of(current, baseline);
    ratio.num * SEND_THRESHOLD_DEN > SEND_THRESHOLD_NUM * ratio.den
}

/// The first frame is always sent.
pub proof fn lemma_first_frame_is_sent(current: RawFrameView)
    ensures
        should_send(current, None),
{
}

/// A frame identical to the last one sent is not sent.
pub proof fn lemma_identical_frame_is_skipped(current: RawFrameView)
    ensures
        !should_send(current, Some(current)),
{
    crate::capture::detector::lemma_identical_frames_ratio_zero(current, current);
}

/// A frame of another size than the last one sent is sent.
pub proof fn lemma_resized_frame_is_sent(current: RawFrameView, baseline: RawFrameView)
    requires
        current.width != baseline.width || current.height != baseline.height,
    ensures
        should_send(current, Some(baseline)),
{
}

/// What the pump decided about a captured frame.
#[derive(Debug, Clone, Copy, PartialEq, Eq, Structural)]
pub enum Decision {
    /// Encode and publish it.
    Send,
    /// Let it go: too little changed.
    Skip,
    /// No frame was asked for: it is not looked at.
    OutOfTurn,
}

/// How a cycle ended.
#[derive(Debug)]
pub enum CycleOutcome {
    /// The frame was encoded and published, and is the new baseline.
    Published,
    /// Too little changed: nothing was sent.
    Skipped,
    /// The frame could not be encoded: nothing was sent.
    EncodeFailed(EncodeError),
    /// The pump was not in the state for it: nothing happened.
    Ignored,
}

/// The pump of one capture source.
#[derive(Debug)]
pub struct ScreenStream {
    capture: ScreenCapture,
    last_frame: Option<RawFrame>,
    quality: u8,
    frame_count: u64,
    state: PumpState,
}

/// A frame count one higher, held at the largest count that can be kept.
pub open spec fn count_up(count: nat) -> nat {
    if count < u64::MAX {
        count + 1
    } else {
        count
    }
}

impl ScreenStream {
    /// The pump's invariant: a quality within range, and sound frames.
    pub closed spec fn wf(&self) -> bool {
        &&& MIN_QUALITY <= self.quality <= MAX_QUALITY
        &&& self.capture.wf()
        &&& self.last_frame matches Some(frame) ==> frame.wf()
    }

    /// Where the pump is in its cycle.
    pub closed spec fn spec_state(&self) -> PumpState {
        self.state
    }

    /// The last frame that was sent, if any: what the next is compared to.
    pub closed spec fn baseline(&self) -> Option<RawFrameView> {
        match self.last_frame {
            Some(frame) => Some(frame@),
            None => None,
        }
    }

    /// The quality that frames are encoded at.
    pub closed spec fn spec_quality(&self) -> u8 {
        self.quality
    }

    /// The number of frames that were captured in turn.
    pub closed spec fn spec_frame_count(&self) -> nat {
        self.frame_count as nat
    }

    /// The capture source.
    pub closed spec fn spec_capture(&self) -> ScreenCapture {
        self.capture
    }

    /// A pump for `capture`: idle, with nothing sent yet, encoding at the
    /// configured quality brought into range.
    pub fn new(capture: ScreenCapture) -> (stream: ScreenStream)
        requires
            capture.wf(),
        ensures
            stream.wf(),
            stream.spec_state() == PumpState::Idle,
            stream.baseline() is None,
            stream.spec_quality() == clamp_quality(capture.spec_config().quality),
            stream.spec_frame_count() == 0,
            stream.spec_capture() == capture,
    {
        let configured: u8 = capture.config().quality;
        let quality: u8 = if configured < MIN_QUALITY {
            MIN_QUALITY
        } else if configured > MAX_QUALITY {
            MAX_QUALITY
        } else {
            configured
        };
        ScreenStream { capture, last_frame: None, quality, frame_count: 0, state: PumpState::Idle }
    }

    /// Sets the encode quality, brought into range.
    pub fn set_quality(&mut self, quality: u8)
        requires
            old(self).wf(),
        ensures
            final(self).wf(),
            final(self).spec_quality() == clamp_quality(quality),
            final(self).spec_state() == old(self).spec_state(),
            final(self).baseline() == old(self).baseline(),
            final(self).spec_frame_count() == old(self).spec_frame_count(),
            final(self).spec_capture() == old(self).spec_capture(),
    {
        self.quality = if quality < MIN_QUALITY {
            MIN_QUALITY
        } else if quality > MAX_QUALITY {
            MAX_QUALITY
        } else {
            quality
        };
    }

    /// The quality that frames are encoded at.
    pub fn quality(&self) -> (quality: u8)
        ensures
            quality == self.spec_quality(),
    {
        self.quality
    }

    /// Where the pump is in its cycle.
    pub fn state(&self) -> (state: PumpState)
        ensures
            state == self.spec_state(),
    {
        self.state
    }

    /// The number of frames that were captured in turn.
    pub fn frame_count(&self) -> (count: u64)
        ensures
            count == self.spec_frame_count(),
    {
        self.frame_count
    }

    /// The capture source.
    pub fn capture(&self) -> (capture: &ScreenCapture)
        ensures
            *capture == self.spec_capture(),
    {
        &self.capture
    }

    /// Whether a frame was sent before.
    pub fn has_baseline(&self) -> (yes: bool)
        ensures
            yes == self.baseline() is Some,
    {
        self.last_frame.is_some()
    }

    /// Takes a tick of the frame timer. From `Idle` a cycle starts and the
    /// answer is `Capture`; while a cycle runs the tick is dropped
    /// (`Wait`); once stopped the answer is `Halt`.
    pub fn on_tick(&mut self) -> (action: PumpAction)
        requires
            old(self).wf(),
        ensures
            final(self).wf(),
            (final(self).spec_state(), action) == step(old(self).spec_state(), PumpEvent::Tick),
            final(self).baseline() == old(self).baseline(),
            final(self).spec_quality() == old(self).spec_quality(),
            final(self).spec_frame_count() == old(self).spec_frame_count(),
            final(self).spec_capture() == old(self).spec_capture(),
    {
        let (next, action) = transition(self.state, PumpEvent::Tick);
        self.state = next;
        action
    }

    /// Takes the news that the frame source gave no frame: the cycle ends
    /// and the pump waits for the next tick.
    pub fn on_capture_failed(&mut self)
        requires
            old(self).wf(),
        ensures
            final(self).wf(),
            final(self).spec_state() == step(old(self).spec_state(), PumpEvent::CaptureFailed).0,
            final(self).baseline() == old(self).baseline(),
            final(self).spec_quality() == old(self).spec_quality(),
            final(self).spec_frame_count() == old(self).spec_frame_count(),
            final(self).spec_capture() == old(self).spec_capture(),
    {
        let (next, _) = transition(self.state, PumpEvent::CaptureFailed);
        self.state = next;
    }

    /// Stops the pump for good, from whatever state.
    pub fn shutdown(&mut self)
        requires
            old(self).wf(),
        ensures
            final(self).wf(),
            final(self).spec_state() == PumpState::Stopped,
            final(self).baseline() == old(self).baseline(),
            final(self).spec_quality() == old(self).spec_quality(),
            final(self).spec_frame_count() == old(self).spec_frame_count(),
            final(self).spec_capture() == old(self).spec_capture(),
    {
        let (next, _) = transition(self.state, PumpEvent::Shutdown);
        self.state = next;
    }

    /// Takes a captured frame and decides about it. Only a pump that is
    /// `Capturing` looks at it. The frame is compared with the last frame
    /// that was sent, not the last that was captured. For `Send` the pump
    /// goes on to `Encoding`; for `Skip` the cycle is over and the pump is
    /// `Idle` again.
    pub fn begin_cycle(&mut self, frame: &RawFrame) -> (decision: Decision)
        requires
            old(self).wf(),
            frame.wf(),
        ensures
            final(self).wf(),
            final(self).baseline() == old(self).baseline(),
            final(self).spec_quality() == old(self).spec_quality(),
            final(self).spec_capture() == old(self).spec_capture(),
            decision == if old(self).spec_state() != PumpState::Capturing {
                Decision::OutOfTurn
            } else if should_send(frame@, old(self).baseline()) {
                Decision::Send
            } else {
                Decision::Skip
            },
            final(self).spec_state() == match decision {
                Decision::OutOfTurn => old(self).spec_state(),
                Decision::Send => PumpState::Encoding,
                Decision::Skip => PumpState::Idle,
            },
            final(self).spec_frame_count() == if decision == Decision::OutOfTurn {
                old(self).spec_frame_count()
            } else {
                count_up(old(self).spec_frame_count())
            },
    {
        if self.state != PumpState::Capturing {
            return Decision::OutOfTurn;
        }
        self.frame_count = self.frame_count.saturating_add(1);
        self.state = transition(self.state, PumpEvent::Captured).0;
        let ratio = match &self.last_frame {
            Some(last) => changed_ratio(frame, Some(last)),
            None => changed_ratio(frame, None),
        };
        if ratio.exceeds(SEND_THRESHOLD_NUM, SEND_THRESHOLD_DEN) {
            self.state = transition(self.state, PumpEvent::Changed).0;
            Decision::Send
        } else {
            self.state = transition(self.state, PumpEvent::Unchanged).0;
            self.state = transition(self.state, PumpEvent::Discarded).0;
            Decision::Skip
        }
    }

    /// Ends a cycle with what the codec answered for `frame`. Only a pump
    /// that is `Encoding` takes it. A payload is published to every viewer
    /// of `hub`, and `frame` becomes the baseline for the frames to come;
    /// a failure leaves hub and baseline as they were. Either way the pump
    /// is `Idle` again.
    pub fn complete_cycle(
        &mut self,
        frame: RawFrame,
        encoded: Result<EncodedFrame, EncodeError>,
        hub: &mut BroadcastHub,
    ) -> (outcome: CycleOutcome)
        requires
            old(self).wf(),
            old(hub).wf(),
            frame.wf(),
        ensures
            final(self).wf(),
            final(hub).wf(),
            final(hub).spec_capacity() == old(hub).spec_capacity(),
            final(hub).handles_given() == old(hub).handles_given(),
            final(self).spec_quality() == old(self).spec_quality(),
            final(self).spec_frame_count() == old(self).spec_frame_count(),
            final(self).spec_capture() == old(self).spec_capture(),
            old(self).spec_state() != PumpState::Encoding ==> {
                &&& outcome is Ignored
                &&& final(self).spec_state() == old(self).spec_state()
                &&& final(self).baseline() == old(self).baseline()
                &&& final(hub)@ == old(hub)@
            },
            old(self).spec_state() == PumpState::Encoding ==> {
                &&& final(self).spec_state() == PumpState::Idle
                &&& match encoded {
                    Ok(payload) => {
                        &&& outcome is Published
                        &&& final(self).baseline() == Some(frame@)
                        &&& final(hub)@ == delivered(
                            old(hub)@,
                            payload@,
                            old(hub).spec_capacity(),
                        )
                    },
                    Err(e) => {
                        &&& outcome matches CycleOutcome::EncodeFailed(why)
                        &&& why@ == e@
                        &&& final(self).baseline() == old(self).baseline()
                        &&& final(hub)@ == old(hub)@
                    },
                }
            },
    {
        if self.state != PumpState::Encoding {
            return CycleOutcome::Ignored;
        }
        match encoded {
            Ok(payload) => {
                self.state = transition(self.state, PumpEvent::Encoded).0;
                hub.publish(payload);
                self.last_frame = Some(frame);
                self.state = transition(self.state, PumpEvent::Published).0;
                CycleOutcome::Published
            },
            Err(e) => {
                self.state = transition(self.state, PumpEvent::EncodeFailed).0;
                self.state = transition(self.state, PumpEvent::Discarded).0;
                CycleOutcome::EncodeFailed(e)
            },
        }
    }

    /// Runs the rest of a cycle on a captured frame: decide, encode,
    /// publish. Only a pump that is `Capturing` takes the frame.
    ///
    /// A frame that is not to be sent changes neither hub nor baseline. A
    /// frame that is to be sent is encoded at the pump's quality: if it
    /// can be encoded, every viewer of `hub` gets the payload and the
    /// frame becomes the baseline; if it has no pixels or is too large,
    /// nothing changes. The pump is `Idle` afterwards in every case.
    pub fn on_frame(&mut self, frame: RawFrame, hub: &mut BroadcastHub) -> (outcome: CycleOutcome)
        requires
            old(self).wf(),
            old(hub).wf(),
            frame.wf(),
        ensures
            final(self).wf(),
            final(hub).wf(),
            final(hub).spec_capacity() == old(hub).spec_capacity(),
            final(hub).handles_given() == old(hub).handles_given(),
            final(self).spec_quality() == old(self).spec_quality(),
            final(self).spec_capture() == old(self).spec_capture(),
            old(self).spec_state() != PumpState::Capturing ==> {
                &&& outcome is Ignored
                &&& final(self).spec_state() == old(self).spec_state()
                &&& final(self).spec_frame_count() == old(self).spec_frame_count()
                &&& final(self).baseline() == old(self).baseline()
                &&& final(hub)@ == old(hub)@
            },
            old(self).spec_state() == PumpState::Capturing ==> {
                &&& final(self).spec_state() == PumpState::Idle
                &&& final(self).spec_frame_count() == count_up(old(self).spec_frame_count())
            },
            old(self).spec_state() == PumpState::Capturing && !should_send(
                frame@,
                old(self).baseline(),
            ) ==> {
                &&& outcome is Skipped
                &&& final(self).baseline() == old(self).baseline()
                &&& final(hub)@ == old(hub)@
            },
            old(self).spec_state() == PumpState::Capturing && should_send(
                frame@,
                old(self).baseline(),
            ) ==> match encoding_of(frame@, old(self).spec_quality()) {
                Ok(payload) => {
                    &&& outcome is Published
                    &&& final(self).baseline() == Some(frame@)
                    &&& final(hub)@ == delivered(old(hub)@, payload, old(hub).spec_capacity())
                },
                Err(failure) => {
                    &&& outcome matches CycleOutcome::EncodeFailed(why)
                    &&& why@ == failure
                    &&& final(self).baseline() == old(self).baseline()
                    &&& final(hub)@ == old(hub)@
                },
            },
    {
        match self.begin_cycle(&frame) {
            Decision::OutOfTurn => CycleOutcome::Ignored,
            Decision::Skip => CycleOutcome::Skipped,
            Decision::Send => {
                let encoded = encode(&frame, self.quality);
                self.complete_cycle(frame, encoded, hub)
            },
        }
    }
}

} // verus!
