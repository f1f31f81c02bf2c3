//! The sampling loop's decisions. The caller captures frames, converts the
//! dominant colour to HSL, sends payloads and sleeps; this module decides
//! what each capture result and each sampled colour leads to.
use vstd::prelude::*;
use crate::hsl::{HslColor, is_visible_change, should_emit};
use crate::payload::{DevicePayload, create_color_picker_payload, is_color_picker_payload};

verus! {

/// What came back from asking the screen for a frame.
#[derive(Clone, Copy, Debug, PartialEq, Eq, Structural)]
pub enum CaptureOutcome {
    /// A full frame is ready.
    Ready,
    /// No new frame yet; try again shortly.
    NotReady,
    /// The capture failed for good.
    Failed,
}

/// What the loop does next with a capture result.
#[derive(Clone, Copy, Debug, PartialEq, Eq, Structural)]
pub enum CaptureAction {
    /// Normalise and quantise the frame.
    Process,
    /// Sleep one frame interval and capture again, in the same iteration.
    WaitAndRetry,
    /// Stop: the capture cannot recover.
    Abort,
}

/// The action for each capture result.
pub open spec fn capture_action_spec(o: CaptureOutcome) -> CaptureAction {
    match o {
        CaptureOutcome::Ready => CaptureAction::Process,
        CaptureOutcome::NotReady => CaptureAction::WaitAndRetry,
        CaptureOutcome::Failed => CaptureAction::Abort,
    }
}

/// A frame is processed, a frame that is not ready yet is waited for, and
/// any other failure ends the loop.
pub fn capture_action(outcome: CaptureOutcome) -> (r: CaptureAction)
    ensures
        r == capture_action_spec(outcome),
{
    match outcome {
        CaptureOutcome::Ready => CaptureAction::Process,
        CaptureOutcome::NotReady => CaptureAction::WaitAndRetry,
        CaptureOutcome::Failed => CaptureAction::Abort,
    }
}

/// The loop's state: the most recently sampled colour, whether or not it
/// was sent.
#[derive(Clone, Copy, Debug)]
pub struct SamplingState {
    pub last_color: HslColor,
}

impl SamplingState {
    pub open spec fn wf(&self) -> bool {
        self.last_color.wf()
    }

    /// The state at the start of a run: black.
    pub fn new() -> (r: SamplingState)
        ensures
            r.wf(),
            r.last_color == HslColor::black_spec(),
    {
        SamplingState { last_color: HslColor::black() }
    }

    /// Records `sample` as the latest colour and says whether it differs
    /// visibly from the one sampled before.
    pub fn observe(&mut self, sample: HslColor) -> (r: bool)
        requires
            old(self).wf(),
            sample.wf(),
        ensures
            r == is_visible_change(old(self).last_color, sample),
            final(self).last_color == sample,
            final(self).wf(),
    {
        let changed = should_emit(&self.last_color, &sample);
        self.last_color = sample;
        changed
    }

    /// One iteration of the colour picker: the payload to send for `sample`
    /// if it differs visibly from the previous sample, `None` otherwise. The
    /// sample becomes the state's latest colour either way.
    pub fn color_picker_step(&mut self, device_id: &String, sample: HslColor, now: u32) -> (r:
        Option<DevicePayload>)
        requires
            old(self).wf(),
            sample.wf(),
        ensures
            r is Some <==> is_visible_change(old(self).last_color, sample),
            r matches Some(p) ==> is_color_picker_payload(p, device_id@, sample, now),
            final(self).last_color == sample,
            final(self).wf(),
    {
        if self.observe(sample) {
            Some(create_color_picker_payload(device_id.clone(), sample, now))
        } else {
            None
        }
    }
}

} // verus!
