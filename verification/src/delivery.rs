//! What happens when the pipeline announces a frame: the sample is checked and
//! brought to the canonical layout, and only a good frame reaches the slot.

use vstd::prelude::*;
use crate::format::FrameError;
use crate::format::ReportedFormat;
use crate::format::TextureFormat;
use crate::frame::Frame;
use crate::frame::FrameSlot;
use crate::frame::FrameView;
use crate::frame::SlotView;
use crate::normalize::canonical_bytes;
use crate::normalize::normalize;

verus! {

/// What the pipeline handed over when it announced a frame.
pub enum Sample {
    /// Nothing could be pulled from the pipeline.
    Missing,
    /// Something was pulled, but its layout, its size or its bytes could not
    /// be read.
    Unreadable,
    /// A raw frame with the layout and size reported for it.
    Raw { format: ReportedFormat, width: u32, height: u32, samples: Vec<u8> },
}

/// Why an announced frame did not reach the slot.
#[derive(Clone, Copy, Debug, PartialEq, Eq, Structural)]
pub enum Dropped {
    Missing,
    Unreadable,
    UnsupportedFormat,
    MalformedFrame,
    /// The slot's lock is poisoned: a thread died while holding it.
    SlotUnavailable,
}

/// The answer given to the pipeline for an announced frame.
#[derive(Clone, Copy, Debug, PartialEq, Eq, Structural)]
pub enum Flow {
    /// The frame was taken.
    Delivered,
    /// The stream is over.
    Eos,
    /// This frame failed; whether the stream goes on is the pipeline's call.
    Error,
}

/// The frame that a sample amounts to, or why it is dropped. An unsupported
/// layout is noticed before a wrong byte count.
pub open spec fn prepared(sample: Sample) -> Result<FrameView, Dropped> {
    match sample {
        Sample::Missing => Err(Dropped::Missing),
        Sample::Unreadable => Err(Dropped::Unreadable),
        Sample::Raw { format, width, height, samples } => match TextureFormat::spec_from_reported(
            format,
        ) {
            Err(_) => Err(Dropped::UnsupportedFormat),
            Ok(layout) => if samples@.len() == width * height * layout.spec_channel_count() {
                Ok(
                    FrameView {
                        width: width as nat,
                        height: height as nat,
                        data: canonical_bytes(layout, (width * height) as nat, samples@),
                    },
                )
            } else {
                Err(Dropped::MalformedFrame)
            },
        },
    }
}

/// The view of a prepared frame.
pub open spec fn prepared_view(r: Result<Frame, Dropped>) -> Result<FrameView, Dropped> {
    match r {
        Ok(frame) => Ok(frame@),
        Err(e) => Err(e),
    }
}

/// The slot after a sample was delivered to it: a good frame replaces what
/// waited, anything else leaves the slot as it was.
pub open spec fn delivered(slot: SlotView, sample: Sample) -> SlotView {
    match prepared(sample) {
        Ok(frame) => slot.written(frame),
        Err(_) => slot,
    }
}

/// The answer to the pipeline for an outcome: only a missing sample ends the
/// stream, every other failure is an error of this one frame.
pub open spec fn spec_flow(outcome: Result<(), Dropped>) -> Flow {
    match outcome {
        Ok(_) => Flow::Delivered,
        Err(Dropped::Missing) => Flow::Eos,
        Err(_) => Flow::Error,
    }
}

/// Checks a sample and brings its frame to the canonical layout.
pub fn prepare(sample: Sample) -> (r: Result<Frame, Dropped>)
    ensures
        prepared_view(r) == prepared(sample),
        r matches Ok(frame) ==> frame@.well_formed(),
{
    match sample {
        Sample::Missing => Err(Dropped::Missing),
        Sample::Unreadable => Err(Dropped::Unreadable),
        Sample::Raw { format, width, height, samples } => {
            match TextureFormat::from_reported(format) {
                Err(_) => Err(Dropped::UnsupportedFormat),
                Ok(layout) => match normalize(layout, width, height, samples) {
                    Ok(frame) => Ok(frame),
                    Err(_) => Err(Dropped::MalformedFrame),
                },
            }
        },
    }
}

/// The answer to give the pipeline for the outcome of a delivery.
pub fn flow(outcome: Result<(), Dropped>) -> (f: Flow)
    ensures
        f == spec_flow(outcome),
{
    match outcome {
        Ok(_) => Flow::Delivered,
        Err(Dropped::Missing) => Flow::Eos,
        Err(_) => Flow::Error,
    }
}

impl FrameSlot {
    /// Delivers a sample to a slot that is not shared: a good frame replaces
    /// whatever waited, any other sample is dropped and the slot stays as it
    /// was.
    pub fn deliver(&mut self, sample: Sample) -> (outcome: Result<(), Dropped>)
        ensures
            final(self)@ == delivered(old(self)@, sample),
            outcome == match prepared(sample) {
                Ok(_) => Ok::<(), Dropped>(()),
                Err(e) => Err(e),
            },
    {
        match prepare(sample) {
            Ok(frame) => {
                self.write(frame);
                Ok(())
            },
            Err(e) => Err(e),
        }
    }
}

/// A sample that is dropped leaves the slot exactly as it was: the frame that
/// waited before a malformed or unsupported one still waits after it.
pub proof fn lemma_dropped_sample_changes_nothing(slot: SlotView, sample: Sample)
    requires
        prepared(sample) is Err,
    ensures
        delivered(slot, sample) == slot,
        delivered(slot, sample).pending() == slot.pending(),
{
}

/// A bad sample between two good ones is as if it had never come: after the
/// first good frame and the bad sample the first frame is the one that waits,
/// and after the second good frame the second is.
pub proof fn lemma_bad_sample_between_good_ones(
    slot: SlotView,
    first: Sample,
    bad: Sample,
    second: Sample,
)
    requires
        prepared(first) is Ok,
        prepared(bad) is Err,
        prepared(second) is Ok,
    ensures
        delivered(delivered(slot, first), bad).pending() == Some(prepared(first)->Ok_0),
        delivered(delivered(delivered(slot, first), bad), second).pending() == Some(
            prepared(second)->Ok_0,
        ),
        delivered(delivered(delivered(slot, first), bad), second) == delivered(
            delivered(slot, first),
            second,
        ),
{
}

} // verus!
