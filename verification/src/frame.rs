//! A frame in the canonical layout, and the one-place slot that holds the
//! most recent one until it is read.

use vstd::prelude::*;
use crate::format::FrameError;

verus! {

/// What a frame is: its size in pixels and its bytes, three per pixel, row by
/// row from the top.
pub struct FrameView {
    pub width: nat,
    pub height: nat,
    pub data: Seq<u8>,
}

impl FrameView {
    /// The bytes are exactly three per pixel.
    pub open spec fn well_formed(self) -> bool {
        &&& self.width <= u32::MAX
        &&& self.height <= u32::MAX
        &&& self.data.len() == self.width * self.height * 3
    }
}

/// What a slot is: the size last announced, and the bytes of the pending
/// frame if one is waiting.
pub struct SlotView {
    pub width: nat,
    pub height: nat,
    pub data: Option<Seq<u8>>,
}

impl SlotView {
    /// A pending frame has exactly three bytes per pixel of the size held.
    pub open spec fn well_formed(self) -> bool {
        self.data matches Some(bytes) ==> {
            &&& self.width <= u32::MAX
            &&& self.height <= u32::MAX
            &&& bytes.len() == self.width * self.height * 3
        }
    }

    /// The size held, with the fixed channel count.
    pub open spec fn dimensions(self) -> (nat, nat, nat) {
        (self.width, self.height, 3)
    }

    /// The slot after `frame` was written: whatever waited is gone.
    pub open spec fn written(self, frame: FrameView) -> SlotView {
        SlotView { width: frame.width, height: frame.height, data: Some(frame.data) }
    }

    /// The frame a read hands out.
    pub open spec fn pending(self) -> Option<FrameView> {
        match self.data {
            Some(bytes) => Some(FrameView { width: self.width, height: self.height, data: bytes }),
            None => None,
        }
    }

    /// The slot after a read: emptied if the read invalidates, the size kept.
    pub open spec fn after_read(self, invalidate: bool) -> SlotView {
        if invalidate {
            SlotView { width: self.width, height: self.height, data: None }
        } else {
            self
        }
    }
}

/// The view of an optional frame.
pub open spec fn frame_view(frame: Option<Frame>) -> Option<FrameView> {
    match frame {
        Some(f) => Some(f@),
        None => None,
    }
}

/// One image in the canonical three-channel layout.
pub struct Frame {
    width: u32,
    height: u32,
    data: Vec<u8>,
}

impl View for Frame {
    type V = FrameView;

    closed spec fn view(&self) -> FrameView {
        FrameView { width: self.width as nat, height: self.height as nat, data: self.data@ }
    }
}

impl Frame {
    #[verifier::type_invariant]
    spec fn inv(self) -> bool {
        self.data@.len() == self.width * self.height * 3
    }

    /// Makes a frame from its size and bytes; refused as malformed unless
    /// there are exactly three bytes per pixel.
    pub fn new(width: u32, height: u32, data: Vec<u8>) -> (r: Result<Frame, FrameError>)
        ensures
            r is Ok <==> data@.len() == width * height * 3,
            r matches Ok(f) ==> f@ == (FrameView {
                width: width as nat,
                height: height as nat,
                data: data@,
            }),
            r matches Ok(f) ==> f@.well_formed(),
            r matches Err(e) ==> e == FrameError::MalformedFrame,
    {
        if fits(width, height, 3, data.len()) {
            Ok(Frame { width, height, data })
        } else {
            Err(FrameError::MalformedFrame)
        }
    }

    /// Width in pixels.
    pub fn width(&self) -> (w: u32)
        ensures
            w == self@.width,
    {
        self.width
    }

    /// Height in pixels.
    pub fn height(&self) -> (h: u32)
        ensures
            h == self@.height,
    {
        self.height
    }

    /// The bytes, three per pixel.
    pub fn data(&self) -> (bytes: &Vec<u8>)
        ensures
            bytes@ == self@.data,
            bytes@.len() == self@.width * self@.height * 3,
    {
        proof {
            use_type_invariant(self);
        }
        &self.data
    }

    /// Takes the frame apart into its size and its bytes.
    pub fn into_texture(self) -> (t: ((u32, u32), Vec<u8>))
        ensures
            t.0.0 == self@.width,
            t.0.1 == self@.height,
            t.1@ == self@.data,
            t.1@.len() == t.0.0 * t.0.1 * 3,
    {
        proof {
            use_type_invariant(&self);
        }
        ((self.width, self.height), self.data)
    }
}

/// A one-place mailbox for frames: a write replaces whatever waits, a read
/// hands out a copy and may empty the slot.
pub struct FrameSlot {
    width: usize,
    height: usize,
    data: Option<Vec<u8>>,
}

impl View for FrameSlot {
    type V = SlotView;

    closed spec fn view(&self) -> SlotView {
        SlotView {
            width: self.width as nat,
            height: self.height as nat,
            data: match self.data {
                Some(bytes) => Some(bytes@),
                None => None,
            },
        }
    }
}

impl FrameSlot {
    #[verifier::type_invariant]
    spec fn inv(self) -> bool {
        self@.well_formed()
    }

    /// An empty slot that announces the given size.
    pub fn new(resolution: (usize, usize)) -> (slot: FrameSlot)
        ensures
            slot@ == (SlotView {
                width: resolution.0 as nat,
                height: resolution.1 as nat,
                data: None,
            }),
    {
        FrameSlot { width: resolution.0, height: resolution.1, data: None }
    }

    /// The size held, with the fixed channel count.
    pub fn dimensions(&self) -> (d: (usize, usize, usize))
        ensures
            (d.0 as nat, d.1 as nat, d.2 as nat) == self@.dimensions(),
            self@.well_formed(),
    {
        proof {
            use_type_invariant(self);
        }
        (self.width, self.height, 3)
    }

    /// Whether no frame waits.
    pub fn is_empty(&self) -> (b: bool)
        ensures
            b == (self@.data is None),
    {
        self.data.is_none()
    }

    /// Puts `frame` into the slot in place of whatever waited there.
    pub fn write(&mut self, frame: Frame)
        ensures
            final(self)@ == old(self)@.written(frame@),
            final(self)@.well_formed(),
    {
        let ((width, height), data) = frame.into_texture();
        *self = FrameSlot { width: width as usize, height: height as usize, data: Some(data) };
    }

    /// Hands out a copy of the pending frame, if there is one, and empties
    /// the slot when `invalidate` is set. The size stays as it was.
    pub fn read(&mut self, invalidate: bool) -> (frame: Option<Frame>)
        ensures
            frame_view(frame) == old(self)@.pending(),
            frame matches Some(f) ==> f@.well_formed(),
            final(self)@ == old(self)@.after_read(invalidate),
            final(self)@.well_formed(),
    {
        proof {
            use_type_invariant(&*self);
        }
        let frame = match &self.data {
            Some(bytes) => {
                let copy = bytes.clone();
                Some(Frame { width: self.width as u32, height: self.height as u32, data: copy })
            },
            None => None,
        };
        if invalidate {
            self.data = None;
        }
        frame
    }
}

impl SlotView {
    /// The slot after `count` reads that do not invalidate.
    pub open spec fn after_peeks(self, count: nat) -> SlotView
        decreases count,
    {
        if count == 0 {
            self
        } else {
            self.after_read(false).after_peeks((count - 1) as nat)
        }
    }
}

/// The last write wins: after two writes with no read between them only the
/// second frame can be read, and the slot is as if the first had never been
/// written.
pub proof fn lemma_last_write_wins(slot: SlotView, first: FrameView, second: FrameView)
    ensures
        slot.written(first).written(second).pending() == Some(second),
        slot.written(first).written(second) == slot.written(second),
{
}

/// A read that invalidates leaves nothing for the next read, and keeps the
/// size: of two such reads after a write, the first hands out the frame and
/// the second nothing.
pub proof fn lemma_invalidating_read_empties(slot: SlotView, frame: FrameView, invalidate: bool)
    ensures
        slot.written(frame).pending() == Some(frame),
        slot.written(frame).after_read(true).pending() is None,
        slot.after_read(true).pending() is None,
        slot.after_read(true).after_read(invalidate).pending() is None,
        slot.after_read(true).dimensions() == slot.dimensions(),
{
}

/// Reads that do not invalidate can be repeated without end: each hands out
/// the same frame and leaves the slot as it was.
pub proof fn lemma_peeks_change_nothing(slot: SlotView, count: nat)
    ensures
        slot.after_peeks(count) == slot,
        slot.after_peeks(count).pending() == slot.pending(),
    decreases count,
{
    if count > 0 {
        lemma_peeks_change_nothing(slot.after_read(false), (count - 1) as nat);
    }
}

/// Reads and writes keep a slot well formed.
pub proof fn lemma_slot_stays_well_formed(slot: SlotView, frame: FrameView, invalidate: bool)
    requires
        slot.well_formed(),
        frame.well_formed(),
    ensures
        slot.written(frame).well_formed(),
        slot.after_read(invalidate).well_formed(),
        slot.pending() matches Some(f) ==> f.well_formed(),
{
}

/// Whether `len` bytes are exactly `width * height` pixels of `channels`
/// bytes each.
pub fn fits(width: u32, height: u32, channels: usize, len: usize) -> (b: bool)
    ensures
        b == (len == width * height * channels),
{
    assert(0 <= width * height <= 0xffff_ffff * 0xffff_ffff) by (nonlinear_arith)
        requires
            0 <= width <= 0xffff_ffff,
            0 <= height <= 0xffff_ffff,
    ;
    let pixels: u64 = width as u64 * height as u64;
    assert(0 <= pixels * channels <= 0xffff_ffff_ffff_ffff * 0xffff_ffff_ffff_ffff)
        by (nonlinear_arith)
        requires
            0 <= pixels <= 0xffff_ffff_ffff_ffff,
            0 <= channels <= 0xffff_ffff_ffff_ffff,
    ;
    let wanted: u128 = pixels as u128 * channels as u128;
    wanted == len as u128
}

} // verus!
