//! Captured frames: which of them reach the encoder.

use vstd::prelude::*;

verus! {

/// How many frames may wait for the encoder; more are dropped.
pub const FRAME_QUEUE: usize = 4;

/// What becomes of a frame.
#[derive(Debug, Clone, Copy, PartialEq, Eq, Structural)]
pub enum FrameFate {
    /// The recording was halted.
    Ignored,
    /// It has another size than the stream; `warn` where that was not said yet.
    Dropped { warn: bool },
    /// It goes to the encoder.
    Queued,
}

/// Lets through only frames of the size that the stream was begun with.
#[derive(Debug, Clone, Copy, PartialEq, Eq, Structural)]
pub struct FrameFilter {
    pub width: u32,
    pub height: u32,
    pub size_warned: bool,
}

/// What becomes of a frame of that size.
pub open spec fn fate_of(filter: FrameFilter, halted: bool, width: u32, height: u32) -> FrameFate {
    if halted {
        FrameFate::Ignored
    } else if width != filter.width || height != filter.height {
        FrameFate::Dropped { warn: !filter.size_warned }
    } else {
        FrameFate::Queued
    }
}

/// The filter once that frame has come.
pub open spec fn filter_after(
    filter: FrameFilter,
    halted: bool,
    width: u32,
    height: u32,
) -> FrameFilter {
    if fate_of(filter, halted, width, height) is Dropped {
        FrameFilter { size_warned: true, ..filter }
    } else {
        filter
    }
}

impl FrameFilter {
    /// A filter for frames of that size.
    pub fn new(width: u32, height: u32) -> (r: Self)
        ensures
            r == (FrameFilter { width, height, size_warned: false }),
    {
        FrameFilter { width, height, size_warned: false }
    }

    /// A frame arrived.
    pub fn on_frame_arrived(&mut self, halted: bool, width: u32, height: u32) -> (r: FrameFate)
        ensures
            r == fate_of(*old(self), halted, width, height),
            *final(self) == filter_after(*old(self), halted, width, height),
    {
        if halted {
            return FrameFate::Ignored;
        }
        if width != self.width || height != self.height {
            let warn: bool = !self.size_warned;
            self.size_warned = true;
            return FrameFate::Dropped { warn };
        }
        FrameFate::Queued
    }
}

/// A change of size is said once, and no frame of another size ever reaches the
/// encoder.
pub proof fn law_resize_is_said_once(filter: FrameFilter, a: (u32, u32), b: (u32, u32))
    requires
        fate_of(filter, false, a.0, a.1) is Dropped,
    ensures
        fate_of(filter_after(filter, false, a.0, a.1), false, b.0, b.1) != (FrameFate::Dropped {
            warn: true,
        }),
        fate_of(filter, false, b.0, b.1) == FrameFate::Queued <==> b == (filter.width, filter.height),
{
}

/// A frame is let through exactly where the recording goes on and the frame has the
/// size of the stream. The first one of another size brings a warning, no frame
/// brings a second one, and the size that counts never changes.
pub proof fn law_only_frames_of_the_stream_pass(
    filter: FrameFilter,
    halted: bool,
    width: u32,
    height: u32,
)
    ensures
        ({
            let fate = fate_of(filter, halted, width, height);
            let next = filter_after(filter, halted, width, height);
            let same = width == filter.width && height == filter.height;
            &&& fate is Queued <==> !halted && same
            &&& fate is Ignored <==> halted
            &&& fate == (FrameFate::Dropped { warn: true }) <==> !halted && !same
                && !filter.size_warned
            &&& next.size_warned <==> filter.size_warned || !halted && !same
            &&& next.width == filter.width && next.height == filter.height
        }),
{
}

} // verus!
