//! Pixel layouts and the errors a single frame can run into.

use vstd::prelude::*;

verus! {

/// The interleaved 8-bit layouts a frame may arrive in.
#[derive(Clone, Copy, Debug, PartialEq, Eq, Structural)]
pub enum TextureFormat {
    RGBU8,
    RGBAU8,
    BGRU8,
    BGRAU8,
}

/// The layout a capture pipeline reports for a frame: one of the four that
/// can be handled, or anything else.
#[derive(Clone, Copy, Debug, PartialEq, Eq, Structural)]
pub enum ReportedFormat {
    Rgb,
    Rgba,
    Bgr,
    Bgra,
    Other,
}

/// Why a single frame was dropped.
#[derive(Clone, Copy, Debug, PartialEq, Eq, Structural)]
pub enum FrameError {
    /// The byte count does not match the declared width, height and layout.
    MalformedFrame,
    /// The reported layout is none of the four supported ones.
    UnsupportedFormat,
}

impl TextureFormat {
    /// Bytes taken by one pixel in this layout.
    pub open spec fn spec_channel_count(self) -> nat {
        match self {
            TextureFormat::RGBU8 => 3,
            TextureFormat::RGBAU8 => 4,
            TextureFormat::BGRU8 => 3,
            TextureFormat::BGRAU8 => 4,
        }
    }

    /// Where, inside one pixel of this layout, the given canonical channel
    /// (0 red, 1 green, 2 blue) is stored.
    pub open spec fn channel_offset(self, channel: int) -> int {
        match self {
            TextureFormat::RGBU8 => channel,
            TextureFormat::RGBAU8 => channel,
            TextureFormat::BGRU8 => 2 - channel,
            TextureFormat::BGRAU8 => 2 - channel,
        }
    }

    /// Bytes taken by one pixel in this layout.
    pub fn channel_count(self) -> (n: usize)
        ensures
            n == self.spec_channel_count(),
    {
        match self {
            TextureFormat::RGBU8 => 3,
            TextureFormat::RGBAU8 => 4,
            TextureFormat::BGRU8 => 3,
            TextureFormat::BGRAU8 => 4,
        }
    }

    /// The supported layout that a reported one stands for, if any.
    pub open spec fn spec_from_reported(reported: ReportedFormat) -> Result<
        TextureFormat,
        FrameError,
    > {
        match reported {
            ReportedFormat::Rgb => Ok(TextureFormat::RGBU8),
            ReportedFormat::Rgba => Ok(TextureFormat::RGBAU8),
            ReportedFormat::Bgr => Ok(TextureFormat::BGRU8),
            ReportedFormat::Bgra => Ok(TextureFormat::BGRAU8),
            ReportedFormat::Other => Err(FrameError::UnsupportedFormat),
        }
    }

    /// Maps a reported layout to a supported one; anything else is refused
    /// with `UnsupportedFormat`.
    pub fn from_reported(reported: ReportedFormat) -> (r: Result<TextureFormat, FrameError>)
        ensures
            r == Self::spec_from_reported(reported),
    {
        match reported {
            ReportedFormat::Rgb => Ok(TextureFormat::RGBU8),
            ReportedFormat::Rgba => Ok(TextureFormat::RGBAU8),
            ReportedFormat::Bgr => Ok(TextureFormat::BGRU8),
            ReportedFormat::Bgra => Ok(TextureFormat::BGRAU8),
            ReportedFormat::Other => Err(FrameError::UnsupportedFormat),
        }
    }
}

} // verus!
