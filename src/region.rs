//! Requested rectangles, pixel formats and the error taxonomy.
use vstd::prelude::*;

verus! {

/// A rectangle of the captured output, in pixels.
#[derive(Clone, Copy, Debug, PartialEq, Eq, Structural)]
pub struct Region {
    pub left: u32,
    pub top: u32,
    pub width: u32,
    pub height: u32,
}

impl Region {
    /// The rectangle lies inside an output of `output_width` by `output_height`.
    pub open spec fn fits(self, output_width: u32, output_height: u32) -> bool {
        &&& self.left + self.width <= output_width
        &&& self.top + self.height <= output_height
    }

    /// Size in bytes of the packed pixels of the rectangle.
    pub open spec fn byte_len(self) -> int {
        self.width * self.height * 4
    }

    /// Size in bytes of one packed row.
    pub open spec fn row_len(self) -> int {
        self.width * 4
    }

    /// Both rectangles have the same width and height.
    pub open spec fn same_size(self, other: Region) -> bool {
        self.width == other.width && self.height == other.height
    }

    /// The rectangle at (`left`, `top`) of `width` by `height` pixels.
    pub fn new(left: u32, top: u32, width: u32, height: u32) -> (r: Region)
        ensures
            r == (Region { left, top, width, height }),
    {
        Region { left, top, width, height }
    }

    /// Whether the rectangle lies inside the output; computed without overflow.
    pub fn fits_within(&self, output_width: u32, output_height: u32) -> (r: bool)
        ensures
            r == self.fits(output_width, output_height),
    {
        (self.left as u64) + (self.width as u64) <= (output_width as u64)
            && (self.top as u64) + (self.height as u64) <= (output_height as u64)
    }

    /// The packed size in bytes, where it can be held in memory.
    pub fn packed_len(&self) -> (r: Option<usize>)
        ensures
            r matches Some(n) ==> n == self.byte_len(),
            r is None <==> self.byte_len() > usize::MAX,
    {
        let w = self.width as u128;
        let h = self.height as u128;
        assert(w * h * 4 <= 0xffff_ffff * 0xffff_ffff * 4) by (nonlinear_arith)
            requires w <= 0xffff_ffff, h <= 0xffff_ffff;
        let n: u128 = w * h * 4;
        if n <= usize::MAX as u128 {
            Some(n as usize)
        } else {
            None
        }
    }
}

/// The channel layout of captured pixels, fixed when a session starts.
#[derive(Clone, Copy, Debug, PartialEq, Eq, Structural)]
pub enum PixelFormat {
    /// Eight bits per channel, blue first.
    Bgra8Unorm,
    /// Eight bits per channel, red first.
    Rgba8Unorm,
    /// Sixteen-bit floating point per channel.
    Rgba16Float,
}

/// How many formats a session tries before giving up.
pub const FORMAT_CANDIDATES: usize = 3;

/// The formats a session tries, in order of preference.
pub open spec fn candidate_spec(i: nat) -> PixelFormat {
    if i == 0 {
        PixelFormat::Bgra8Unorm
    } else if i == 1 {
        PixelFormat::Rgba8Unorm
    } else {
        PixelFormat::Rgba16Float
    }
}

pub fn candidate_format(i: usize) -> (r: PixelFormat)
    requires
        i < FORMAT_CANDIDATES,
    ensures
        r == candidate_spec(i as nat),
{
    if i == 0 {
        PixelFormat::Bgra8Unorm
    } else if i == 1 {
        PixelFormat::Rgba8Unorm
    } else {
        PixelFormat::Rgba16Float
    }
}

/// Why a capture, or the setting up of a session, failed.
#[derive(Clone, Copy, Debug, PartialEq, Eq, Structural)]
pub enum CaptureError {
    /// The rectangle does not lie inside the output.
    Validation,
    /// No device or output could be created.
    DeviceInit,
    /// The output accepted none of the candidate formats.
    Duplication,
    /// The staging surface could not be allocated.
    Allocation,
    /// The device was lost; the session has been rebuilt, the next call may succeed.
    TransientCapture(i32),
    /// Frame acquisition or copy failed for another reason.
    FatalCapture(i32),
    /// The staging surface could not be read.
    Mapping,
}

/// Status code: the duplication interface is no longer valid.
pub const ACCESS_LOST: i32 = -2005270490;
/// Status code: the graphics device was removed.
pub const DEVICE_REMOVED: i32 = -2005270523;
/// Status code: the graphics device was reset.
pub const DEVICE_RESET: i32 = -2005270521;
/// Status code: the desktop session was disconnected.
pub const SESSION_DISCONNECTED: i32 = -2005270488;
/// Status code: no new frame arrived within the wait.
pub const WAIT_TIMEOUT: i32 = -2005270489;

/// Codes after which the session has to be rebuilt.
pub open spec fn is_device_loss(code: i32) -> bool {
    code == ACCESS_LOST || code == DEVICE_REMOVED || code == DEVICE_RESET || code == SESSION_DISCONNECTED
}

/// What a failed acquisition means for the capture.
#[derive(Clone, Copy, Debug, PartialEq, Eq, Structural)]
pub enum AcquireFailure {
    /// No new frame is available yet.
    NoNewFrame,
    /// The device or session was lost; rebuild it.
    DeviceLoss,
    /// Anything else.
    Other,
}

pub open spec fn classify_spec(code: i32) -> AcquireFailure {
    if code == WAIT_TIMEOUT {
        AcquireFailure::NoNewFrame
    } else if is_device_loss(code) {
        AcquireFailure::DeviceLoss
    } else {
        AcquireFailure::Other
    }
}

pub fn classify_acquire_failure(code: i32) -> (r: AcquireFailure)
    ensures
        r == classify_spec(code),
{
    if code == WAIT_TIMEOUT {
        AcquireFailure::NoNewFrame
    } else if code == ACCESS_LOST || code == DEVICE_REMOVED || code == DEVICE_RESET
        || code == SESSION_DISCONNECTED {
        AcquireFailure::DeviceLoss
    } else {
        AcquireFailure::Other
    }
}

} // verus!
