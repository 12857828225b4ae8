//! The capture engine: session lifecycle, staging-surface caching, frame
//! acquisition with recovery, and readback.
//!
//! The engine owns no graphics handles. Each call returns the [`Action`] that
//! the owner of the handles performs next; its outcome comes back as an
//! [`Event`], until an action ends the operation (`Ready`, `Deliver`, `Fail`).
use vstd::prelude::*;
use crate::region::{
    candidate_format, candidate_spec, classify_acquire_failure, classify_spec, AcquireFailure,
    CaptureError, PixelFormat, Region, FORMAT_CANDIDATES,
};
use crate::rows::{covers_rows, pack_rows, packed_rows};

verus! {

/// The group of values that a live duplication session fixes.
#[derive(Clone, Copy, Debug, PartialEq, Eq, Structural)]
pub struct Session {
    pub output_width: u32,
    pub output_height: u32,
    pub format: PixelFormat,
}

/// What a session is being set up for.
#[derive(Clone, Copy, Debug, PartialEq, Eq, Structural)]
pub enum Purpose {
    /// First setup, or a setup the owner asked for.
    Construct,
    /// A capture of the region found no session.
    Capture(Region),
    /// Acquisition of the region lost the device with the code.
    Recover(Region, i32),
}

/// What happens to the acquired frame once it is released.
#[derive(Clone, Copy, Debug, PartialEq, Eq, Structural)]
pub enum AfterRelease {
    /// The region was copied to the staging surface: read it back.
    ReadBack,
    /// The acquisition gave no frame data: deliver zero bytes.
    ZeroFill,
    /// The copy failed with the code.
    Failed(i32),
}

/// Where the engine stands between two calls.
#[derive(Debug)]
pub enum Phase {
    Idle,
    CreatingDevice(Purpose),
    StartingDuplication { purpose: Purpose, output_width: u32, output_height: u32, candidate: usize },
    Allocating(Region),
    Reallocating(Region, i32),
    Acquiring(Region),
    Copying(Region),
    Releasing(Region, AfterRelease),
    Mapping(Region),
    /// The packed bytes, or `None` where the mapped data did not cover the region.
    Unmapping(Region, Option<Vec<u8>>),
}

/// The work the owner of the graphics handles is to do next.
#[derive(Debug, PartialEq, Eq)]
pub enum Action {
    /// Release every session handle and the staging surface, create a device
    /// and its context, and read the size of the primary output.
    CreateDevice,
    /// Start duplicating the output in the format.
    StartDuplication(PixelFormat),
    /// Drop the staging surface and allocate a CPU-readable one of this size.
    AllocateStaging { width: u32, height: u32, format: PixelFormat },
    /// Acquire the next frame without waiting.
    AcquireFrame,
    /// Copy the region of the acquired frame to the staging surface.
    CopyRegion(Region),
    /// Release the acquired frame.
    ReleaseFrame,
    /// Map the staging surface for reading.
    MapStaging,
    /// Unmap the staging surface.
    UnmapStaging,
    /// The session is set up.
    Ready,
    /// The capture succeeded with these packed bytes.
    Deliver(Vec<u8>),
    /// The operation failed.
    Fail(CaptureError),
}

/// The outcome of an [`Action`].
#[derive(Debug, PartialEq, Eq)]
pub enum Event {
    DeviceCreated { output_width: u32, output_height: u32 },
    DeviceFailed,
    DuplicationStarted,
    DuplicationRefused,
    StagingAllocated,
    StagingFailed,
    /// A frame and its data were acquired.
    FrameAcquired,
    /// Acquisition succeeded but handed out no frame data.
    FrameEmpty,
    /// Acquisition failed with the status code.
    AcquireFailed(i32),
    RegionCopied,
    CopyFailed(i32),
    FrameReleased,
    /// The mapped bytes, from the start of the first row, and the row pitch.
    Mapped { data: Vec<u8>, row_pitch: u32 },
    MapFailed,
    Unmapped,
}

impl Action {
    /// The action ends the operation.
    pub open spec fn is_final(self) -> bool {
        self is Ready || self is Deliver || self is Fail
    }
}

/// The region that an operation in this phase captures.
pub open spec fn phase_region(p: Phase) -> Option<Region> {
    match p {
        Phase::CreatingDevice(Purpose::Capture(r)) => Some(r),
        Phase::CreatingDevice(Purpose::Recover(r, _)) => Some(r),
        Phase::StartingDuplication { purpose: Purpose::Capture(r), .. } => Some(r),
        Phase::StartingDuplication { purpose: Purpose::Recover(r, _), .. } => Some(r),
        Phase::Allocating(r) => Some(r),
        Phase::Reallocating(r, _) => Some(r),
        Phase::Acquiring(r) => Some(r),
        Phase::Copying(r) => Some(r),
        Phase::Releasing(r, _) => Some(r),
        Phase::Mapping(r) => Some(r),
        Phase::Unmapping(r, _) => Some(r),
        _ => None,
    }
}

/// An acquired frame is held, and has to be released.
pub open spec fn holds_frame(p: Phase) -> bool {
    p is Copying || p is Releasing
}

/// The staging surface is mapped, and has to be unmapped.
pub open spec fn holds_mapping(p: Phase) -> bool {
    p is Unmapping
}

/// The event answers the action that the phase waits on.
pub open spec fn answers(p: Phase, ev: Event) -> bool {
    match p {
        Phase::Idle => false,
        Phase::CreatingDevice(_) => ev is DeviceCreated || ev is DeviceFailed,
        Phase::StartingDuplication { .. } => ev is DuplicationStarted || ev is DuplicationRefused,
        Phase::Allocating(_) => ev is StagingAllocated || ev is StagingFailed,
        Phase::Reallocating(_, _) => ev is StagingAllocated || ev is StagingFailed,
        Phase::Acquiring(_) => ev is FrameAcquired || ev is FrameEmpty || ev is AcquireFailed,
        Phase::Copying(_) => ev is RegionCopied || ev is CopyFailed,
        Phase::Releasing(_, _) => ev is FrameReleased,
        Phase::Mapping(_) => ev is Mapped || ev is MapFailed,
        Phase::Unmapping(_, _) => ev is Unmapped,
    }
}

/// `n` zero bytes.
pub open spec fn zeros(n: int) -> Seq<u8> {
    Seq::new(n as nat, |i: int| 0u8)
}

/// The capture engine for one output.
pub struct DxgiCapture {
    session: Option<Session>,
    output_width: u32,
    output_height: u32,
    staging: Option<(u32, u32)>,
    allocations: u64,
    phase: Phase,
}

/// Where a region's packed bytes fit in memory.
pub open spec fn sized(r: Region) -> bool {
    r.byte_len() <= usize::MAX
}

impl DxgiCapture {
    pub closed spec fn session_spec(self) -> Option<Session> {
        self.session
    }

    pub closed spec fn output_width_spec(self) -> u32 {
        self.output_width
    }

    pub closed spec fn output_height_spec(self) -> u32 {
        self.output_height
    }

    /// Width and height of the staging surface, if there is one.
    pub closed spec fn staging_spec(self) -> Option<(u32, u32)> {
        self.staging
    }

    /// Staging surfaces allocated so far (saturating).
    pub closed spec fn allocations_spec(self) -> u64 {
        self.allocations
    }

    pub closed spec fn phase_spec(self) -> Phase {
        self.phase
    }

    pub open spec fn is_idle(self) -> bool {
        self.phase_spec() is Idle
    }

    /// The staging surface matches the region and the session is live.
    pub open spec fn staged_for(self, r: Region) -> bool {
        self.session_spec() is Some && self.staging_spec() == Some((r.width, r.height))
    }

    pub closed spec fn wf(self) -> bool {
        &&& self.staging is Some ==> self.session is Some
        &&& self.session matches Some(s) ==> s.output_width == self.output_width
            && s.output_height == self.output_height
        &&& match self.phase {
            Phase::Idle => true,
            Phase::CreatingDevice(p) => self.session is None && self.staging is None && purpose_ok(p),
            Phase::StartingDuplication { purpose, candidate, .. } => self.session is None
                && self.staging is None && purpose_ok(purpose) && candidate < FORMAT_CANDIDATES,
            Phase::Allocating(r) => self.session is Some && self.staging is None && sized(r)
                && r.fits(self.output_width, self.output_height),
            Phase::Reallocating(r, _) => self.session is Some && self.staging is None && sized(r),
            Phase::Unmapping(r, b) => self.staged_for(r) && sized(r)
                && r.fits(self.output_width, self.output_height)
                && (b matches Some(v) ==> v@.len() == r.byte_len()),
            _ => phase_region(self.phase) matches Some(r) && self.staged_for(r) && sized(r)
                && r.fits(self.output_width, self.output_height),
        }
    }

    /// The packed bytes that a mapped surface yields for the region.
    pub open spec fn readback(r: Region, data: Seq<u8>, row_pitch: u32) -> Option<Seq<u8>> {
        if covers_rows(data.len(), row_pitch as nat, r.row_len() as nat, r.height as nat) {
            Some(packed_rows(data, row_pitch as nat, r.row_len() as nat, r.height as nat))
        } else {
            None
        }
    }
}

pub open spec fn purpose_ok(p: Purpose) -> bool {
    match p {
        Purpose::Construct => true,
        Purpose::Capture(r) => sized(r),
        Purpose::Recover(r, _) => sized(r),
    }
}

/// `n` zero bytes.
fn zeroed(n: usize) -> (r: Vec<u8>)
    ensures
        r@ == zeros(n as int),
{
    let mut r: Vec<u8> = Vec::new();
    let mut i: usize = 0;
    while i < n
        invariant
            i <= n,
            r@ == zeros(i as int),
        decreases n - i,
    {
        r.push(0u8);
        assert(r@ == zeros(i + 1));
        i = i + 1;
    }
    r
}

/// The error that a failed session setup reports: during recovery from a
/// lost device every setup failure is a device failure.
pub open spec fn setup_error(p: Purpose, e: CaptureError) -> CaptureError {
    if p is Recover {
        CaptureError::DeviceInit
    } else {
        e
    }
}

fn setup_error_of(p: Purpose, e: CaptureError) -> (r: CaptureError)
    ensures
        r == setup_error(p, e),
{
    match p {
        Purpose::Recover(_, _) => CaptureError::DeviceInit,
        _ => e,
    }
}

/// One more allocation, saturating at the largest count.
pub open spec fn bumped(n: u64) -> u64 {
    if n < u64::MAX {
        (n + 1) as u64
    } else {
        n
    }
}

pub open spec fn opt_view(b: Option<Vec<u8>>) -> Option<Seq<u8>> {
    match b {
        Some(v) => Some(v@),
        None => None,
    }
}

impl DxgiCapture {
    /// `t` keeps everything of `s` but the phase.
    pub open spec fn kept(s: DxgiCapture, t: DxgiCapture) -> bool {
        &&& t.session_spec() == s.session_spec()
        &&& t.output_width_spec() == s.output_width_spec()
        &&& t.output_height_spec() == s.output_height_spec()
        &&& t.staging_spec() == s.staging_spec()
        &&& t.allocations_spec() == s.allocations_spec()
    }

    /// `t` is `s` with the session and the staging surface torn down.
    pub open spec fn torn_down(s: DxgiCapture, t: DxgiCapture) -> bool {
        &&& t.session_spec() is None
        &&& t.staging_spec() is None
        &&& t.output_width_spec() == s.output_width_spec()
        &&& t.output_height_spec() == s.output_height_spec()
        &&& t.allocations_spec() == s.allocations_spec()
    }

    /// Starting a capture of `r` in state `s` leads to state `t` and action `a`.
    pub open spec fn began(s: DxgiCapture, r: Region, t: DxgiCapture, a: Action) -> bool {
        if !r.fits(s.output_width_spec(), s.output_height_spec()) {
            t == s && a == Action::Fail(CaptureError::Validation)
        } else if !sized(r) {
            t == s && a == Action::Fail(CaptureError::Allocation)
        } else if s.session_spec() is None {
            Self::torn_down(s, t) && t.phase_spec() == Phase::CreatingDevice(Purpose::Capture(r))
                && a == Action::CreateDevice
        } else if s.staging_spec() == Some((r.width, r.height)) {
            Self::kept(s, t) && t.phase_spec() == Phase::Acquiring(r) && a == Action::AcquireFrame
        } else {
            &&& t.session_spec() == s.session_spec()
            &&& t.staging_spec() is None
            &&& t.output_width_spec() == s.output_width_spec()
            &&& t.output_height_spec() == s.output_height_spec()
            &&& t.allocations_spec() == s.allocations_spec()
            &&& t.phase_spec() == Phase::Allocating(r)
            &&& a == (Action::AllocateStaging {
                width: r.width,
                height: r.height,
                format: s.session_spec()->Some_0.format,
            })
        }
    }

    /// Handing event `ev` to state `s` leads to state `t` and action `a`.
    pub open spec fn stepped(s: DxgiCapture, ev: Event, t: DxgiCapture, a: Action) -> bool {
        match s.phase_spec() {
            Phase::Idle => false,
            Phase::CreatingDevice(p) => match ev {
                Event::DeviceCreated { output_width, output_height } => Self::kept(s, t)
                    && t.phase_spec() == (Phase::StartingDuplication {
                        purpose: p,
                        output_width,
                        output_height,
                        candidate: 0,
                    }) && a == Action::StartDuplication(candidate_spec(0)),
                _ => Self::kept(s, t) && t.phase_spec() is Idle
                    && a == Action::Fail(setup_error(p, CaptureError::DeviceInit)),
            },
            Phase::StartingDuplication { purpose, output_width, output_height, candidate } => {
                match ev {
                    Event::DuplicationStarted => {
                        let format = candidate_spec(candidate as nat);
                        &&& t.session_spec() == Some(Session { output_width, output_height, format })
                        &&& t.output_width_spec() == output_width
                        &&& t.output_height_spec() == output_height
                        &&& t.staging_spec() is None
                        &&& t.allocations_spec() == s.allocations_spec()
                        &&& match purpose {
                            Purpose::Construct => t.phase_spec() is Idle && a == Action::Ready,
                            Purpose::Capture(r) => if r.fits(output_width, output_height) {
                                t.phase_spec() == Phase::Allocating(r) && a == (Action::AllocateStaging {
                                    width: r.width,
                                    height: r.height,
                                    format,
                                })
                            } else {
                                t.phase_spec() is Idle && a == Action::Fail(CaptureError::Validation)
                            },
                            Purpose::Recover(r, c) => t.phase_spec() == Phase::Reallocating(r, c) && a
                                == (Action::AllocateStaging { width: r.width, height: r.height, format }),
                        }
                    },
                    _ => Self::kept(s, t) && if candidate + 1 < FORMAT_CANDIDATES {
                        t.phase_spec() == (Phase::StartingDuplication {
                            purpose,
                            output_width,
                            output_height,
                            candidate: (candidate + 1) as usize,
                        }) && a == Action::StartDuplication(candidate_spec((candidate + 1) as nat))
                    } else {
                        t.phase_spec() is Idle && a == Action::Fail(setup_error(purpose, CaptureError::Duplication))
                    },
                }
            },
            Phase::Allocating(r) => match ev {
                Event::StagingAllocated => {
                    &&& t.session_spec() == s.session_spec()
                    &&& t.output_width_spec() == s.output_width_spec()
                    &&& t.output_height_spec() == s.output_height_spec()
                    &&& t.staging_spec() == Some((r.width, r.height))
                    &&& t.allocations_spec() == bumped(s.allocations_spec())
                    &&& t.phase_spec() == Phase::Acquiring(r)
                    &&& a == Action::AcquireFrame
                },
                _ => Self::kept(s, t) && t.phase_spec() is Idle && a == Action::Fail(CaptureError::Allocation),
            },
            Phase::Reallocating(r, c) => match ev {
                Event::StagingAllocated => {
                    &&& t.session_spec() == s.session_spec()
                    &&& t.output_width_spec() == s.output_width_spec()
                    &&& t.output_height_spec() == s.output_height_spec()
                    &&& t.staging_spec() == Some((r.width, r.height))
                    &&& t.allocations_spec() == bumped(s.allocations_spec())
                    &&& t.phase_spec() is Idle
                    &&& a == Action::Fail(CaptureError::TransientCapture(c))
                },
                _ => Self::kept(s, t) && t.phase_spec() is Idle && a == Action::Fail(CaptureError::Allocation),
            },
            Phase::Acquiring(r) => match ev {
                Event::FrameAcquired => Self::kept(s, t) && t.phase_spec() == Phase::Copying(r)
                    && a == Action::CopyRegion(r),
                Event::FrameEmpty => Self::kept(s, t) && t.phase_spec() == Phase::Releasing(r, AfterRelease::ZeroFill)
                    && a == Action::ReleaseFrame,
                Event::AcquireFailed(c) => match classify_spec(c) {
                    AcquireFailure::NoNewFrame => Self::kept(s, t) && t.phase_spec() is Idle
                        && (a matches Action::Deliver(b) && b@ == zeros(r.byte_len())),
                    AcquireFailure::DeviceLoss => Self::torn_down(s, t)
                        && t.phase_spec() == Phase::CreatingDevice(Purpose::Recover(r, c)) && a == Action::CreateDevice,
                    AcquireFailure::Other => Self::kept(s, t) && t.phase_spec() is Idle
                        && a == Action::Fail(CaptureError::FatalCapture(c)),
                },
                _ => false,
            },
            Phase::Copying(r) => match ev {
                Event::RegionCopied => Self::kept(s, t) && t.phase_spec() == Phase::Releasing(r, AfterRelease::ReadBack)
                    && a == Action::ReleaseFrame,
                Event::CopyFailed(c) => Self::kept(s, t) && t.phase_spec() == Phase::Releasing(r, AfterRelease::Failed(c))
                    && a == Action::ReleaseFrame,
                _ => false,
            },
            Phase::Releasing(r, after) => Self::kept(s, t) && match after {
                AfterRelease::ReadBack => t.phase_spec() == Phase::Mapping(r) && a == Action::MapStaging,
                AfterRelease::ZeroFill => t.phase_spec() is Idle
                    && (a matches Action::Deliver(b) && b@ == zeros(r.byte_len())),
                AfterRelease::Failed(c) => t.phase_spec() is Idle && a == Action::Fail(CaptureError::FatalCapture(c)),
            },
            Phase::Mapping(r) => match ev {
                Event::Mapped { data, row_pitch } => Self::kept(s, t) && a == Action::UnmapStaging
                    && (t.phase_spec() matches Phase::Unmapping(r2, b) && r2 == r
                    && opt_view(b) == Self::readback(r, data@, row_pitch)),
                _ => Self::kept(s, t) && t.phase_spec() is Idle && a == Action::Fail(CaptureError::Mapping),
            },
            Phase::Unmapping(r, b) => Self::kept(s, t) && t.phase_spec() is Idle && match b {
                Some(v) => a matches Action::Deliver(w) && w@ == v@,
                None => a == Action::Fail(CaptureError::Mapping),
            },
        }
    }
}

impl DxgiCapture {
    /// An engine with no session yet; call [`DxgiCapture::initialize`] to set one up.
    pub fn new() -> (r: DxgiCapture)
        ensures
            r.wf(),
            r.is_idle(),
            r.session_spec() is None,
            r.staging_spec() is None,
            r.allocations_spec() == 0,
            r.output_width_spec() == 0,
            r.output_height_spec() == 0,
    {
        DxgiCapture {
            session: None,
            output_width: 0,
            output_height: 0,
            staging: None,
            allocations: 0,
            phase: Phase::Idle,
        }
    }

    /// Tears down the session and the staging surface and starts setting up
    /// a new session.
    pub fn initialize(&mut self) -> (a: Action)
        requires
            old(self).wf(),
            old(self).is_idle(),
        ensures
            final(self).wf(),
            Self::torn_down(*old(self), *final(self)),
            final(self).phase_spec() == Phase::CreatingDevice(Purpose::Construct),
            a == Action::CreateDevice,
    {
        self.session = None;
        self.staging = None;
        self.phase = Phase::CreatingDevice(Purpose::Construct);
        Action::CreateDevice
    }

    /// Drops the session and the staging surface; the owner releases their
    /// handles. Doing it again changes nothing.
    pub fn release_resources(&mut self)
        requires
            old(self).wf(),
            old(self).is_idle(),
        ensures
            final(self).wf(),
            final(self).is_idle(),
            Self::torn_down(*old(self), *final(self)),
    {
        self.session = None;
        self.staging = None;
    }

    /// Starts capturing the rectangle at (`left`, `top`) of `width` by
    /// `height` pixels. A rectangle outside the output fails at once and
    /// changes nothing.
    pub fn capture_region(&mut self, left: u32, top: u32, width: u32, height: u32) -> (a: Action)
        requires
            old(self).wf(),
            old(self).is_idle(),
        ensures
            final(self).wf(),
            Self::began(*old(self), Region { left, top, width, height }, *final(self), a),
            final(self).is_idle() <==> a.is_final(),
            !(Region { left, top, width, height }).fits(old(self).output_width_spec(), old(self).output_height_spec())
                ==> a == Action::Fail(CaptureError::Validation) && *final(self) == *old(self),
            final(self).allocations_spec() == old(self).allocations_spec(),
    {
        let r = Region::new(left, top, width, height);
        if !r.fits_within(self.output_width, self.output_height) {
            return Action::Fail(CaptureError::Validation);
        }
        if r.packed_len().is_none() {
            return Action::Fail(CaptureError::Allocation);
        }
        match self.session {
            None => {
                self.staging = None;
                self.phase = Phase::CreatingDevice(Purpose::Capture(r));
                Action::CreateDevice
            },
            Some(sess) => {
                let reuse = match self.staging {
                    Some((w, h)) => w == width && h == height,
                    None => false,
                };
                if reuse {
                    self.phase = Phase::Acquiring(r);
                    Action::AcquireFrame
                } else {
                    self.staging = None;
                    self.phase = Phase::Allocating(r);
                    Action::AllocateStaging { width, height, format: sess.format }
                }
            },
        }
    }

    /// Whether `ev` answers the action the engine waits on.
    pub fn accepts(&self, ev: &Event) -> (r: bool)
        ensures
            r == answers(self.phase_spec(), *ev),
    {
        match self.phase {
            Phase::Idle => false,
            Phase::CreatingDevice(_) => matches!(ev, Event::DeviceCreated { .. } | Event::DeviceFailed),
            Phase::StartingDuplication { .. } => matches!(ev, Event::DuplicationStarted | Event::DuplicationRefused),
            Phase::Allocating(_) => matches!(ev, Event::StagingAllocated | Event::StagingFailed),
            Phase::Reallocating(_, _) => matches!(ev, Event::StagingAllocated | Event::StagingFailed),
            Phase::Acquiring(_) => matches!(ev, Event::FrameAcquired | Event::FrameEmpty | Event::AcquireFailed(_)),
            Phase::Copying(_) => matches!(ev, Event::RegionCopied | Event::CopyFailed(_)),
            Phase::Releasing(_, _) => matches!(ev, Event::FrameReleased),
            Phase::Mapping(_) => matches!(ev, Event::Mapped { .. } | Event::MapFailed),
            Phase::Unmapping(_, _) => matches!(ev, Event::Unmapped),
        }
    }
}

impl DxgiCapture {
    /// Packs the mapped bytes of the region, where they cover it.
    fn read_back(r: Region, data: &Vec<u8>, row_pitch: u32) -> (b: Option<Vec<u8>>)
        requires
            sized(r),
        ensures
            opt_view(b) == Self::readback(r, data@, row_pitch),
            b matches Some(v) ==> v@.len() == r.byte_len(),
    {
        let rows = r.height as usize;
        let pitch = row_pitch as usize;
        let row_bytes: u64 = (r.width as u64) * 4;
        if row_bytes > pitch as u64 {
            return None;
        }
        let row_bytes = row_bytes as usize;
        if rows > 0 {
            let last = (r.height - 1) as u128;
            let p = row_pitch as u128;
            assert(last * p <= 0xffff_ffff * 0xffff_ffff) by (nonlinear_arith)
                requires last <= 0xffff_ffff, p <= 0xffff_ffff;
            if last * p + (row_bytes as u128) > data.len() as u128 {
                return None;
            }
        }
        let v = pack_rows(data, pitch, row_bytes, rows);
        assert(v@.len() == r.byte_len()) by (nonlinear_arith)
            requires v@.len() == rows * row_bytes, rows == r.height, row_bytes == r.width * 4;
        Some(v)
    }

    /// Hands the outcome of the last action to the engine, and returns the
    /// next action.
    pub fn step(&mut self, ev: Event) -> (a: Action)
        requires
            old(self).wf(),
            answers(old(self).phase_spec(), ev),
        ensures
            final(self).wf(),
            Self::stepped(*old(self), ev, *final(self), a),
            final(self).is_idle() <==> a.is_final(),
            a matches Action::Deliver(b) ==> (phase_region(old(self).phase_spec()) matches Some(r)
                && b@.len() == r.byte_len() && final(self).staged_for(r)
                && r.fits(final(self).output_width_spec(), final(self).output_height_spec())),
            holds_frame(old(self).phase_spec()) && !holds_frame(final(self).phase_spec()) ==> ev is FrameReleased,
            holds_mapping(old(self).phase_spec()) && !holds_mapping(final(self).phase_spec()) ==> ev is Unmapped,
            final(self).allocations_spec() != old(self).allocations_spec() ==> ev is StagingAllocated,
    {
        let mut phase = Phase::Idle;
        core::mem::swap(&mut self.phase, &mut phase);
        match phase {
            // Not reached: no event answers an idle engine.
            Phase::Idle => Action::Fail(CaptureError::Validation),
            Phase::CreatingDevice(p) => match ev {
                Event::DeviceCreated { output_width, output_height } => {
                    self.phase = Phase::StartingDuplication { purpose: p, output_width, output_height, candidate: 0 };
                    Action::StartDuplication(candidate_format(0))
                },
                _ => Action::Fail(setup_error_of(p, CaptureError::DeviceInit)),
            },
            Phase::StartingDuplication { purpose, output_width, output_height, candidate } => match ev {
                Event::DuplicationStarted => {
                    let format = candidate_format(candidate);
                    self.session = Some(Session { output_width, output_height, format });
                    self.output_width = output_width;
                    self.output_height = output_height;
                    match purpose {
                        Purpose::Construct => Action::Ready,
                        Purpose::Capture(r) => if r.fits_within(output_width, output_height) {
                            self.phase = Phase::Allocating(r);
                            Action::AllocateStaging { width: r.width, height: r.height, format }
                        } else {
                            Action::Fail(CaptureError::Validation)
                        },
                        Purpose::Recover(r, c) => {
                            self.phase = Phase::Reallocating(r, c);
                            Action::AllocateStaging { width: r.width, height: r.height, format }
                        },
                    }
                },
                _ => if candidate + 1 < FORMAT_CANDIDATES {
                    self.phase = Phase::StartingDuplication {
                        purpose,
                        output_width,
                        output_height,
                        candidate: candidate + 1,
                    };
                    Action::StartDuplication(candidate_format(candidate + 1))
                } else {
                    Action::Fail(setup_error_of(purpose, CaptureError::Duplication))
                },
            },
            Phase::Allocating(r) => match ev {
                Event::StagingAllocated => {
                    self.staging = Some((r.width, r.height));
                    self.count_allocation();
                    self.phase = Phase::Acquiring(r);
                    Action::AcquireFrame
                },
                _ => Action::Fail(CaptureError::Allocation),
            },
            Phase::Reallocating(r, c) => match ev {
                Event::StagingAllocated => {
                    self.staging = Some((r.width, r.height));
                    self.count_allocation();
                    Action::Fail(CaptureError::TransientCapture(c))
                },
                _ => Action::Fail(CaptureError::Allocation),
            },
            Phase::Acquiring(r) => match ev {
                Event::FrameAcquired => {
                    self.phase = Phase::Copying(r);
                    Action::CopyRegion(r)
                },
                Event::FrameEmpty => {
                    self.phase = Phase::Releasing(r, AfterRelease::ZeroFill);
                    Action::ReleaseFrame
                },
                Event::AcquireFailed(c) => match classify_acquire_failure(c) {
                    AcquireFailure::NoNewFrame => {
                        let n = r.packed_len().unwrap();
                        Action::Deliver(zeroed(n))
                    },
                    AcquireFailure::DeviceLoss => {
                        self.session = None;
                        self.staging = None;
                        self.phase = Phase::CreatingDevice(Purpose::Recover(r, c));
                        Action::CreateDevice
                    },
                    AcquireFailure::Other => Action::Fail(CaptureError::FatalCapture(c)),
                },
                // Not reached: only acquisition outcomes answer this phase.
                _ => Action::Fail(CaptureError::Validation),
            },
            Phase::Copying(r) => match ev {
                Event::CopyFailed(c) => {
                    self.phase = Phase::Releasing(r, AfterRelease::Failed(c));
                    Action::ReleaseFrame
                },
                _ => {
                    self.phase = Phase::Releasing(r, AfterRelease::ReadBack);
                    Action::ReleaseFrame
                },
            },
            Phase::Releasing(r, after) => match after {
                AfterRelease::ReadBack => {
                    self.phase = Phase::Mapping(r);
                    Action::MapStaging
                },
                AfterRelease::ZeroFill => {
                    let n = r.packed_len().unwrap();
                    Action::Deliver(zeroed(n))
                },
                AfterRelease::Failed(c) => Action::Fail(CaptureError::FatalCapture(c)),
            },
            Phase::Mapping(r) => match ev {
                Event::Mapped { data, row_pitch } => {
                    let b = Self::read_back(r, &data, row_pitch);
                    self.phase = Phase::Unmapping(r, b);
                    Action::UnmapStaging
                },
                _ => Action::Fail(CaptureError::Mapping),
            },
            Phase::Unmapping(_, b) => match b {
                Some(v) => Action::Deliver(v),
                None => Action::Fail(CaptureError::Mapping),
            },
        }
    }

    fn count_allocation(&mut self)
        ensures
            final(self).allocations == bumped(old(self).allocations),
            final(self).session == old(self).session,
            final(self).staging == old(self).staging,
            final(self).output_width == old(self).output_width,
            final(self).output_height == old(self).output_height,
            final(self).phase == old(self).phase,
    {
        if self.allocations < u64::MAX {
            self.allocations = self.allocations + 1;
        }
    }
}

impl DxgiCapture {
    /// Width of the captured output, as of the last session set up.
    pub fn output_width(&self) -> (r: u32)
        ensures
            r == self.output_width_spec(),
    {
        self.output_width
    }

    /// Height of the captured output, as of the last session set up.
    pub fn output_height(&self) -> (r: u32)
        ensures
            r == self.output_height_spec(),
    {
        self.output_height
    }

    /// How many staging surfaces have been allocated.
    pub fn allocation_count(&self) -> (r: u64)
        ensures
            r == self.allocations_spec(),
    {
        self.allocations
    }

    /// The size the staging surface was allocated for, if there is one.
    pub fn staging_size(&self) -> (r: Option<(u32, u32)>)
        ensures
            r == self.staging_spec(),
    {
        self.staging
    }

    /// The format of the live session, if there is one.
    pub fn pixel_format(&self) -> (r: Option<PixelFormat>)
        ensures
            r == (match self.session_spec() {
                Some(s) => Some(s.format),
                None => None,
            }),
    {
        match self.session {
            Some(s) => Some(s.format),
            None => None,
        }
    }

    /// Whether a duplication session is live.
    pub fn is_initialized(&self) -> (r: bool)
        ensures
            r == self.session_spec() is Some,
    {
        self.session.is_some()
    }

    /// Whether no operation is under way.
    pub fn is_ready(&self) -> (r: bool)
        ensures
            r == self.is_idle(),
    {
        match self.phase {
            Phase::Idle => true,
            _ => false,
        }
    }
}

/// `states`, `events` and `actions` record one capture of `r` started in
/// `start`: the first state and action are those of `capture_region`, and
/// each later pair is what `step` made of the event before it.
pub open spec fn is_capture_run(
    start: DxgiCapture,
    r: Region,
    states: Seq<DxgiCapture>,
    events: Seq<Event>,
    actions: Seq<Action>,
) -> bool {
    &&& start.wf()
    &&& start.is_idle()
    &&& states.len() == events.len() + 1
    &&& actions.len() == states.len()
    &&& DxgiCapture::began(start, r, states[0], actions[0])
    &&& forall|i: int|
        0 <= i < events.len() ==> #[trigger] DxgiCapture::stepped(states[i], events[i], states[i + 1], actions[i + 1])
    &&& forall|i: int| 0 <= i < states.len() ==> #[trigger] states[i].wf()
}

/// The allocation count a delivered capture of `r` from `start` ends with.
pub open spec fn allocations_after(start: DxgiCapture, r: Region) -> u64 {
    if start.staged_for(r) {
        start.allocations_spec()
    } else {
        bumped(start.allocations_spec())
    }
}

spec fn run_inv(start: DxgiCapture, r: Region, s: DxgiCapture, a: Action) -> bool {
    &&& a.is_final() ==> s.phase is Idle
    &&& match s.phase {
        Phase::Idle => (a matches Action::Deliver(b) ==> b@.len() == r.byte_len()
            && s.allocations == allocations_after(start, r) && s.staged_for(r))
            && (a matches Action::Fail(CaptureError::TransientCapture(_)) ==> s.staged_for(r) && sized(r)),
        Phase::CreatingDevice(p) => match p {
            Purpose::Capture(r2) => r2 == r && s.allocations == start.allocations && !start.staged_for(r),
            Purpose::Recover(r2, _) => r2 == r,
            Purpose::Construct => false,
        },
        Phase::StartingDuplication { purpose, .. } => match purpose {
            Purpose::Capture(r2) => r2 == r && s.allocations == start.allocations && !start.staged_for(r),
            Purpose::Recover(r2, _) => r2 == r,
            Purpose::Construct => false,
        },
        Phase::Allocating(r2) => r2 == r && s.allocations == start.allocations && !start.staged_for(r),
        Phase::Reallocating(r2, _) => r2 == r,
        _ => phase_region(s.phase) == Some(r) && s.allocations == allocations_after(start, r),
    }
}

proof fn lemma_run_inv(
    start: DxgiCapture,
    r: Region,
    states: Seq<DxgiCapture>,
    events: Seq<Event>,
    actions: Seq<Action>,
    i: int,
)
    requires
        is_capture_run(start, r, states, events, actions),
        0 <= i < states.len(),
    ensures
        run_inv(start, r, states[i], actions[i]),
    decreases i,
{
    if i > 0 {
        let j = i - 1;
        lemma_run_inv(start, r, states, events, actions, j);
        assert(DxgiCapture::stepped(states[j], events[j], states[j + 1], actions[j + 1]));
        assert(states[j].wf());
        assert(states[j + 1].wf());
    } else {
        assert(states[0].wf());
    }
}

/// A capture that delivers hands out exactly `width * height * 4` bytes for
/// the rectangle it was asked for, and leaves the engine idle with a staging
/// surface of the rectangle's size.
pub proof fn lemma_delivered_capture(
    start: DxgiCapture,
    r: Region,
    states: Seq<DxgiCapture>,
    events: Seq<Event>,
    actions: Seq<Action>,
)
    requires
        is_capture_run(start, r, states, events, actions),
        actions.last() is Deliver,
    ensures
        actions.last()->Deliver_0@.len() == r.byte_len(),
        states.last().is_idle(),
        states.last().staged_for(r),
        states.last().allocations_spec() == allocations_after(start, r),
{
    lemma_run_inv(start, r, states, events, actions, states.len() - 1);
}

/// Two successive delivered captures of rectangles of the same size: the
/// second allocates no staging surface.
pub proof fn lemma_same_size_keeps_staging(
    start: DxgiCapture,
    r1: Region,
    states1: Seq<DxgiCapture>,
    events1: Seq<Event>,
    actions1: Seq<Action>,
    r2: Region,
    states2: Seq<DxgiCapture>,
    events2: Seq<Event>,
    actions2: Seq<Action>,
)
    requires
        is_capture_run(start, r1, states1, events1, actions1),
        actions1.last() is Deliver,
        is_capture_run(states1.last(), r2, states2, events2, actions2),
        actions2.last() is Deliver,
        r1.same_size(r2),
    ensures
        states2.last().allocations_spec() == states1.last().allocations_spec(),
{
    lemma_delivered_capture(start, r1, states1, events1, actions1);
    lemma_delivered_capture(states1.last(), r2, states2, events2, actions2);
}

/// Two successive delivered captures of rectangles of different sizes: the
/// second allocates exactly one staging surface.
pub proof fn lemma_new_size_allocates_once(
    start: DxgiCapture,
    r1: Region,
    states1: Seq<DxgiCapture>,
    events1: Seq<Event>,
    actions1: Seq<Action>,
    r2: Region,
    states2: Seq<DxgiCapture>,
    events2: Seq<Event>,
    actions2: Seq<Action>,
)
    requires
        is_capture_run(start, r1, states1, events1, actions1),
        actions1.last() is Deliver,
        is_capture_run(states1.last(), r2, states2, events2, actions2),
        actions2.last() is Deliver,
        !r1.same_size(r2),
        states1.last().allocations_spec() < u64::MAX,
    ensures
        states2.last().allocations_spec() == states1.last().allocations_spec() + 1,
{
    lemma_delivered_capture(start, r1, states1, events1, actions1);
    lemma_delivered_capture(states1.last(), r2, states2, events2, actions2);
}

/// A capture that fails because the device was lost leaves a rebuilt
/// session and a staging surface of the rectangle's size, so the next
/// capture of the same rectangle, if it still fits, goes straight to
/// acquiring a frame.
pub proof fn lemma_device_loss_recovers(
    start: DxgiCapture,
    r: Region,
    states: Seq<DxgiCapture>,
    events: Seq<Event>,
    actions: Seq<Action>,
    next: DxgiCapture,
    next_action: Action,
)
    requires
        is_capture_run(start, r, states, events, actions),
        actions.last() matches Action::Fail(CaptureError::TransientCapture(_)),
        DxgiCapture::began(states.last(), r, next, next_action),
        r.fits(states.last().output_width_spec(), states.last().output_height_spec()),
    ensures
        states.last().is_idle(),
        states.last().staged_for(r),
        next_action == Action::AcquireFrame,
        next.allocations_spec() == states.last().allocations_spec(),
{
    lemma_run_inv(start, r, states, events, actions, states.len() - 1);
}

} // verus!
