use dxgi_capture::{
    classify_acquire_failure, pack_rows, AcquireFailure, Action, CaptureError, DxgiCapture, Event,
    PixelFormat, Region, ACCESS_LOST, DEVICE_REMOVED, DEVICE_RESET, SESSION_DISCONNECTED,
    WAIT_TIMEOUT,
};

/// Byte `i` of a simulated mapped surface.
fn pattern(i: usize) -> u8 {
    (i % 251) as u8
}

fn mapped(height: u32, pitch: u32) -> Event {
    let n = (height as usize) * (pitch as usize);
    Event::Mapped { data: (0..n).map(pattern).collect(), row_pitch: pitch }
}

fn ready_engine(width: u32, height: u32) -> DxgiCapture {
    let mut e = DxgiCapture::new();
    assert_eq!(e.initialize(), Action::CreateDevice);
    assert_eq!(
        e.step(Event::DeviceCreated { output_width: width, output_height: height }),
        Action::StartDuplication(PixelFormat::Bgra8Unorm)
    );
    assert_eq!(e.step(Event::DuplicationStarted), Action::Ready);
    e
}

/// Answers every action with success until the capture ends.
fn finish(e: &mut DxgiCapture, mut a: Action, output: (u32, u32), pitch: u32) -> Result<Vec<u8>, CaptureError> {
    let mut height = 0u32;
    loop {
        let ev = match a {
            Action::CreateDevice => Event::DeviceCreated { output_width: output.0, output_height: output.1 },
            Action::StartDuplication(_) => Event::DuplicationStarted,
            Action::AllocateStaging { height: h, .. } => {
                height = h;
                Event::StagingAllocated
            }
            Action::AcquireFrame => Event::FrameAcquired,
            Action::CopyRegion(r) => {
                height = r.height;
                Event::RegionCopied
            }
            Action::ReleaseFrame => Event::FrameReleased,
            Action::MapStaging => mapped(height, pitch),
            Action::UnmapStaging => Event::Unmapped,
            Action::Ready => panic!("a capture does not end in Ready"),
            Action::Deliver(b) => return Ok(b),
            Action::Fail(err) => return Err(err),
        };
        assert!(e.accepts(&ev));
        a = e.step(ev);
    }
}

fn capture(e: &mut DxgiCapture, left: u32, top: u32, width: u32, height: u32) -> Result<Vec<u8>, CaptureError> {
    let a = e.capture_region(left, top, width, height);
    let out = (e.output_width(), e.output_height());
    finish(e, a, out, width * 4 + 64)
}

#[test]
fn example_full_hd_output() {
    let mut e = ready_engine(1920, 1080);
    let b = capture(&mut e, 0, 0, 100, 100).unwrap();
    assert_eq!(b.len(), 40000);
    assert_eq!(e.capture_region(1900, 1000, 100, 100), Action::Fail(CaptureError::Validation));
}

#[test]
fn in_bounds_rectangles_give_exact_length() {
    let mut e = ready_engine(64, 48);
    for &(l, t, w, h) in &[(0, 0, 64, 48), (10, 5, 7, 3), (63, 47, 1, 1), (0, 0, 0, 5), (3, 3, 5, 0)] {
        let b = capture(&mut e, l, t, w, h).unwrap();
        assert_eq!(b.len(), (w * h * 4) as usize);
    }
}

#[test]
fn out_of_bounds_fails_without_work() {
    let mut e = ready_engine(64, 48);
    capture(&mut e, 0, 0, 8, 8).unwrap();
    let allocs = e.allocation_count();
    let staging = e.staging_size();
    for &(l, t, w, h) in &[(60, 0, 5, 1), (0, 45, 1, 4), (65, 0, 0, 0), (u32::MAX, 0, 2, 1), (0, 1, 1, u32::MAX)] {
        assert_eq!(e.capture_region(l, t, w, h), Action::Fail(CaptureError::Validation));
        assert!(e.is_ready());
        assert_eq!(e.allocation_count(), allocs);
        assert_eq!(e.staging_size(), staging);
    }
}

#[test]
fn same_size_keeps_staging_surface() {
    let mut e = ready_engine(64, 48);
    capture(&mut e, 0, 0, 10, 10).unwrap();
    assert_eq!(e.allocation_count(), 1);
    assert_eq!(e.capture_region(5, 5, 10, 10), Action::AcquireFrame);
    let b = finish(&mut e, Action::AcquireFrame, (64, 48), 48).unwrap();
    assert_eq!(b.len(), 400);
    assert_eq!(e.allocation_count(), 1);
    assert_eq!(e.staging_size(), Some((10, 10)));
}

#[test]
fn new_size_allocates_once() {
    let mut e = ready_engine(64, 48);
    capture(&mut e, 0, 0, 10, 10).unwrap();
    assert_eq!(
        e.capture_region(0, 0, 12, 10),
        Action::AllocateStaging { width: 12, height: 10, format: PixelFormat::Bgra8Unorm }
    );
    let b = finish(
        &mut e,
        Action::AllocateStaging { width: 12, height: 10, format: PixelFormat::Bgra8Unorm },
        (64, 48),
        48,
    );
    assert_eq!(b.unwrap().len(), 480);
    assert_eq!(e.allocation_count(), 2);
    assert_eq!(e.staging_size(), Some((12, 10)));
}

#[test]
fn device_loss_fails_then_next_call_succeeds() {
    let mut e = ready_engine(64, 48);
    assert!(matches!(e.capture_region(2, 2, 8, 4), Action::AllocateStaging { .. }));
    assert_eq!(e.step(Event::StagingAllocated), Action::AcquireFrame);
    assert_eq!(e.step(Event::AcquireFailed(ACCESS_LOST)), Action::CreateDevice);
    assert!(!e.is_initialized());
    assert_eq!(e.staging_size(), None);
    assert_eq!(
        e.step(Event::DeviceCreated { output_width: 64, output_height: 48 }),
        Action::StartDuplication(PixelFormat::Bgra8Unorm)
    );
    assert_eq!(
        e.step(Event::DuplicationStarted),
        Action::AllocateStaging { width: 8, height: 4, format: PixelFormat::Bgra8Unorm }
    );
    assert_eq!(e.step(Event::StagingAllocated), Action::Fail(CaptureError::TransientCapture(ACCESS_LOST)));
    assert!(e.is_ready());
    assert!(e.is_initialized());
    let b = capture(&mut e, 2, 2, 8, 4).unwrap();
    assert_eq!(b.len(), 128);
}

#[test]
fn failed_recovery_reports_device_error() {
    let mut e = ready_engine(64, 48);
    capture(&mut e, 0, 0, 4, 4).unwrap();
    assert_eq!(e.capture_region(0, 0, 4, 4), Action::AcquireFrame);
    assert_eq!(e.step(Event::AcquireFailed(DEVICE_REMOVED)), Action::CreateDevice);
    assert_eq!(e.step(Event::DeviceFailed), Action::Fail(CaptureError::DeviceInit));
    assert!(!e.is_initialized());
    // the next call sets the session up again
    assert_eq!(e.capture_region(0, 0, 4, 4), Action::CreateDevice);
}

#[test]
fn no_new_frame_gives_zero_bytes() {
    let mut e = ready_engine(64, 48);
    capture(&mut e, 0, 0, 6, 5).unwrap();
    assert_eq!(e.capture_region(1, 1, 6, 5), Action::AcquireFrame);
    match e.step(Event::AcquireFailed(WAIT_TIMEOUT)) {
        Action::Deliver(b) => {
            assert_eq!(b.len(), 120);
            assert!(b.iter().all(|&x| x == 0));
        }
        other => panic!("unexpected {:?}", other),
    }
    assert_eq!(e.capture_region(1, 1, 6, 5), Action::AcquireFrame);
    assert_eq!(e.step(Event::FrameEmpty), Action::ReleaseFrame);
    match e.step(Event::FrameReleased) {
        Action::Deliver(b) => assert_eq!(b, vec![0u8; 120]),
        other => panic!("unexpected {:?}", other),
    }
}

#[test]
fn stride_padding_does_not_leak() {
    let src: Vec<u8> = (0..30).map(|i| i as u8).collect();
    // three rows of four bytes, ten bytes apart
    let r = pack_rows(&src, 10, 4, 3);
    assert_eq!(r, vec![0, 1, 2, 3, 10, 11, 12, 13, 20, 21, 22, 23]);
    // the last row needs only its own bytes
    let short: Vec<u8> = (0..24).map(|i| i as u8).collect();
    assert_eq!(pack_rows(&short, 10, 4, 3), r);
    assert_eq!(pack_rows(&src, 10, 4, 0), Vec::<u8>::new());
    assert_eq!(pack_rows(&src, 4, 4, 3), (0..12).map(|i| i as u8).collect::<Vec<u8>>());
}

#[test]
fn readback_packs_rows_of_the_mapped_surface() {
    let mut e = ready_engine(64, 48);
    let b = capture(&mut e, 0, 0, 3, 2).unwrap();
    let pitch = 3 * 4 + 64;
    let mut expected = Vec::new();
    for y in 0..2usize {
        for x in 0..12usize {
            expected.push(pattern(y * pitch + x));
        }
    }
    assert_eq!(b, expected);
}

#[test]
fn short_mapping_is_unmapped_then_fails() {
    let mut e = ready_engine(64, 48);
    capture(&mut e, 0, 0, 4, 2).unwrap();
    assert_eq!(e.capture_region(0, 0, 4, 2), Action::AcquireFrame);
    assert_eq!(e.step(Event::FrameAcquired), Action::CopyRegion(Region::new(0, 0, 4, 2)));
    assert_eq!(e.step(Event::RegionCopied), Action::ReleaseFrame);
    assert_eq!(e.step(Event::FrameReleased), Action::MapStaging);
    // pitch below the row length
    assert_eq!(e.step(Event::Mapped { data: vec![1; 64], row_pitch: 8 }), Action::UnmapStaging);
    assert_eq!(e.step(Event::Unmapped), Action::Fail(CaptureError::Mapping));
    assert!(e.is_ready());
}

#[test]
fn map_failure_is_reported() {
    let mut e = ready_engine(64, 48);
    capture(&mut e, 0, 0, 4, 2).unwrap();
    assert_eq!(e.capture_region(0, 0, 4, 2), Action::AcquireFrame);
    e.step(Event::FrameAcquired);
    e.step(Event::RegionCopied);
    e.step(Event::FrameReleased);
    assert_eq!(e.step(Event::MapFailed), Action::Fail(CaptureError::Mapping));
}

#[test]
fn copy_failure_releases_frame_first() {
    let mut e = ready_engine(64, 48);
    capture(&mut e, 0, 0, 4, 2).unwrap();
    assert_eq!(e.capture_region(0, 0, 4, 2), Action::AcquireFrame);
    assert_eq!(e.step(Event::FrameAcquired), Action::CopyRegion(Region::new(0, 0, 4, 2)));
    assert_eq!(e.step(Event::CopyFailed(-5)), Action::ReleaseFrame);
    assert!(!e.accepts(&Event::Unmapped));
    assert_eq!(e.step(Event::FrameReleased), Action::Fail(CaptureError::FatalCapture(-5)));
}

#[test]
fn unknown_acquire_failure_is_fatal() {
    let mut e = ready_engine(64, 48);
    capture(&mut e, 0, 0, 4, 2).unwrap();
    assert_eq!(e.capture_region(0, 0, 4, 2), Action::AcquireFrame);
    assert_eq!(e.step(Event::AcquireFailed(-7)), Action::Fail(CaptureError::FatalCapture(-7)));
    assert!(e.is_initialized());
}

#[test]
fn allocation_failure_is_reported() {
    let mut e = ready_engine(64, 48);
    assert!(matches!(e.capture_region(0, 0, 4, 2), Action::AllocateStaging { .. }));
    assert_eq!(e.step(Event::StagingFailed), Action::Fail(CaptureError::Allocation));
    assert_eq!(e.allocation_count(), 0);
}

#[test]
fn formats_are_tried_in_order() {
    let mut e = DxgiCapture::new();
    e.initialize();
    assert_eq!(
        e.step(Event::DeviceCreated { output_width: 800, output_height: 600 }),
        Action::StartDuplication(PixelFormat::Bgra8Unorm)
    );
    assert_eq!(e.step(Event::DuplicationRefused), Action::StartDuplication(PixelFormat::Rgba8Unorm));
    assert_eq!(e.step(Event::DuplicationRefused), Action::StartDuplication(PixelFormat::Rgba16Float));
    assert_eq!(e.step(Event::DuplicationStarted), Action::Ready);
    assert_eq!(e.pixel_format(), Some(PixelFormat::Rgba16Float));
    assert_eq!((e.output_width(), e.output_height()), (800, 600));
}

#[test]
fn no_accepted_format_fails_setup() {
    let mut e = DxgiCapture::new();
    e.initialize();
    e.step(Event::DeviceCreated { output_width: 800, output_height: 600 });
    e.step(Event::DuplicationRefused);
    e.step(Event::DuplicationRefused);
    assert_eq!(e.step(Event::DuplicationRefused), Action::Fail(CaptureError::Duplication));
    assert!(!e.is_initialized());
}

#[test]
fn device_failure_fails_setup() {
    let mut e = DxgiCapture::new();
    assert_eq!(e.initialize(), Action::CreateDevice);
    assert_eq!(e.step(Event::DeviceFailed), Action::Fail(CaptureError::DeviceInit));
    assert!(e.is_ready());
}

#[test]
fn capture_without_session_sets_one_up() {
    let mut e = ready_engine(64, 48);
    capture(&mut e, 0, 0, 4, 4).unwrap();
    e.release_resources();
    e.release_resources();
    assert!(!e.is_initialized());
    assert_eq!(e.staging_size(), None);
    assert_eq!(e.capture_region(0, 0, 4, 4), Action::CreateDevice);
    let b = finish(&mut e, Action::CreateDevice, (64, 48), 16).unwrap();
    assert_eq!(b.len(), 64);
    assert_eq!(e.allocation_count(), 2);
}

#[test]
fn fresh_engine_rejects_any_nonempty_region() {
    let mut e = DxgiCapture::new();
    assert_eq!(e.capture_region(0, 0, 1, 1), Action::Fail(CaptureError::Validation));
}

#[test]
fn acquire_failures_are_classified() {
    assert_eq!(classify_acquire_failure(WAIT_TIMEOUT), AcquireFailure::NoNewFrame);
    for c in [ACCESS_LOST, DEVICE_REMOVED, DEVICE_RESET, SESSION_DISCONNECTED] {
        assert_eq!(classify_acquire_failure(c), AcquireFailure::DeviceLoss);
    }
    assert_eq!(classify_acquire_failure(-1), AcquireFailure::Other);
    assert_eq!(classify_acquire_failure(0), AcquireFailure::Other);
}

#[test]
fn region_bounds_and_size() {
    let r = Region::new(1900, 1000, 100, 100);
    assert!(!r.fits_within(1920, 1080));
    assert!(Region::new(1820, 980, 100, 100).fits_within(1920, 1080));
    assert_eq!(Region::new(0, 0, 100, 100).packed_len(), Some(40000));
    assert!(!Region::new(u32::MAX, 0, 1, 0).fits_within(u32::MAX, 0));
}
