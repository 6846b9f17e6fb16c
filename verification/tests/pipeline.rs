//! Tests of the capture pipeline: format selection, the frame-copy state
//! machine, normalization, and the encode step.

use wayshot::error::CaptureError;
use wayshot::format::{FrameFormat, PixelFormat};
use wayshot::normalize::{normalize, swap_channels};
use wayshot::session::{Action, CaptureSession, FrameEvent, Phase};

fn fmt(format: PixelFormat, width: u32, height: u32, stride: u32) -> FrameFormat {
    FrameFormat {
        format,
        width,
        height,
        stride,
    }
}

#[test]
fn swap_twice_restores_buffer() {
    let original: Vec<u8> = vec![1, 2, 3, 4, 5, 6, 7, 8, 9, 10, 11];
    let mut data = original.clone();
    swap_channels(&mut data);
    assert_ne!(data, original);
    swap_channels(&mut data);
    assert_eq!(data, original);
}

#[test]
fn normalize_twice_is_identity_for_all_supported_layouts() {
    let original: Vec<u8> = vec![0x10, 0x20, 0x30, 0x40, 0x50, 0x60, 0x70, 0x80];
    for layout in [
        PixelFormat::Argb8888,
        PixelFormat::Xrgb8888,
        PixelFormat::Xbgr8888,
    ] {
        let mut data = original.clone();
        normalize(&mut data, layout);
        normalize(&mut data, layout);
        assert_eq!(data, original);
    }
}

#[test]
fn normalization_swaps_reversed_channels_exactly() {
    let mut data: Vec<u8> = vec![0x11, 0x22, 0x33, 0xFF, 0x44, 0x55, 0x66, 0xFF];
    normalize(&mut data, PixelFormat::Xrgb8888);
    assert_eq!(data, vec![0x33, 0x22, 0x11, 0xFF, 0x66, 0x55, 0x44, 0xFF]);
}

#[test]
fn normalization_passes_through_target_order() {
    let mut data: Vec<u8> = vec![0x11, 0x22, 0x33, 0xFF];
    normalize(&mut data, PixelFormat::Xbgr8888);
    assert_eq!(data, vec![0x11, 0x22, 0x33, 0xFF]);
}

#[test]
fn byte_len_is_stride_times_height() {
    assert_eq!(fmt(PixelFormat::Xbgr8888, 2, 1, 8).byte_len(), 8);
    assert_eq!(fmt(PixelFormat::Argb8888, 1920, 1080, 7680).byte_len(), 7680 * 1080);
    assert_eq!(
        fmt(PixelFormat::Argb8888, 1, u32::MAX, u32::MAX).byte_len(),
        u32::MAX as u64 * u32::MAX as u64
    );
}

#[test]
fn unsupported_formats_fail_without_buffer_request() {
    let mut session = CaptureSession::new();
    assert_eq!(
        session.handle_event(FrameEvent::Buffer(fmt(PixelFormat::Other(3), 4, 4, 16))),
        Ok(Action::Nothing)
    );
    assert_eq!(
        session.handle_event(FrameEvent::Buffer(fmt(PixelFormat::Other(9), 4, 4, 16))),
        Ok(Action::Nothing)
    );
    assert_eq!(
        session.handle_event(FrameEvent::BufferDone),
        Err(CaptureError::UnsupportedFormat)
    );
    assert_eq!(session.phase, Phase::Failed);
}

#[test]
fn empty_format_list_fails() {
    let mut session = CaptureSession::new();
    assert_eq!(
        session.handle_event(FrameEvent::BufferDone),
        Err(CaptureError::UnsupportedFormat)
    );
    assert_eq!(session.phase, Phase::Failed);
}

#[test]
fn first_supported_format_is_selected() {
    let unsupported = fmt(PixelFormat::Other(7), 8, 8, 32);
    let first_good = fmt(PixelFormat::Xbgr8888, 2, 1, 8);
    let second_good = fmt(PixelFormat::Argb8888, 4, 4, 16);
    let mut session = CaptureSession::new();
    session.handle_event(FrameEvent::Buffer(unsupported)).unwrap();
    session.handle_event(FrameEvent::Buffer(first_good)).unwrap();
    session.handle_event(FrameEvent::Buffer(second_good)).unwrap();
    let action = session.handle_event(FrameEvent::BufferDone).unwrap();
    assert_eq!(
        action,
        Action::RequestCopy {
            format: first_good,
            byte_len: 8,
        }
    );
    assert_eq!(session.phase, Phase::CopyRequested);
}

#[test]
fn ready_after_copy_finishes_session() {
    let mut session = CaptureSession::new();
    session
        .handle_event(FrameEvent::Buffer(fmt(PixelFormat::Argb8888, 2, 1, 8)))
        .unwrap();
    session.handle_event(FrameEvent::BufferDone).unwrap();
    assert_eq!(session.handle_event(FrameEvent::Flags), Ok(Action::Nothing));
    assert_eq!(session.handle_event(FrameEvent::Damage), Ok(Action::Nothing));
    assert_eq!(session.handle_event(FrameEvent::LinuxDmabuf), Ok(Action::Nothing));
    assert!(!session.is_terminal());
    assert_eq!(session.handle_event(FrameEvent::Ready), Ok(Action::Nothing));
    assert_eq!(session.phase, Phase::Finished);
    assert!(session.is_terminal());
}

#[test]
fn failed_before_ready_aborts_with_capture_failed() {
    let mut session = CaptureSession::new();
    session
        .handle_event(FrameEvent::Buffer(fmt(PixelFormat::Argb8888, 2, 1, 8)))
        .unwrap();
    session.handle_event(FrameEvent::BufferDone).unwrap();
    let outcome = session.handle_event(FrameEvent::Failed);
    assert_eq!(outcome, Err(CaptureError::CaptureFailed));
    assert_eq!(session.phase, Phase::Failed);
    assert!(session.is_terminal());
    // Ready arriving afterwards changes nothing: the failure is terminal.
    assert_eq!(session.handle_event(FrameEvent::Ready), Ok(Action::Nothing));
    assert_eq!(session.phase, Phase::Failed);
}

#[test]
fn buffer_events_after_done_are_ignored() {
    let good = fmt(PixelFormat::Xbgr8888, 2, 1, 8);
    let mut session = CaptureSession::new();
    session.handle_event(FrameEvent::Buffer(good)).unwrap();
    session.handle_event(FrameEvent::BufferDone).unwrap();
    let before = session.formats.clone();
    session
        .handle_event(FrameEvent::Buffer(fmt(PixelFormat::Argb8888, 9, 9, 36)))
        .unwrap();
    assert_eq!(session.formats, before);
}

#[test]
fn error_messages_name_the_cause() {
    assert_eq!(
        CaptureError::UnsupportedFormat.message(),
        "no suitable frame format found"
    );
    assert_eq!(
        CaptureError::NoOutputAvailable.message(),
        "compositor did not advertise an output"
    );
    assert_eq!(CaptureError::CaptureFailed.message(), "frame copy failed");
}
