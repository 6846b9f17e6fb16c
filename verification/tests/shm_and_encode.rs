//! Tests of the shared-memory allocator, the output discovery, and the
//! encode step, run against the real system calls and the real encoder.

use wayshot::encode::encode_frame;
use wayshot::error::{CaptureError, ShmErrno};
use wayshot::format::{FrameFormat, PixelFormat};
use wayshot::output::{OutputDiscovery, OutputEvent};
use wayshot::shm::{
    allocate_shm, create_shm_fd, memfd_step, named_step, shm_name, MemfdStep, NamedStep,
};

#[test]
fn shm_name_renders_decimal() {
    assert_eq!(shm_name(123), b"/wayshot-123".to_vec());
    assert_eq!(shm_name(0), b"/wayshot-0".to_vec());
    assert_eq!(shm_name(999_999_999), b"/wayshot-999999999".to_vec());
}

#[test]
fn memfd_outcomes_drive_the_right_steps() {
    assert_eq!(memfd_step(Ok(3)), MemfdStep::UseFd(3));
    assert_eq!(memfd_step(Err(ShmErrno::Interrupted)), MemfdStep::Retry);
    assert_eq!(memfd_step(Err(ShmErrno::Unavailable)), MemfdStep::UseFallback);
    assert_eq!(
        memfd_step(Err(ShmErrno::Other(13))),
        MemfdStep::FailWith(ShmErrno::Other(13))
    );
}

#[test]
fn name_collisions_are_retried_until_a_descriptor_arrives() {
    // Two collisions, then success: every step retries under a fresh name
    // and the final outcome hands the descriptor out; no step fails.
    let outcomes: Vec<Result<i32, ShmErrno>> = vec![
        Err(ShmErrno::AlreadyExists),
        Err(ShmErrno::AlreadyExists),
        Ok(7),
    ];
    let mut settled = None;
    for outcome in outcomes {
        match named_step(outcome) {
            NamedStep::RetryNewName => continue,
            step => {
                settled = Some(step);
                break;
            }
        }
    }
    assert_eq!(settled, Some(NamedStep::UnlinkAndUse(7)));
}

#[test]
fn interruption_retries_under_the_same_name() {
    assert_eq!(named_step(Err(ShmErrno::Interrupted)), NamedStep::RetrySameName);
    assert_eq!(
        named_step(Err(ShmErrno::Other(1))),
        NamedStep::FailWith(ShmErrno::Other(1))
    );
}

#[test]
fn create_shm_fd_returns_a_valid_descriptor() {
    let fd = create_shm_fd().expect("shared memory creation failed");
    assert!(fd >= 0);
    let stat = nix::sys::stat::fstat(fd).expect("fstat failed");
    assert_eq!(stat.st_size, 0);
    nix::unistd::close(fd).unwrap();
}

#[test]
fn allocate_shm_sizes_the_region_exactly() {
    let fd = allocate_shm(4096).expect("allocation failed");
    assert!(fd >= 0);
    let stat = nix::sys::stat::fstat(fd).expect("fstat failed");
    assert_eq!(stat.st_size, 4096);
    nix::unistd::close(fd).unwrap();
}

#[test]
fn no_output_advertised_is_an_error() {
    let mut discovery = OutputDiscovery::new();
    discovery.note_event(11, OutputEvent::Done);
    // The done signal came from an output, so one output exists.
    assert_eq!(discovery.select(), Ok(11));

    let mut empty = OutputDiscovery::new();
    empty.done = true;
    assert_eq!(empty.select(), Err(CaptureError::NoOutputAvailable));
}

#[test]
fn first_output_is_selected() {
    let mut discovery = OutputDiscovery::new();
    discovery.note_event(5, OutputEvent::Geometry);
    discovery.note_event(5, OutputEvent::Mode);
    discovery.note_event(8, OutputEvent::Scale);
    discovery.note_event(5, OutputEvent::Done);
    assert!(discovery.done);
    assert_eq!(discovery.select(), Ok(5));
}

#[test]
fn encode_produces_a_jpeg_stream() {
    let format = FrameFormat {
        format: PixelFormat::Xbgr8888,
        width: 2,
        height: 1,
        stride: 8,
    };
    let mut data: Vec<u8> = vec![0x11, 0x22, 0x33, 0xFF, 0x44, 0x55, 0x66, 0xFF];
    let stream = encode_frame(&mut data, format).expect("encoding failed");
    // The stream is a JPEG: it opens with the start-of-image marker and is
    // not the input handed back.
    assert!(stream.len() > 4);
    assert_eq!(&stream[0..2], &[0xFF, 0xD8]);
    assert_ne!(stream, data);
}

#[test]
fn encode_rejects_a_buffer_of_the_wrong_length() {
    let format = FrameFormat {
        format: PixelFormat::Xbgr8888,
        width: 2,
        height: 2,
        stride: 8,
    };
    let mut data: Vec<u8> = vec![0; 8];
    assert_eq!(encode_frame(&mut data, format), Err(CaptureError::Encode));
}

#[test]
fn encode_rejects_oversize_dimensions() {
    let width: u32 = 70_000;
    let format = FrameFormat {
        format: PixelFormat::Xbgr8888,
        width,
        height: 1,
        stride: width * 4,
    };
    let mut data: Vec<u8> = vec![0; width as usize * 4];
    assert_eq!(encode_frame(&mut data, format), Err(CaptureError::Encode));
}

#[test]
fn encode_normalizes_reversed_channels_first() {
    let format = FrameFormat {
        format: PixelFormat::Xrgb8888,
        width: 2,
        height: 1,
        stride: 8,
    };
    let mut reversed: Vec<u8> = vec![0x11, 0x22, 0x33, 0xFF, 0x44, 0x55, 0x66, 0xFF];
    let from_reversed = encode_frame(&mut reversed, format).expect("encoding failed");
    assert_eq!(reversed, vec![0x33, 0x22, 0x11, 0xFF, 0x66, 0x55, 0x44, 0xFF]);

    let straight_format = FrameFormat {
        format: PixelFormat::Xbgr8888,
        width: 2,
        height: 1,
        stride: 8,
    };
    let mut straight: Vec<u8> = vec![0x33, 0x22, 0x11, 0xFF, 0x66, 0x55, 0x44, 0xFF];
    let from_straight = encode_frame(&mut straight, straight_format).expect("encoding failed");
    // The same pixels, whichever layout they arrived in, give the same stream.
    assert_eq!(from_reversed, from_straight);
}
