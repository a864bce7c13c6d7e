use octane::frame_buffer::{FFmpegError, FrameBuffer, Mailbox};

#[test]
fn second_publish_overwrites_first() {
    let mut m: Mailbox<u32> = Mailbox::new();
    assert_eq!(m.publish(1), None);
    assert_eq!(m.publish(2), Some(1));
    assert_eq!(m.take(), Some(2));
    assert_eq!(m.take(), None);
    assert!(!m.has_frame());
}

#[test]
fn single_publish_then_drain() {
    let mut m: Mailbox<u32> = Mailbox::new();
    m.publish(1);
    assert!(m.has_frame());
    assert_eq!(m.peek(), Some(&1));
    assert_eq!(m.take(), Some(1));
    assert_eq!(m.take(), None);
}

#[test]
fn download_twice_equals_once() {
    let mut calls = 0;
    let mut fb: FrameBuffer<u32> = FrameBuffer::Hw(7);
    let r: Result<(), FFmpegError> = fb.download_to_cpu(|f| {
        calls += 1;
        Ok(f + 100)
    });
    assert!(r.is_ok());
    assert!(!fb.is_hardware());
    assert_eq!(*fb.frame(), 107);
    let r: Result<(), FFmpegError> = fb.download_to_cpu(|f| Ok(f + 1000));
    assert!(r.is_ok());
    assert_eq!(*fb.frame(), 107);
    assert_eq!(calls, 1);
}

#[test]
fn failed_download_keeps_hardware_frame() {
    let mut fb: FrameBuffer<u32> = FrameBuffer::Hw(7);
    let r = fb.download_to_cpu(|_| Err(FFmpegError::FromHWTransferError(-5)));
    assert_eq!(r, Err(FFmpegError::FromHWTransferError(-5)));
    assert!(fb.is_hardware());
    assert_eq!(fb.into_frame(), 7);
}

#[test]
fn upload_without_frames_context_is_an_error() {
    let mut fb: FrameBuffer<u32> = FrameBuffer::Sw(3);
    let r = fb.download_to_gpu(false, |f| Ok(*f));
    assert_eq!(r, Err(FFmpegError::HWFramesContextMissing));
    assert!(!fb.is_hardware());
    let r = fb.download_to_gpu(true, |f| Ok(f + 1));
    assert_eq!(r, Ok(()));
    assert!(fb.is_hardware());
    assert_eq!(*fb.frame(), 4);
    let r = fb.download_to_gpu(false, |f| Ok(*f));
    assert_eq!(r, Ok(()));
}

#[test]
fn decoded_frames_are_tagged() {
    assert!(FrameBuffer::tagged(1u8, true, true).is_hardware());
    assert!(!FrameBuffer::tagged(1u8, true, false).is_hardware());
    assert!(!FrameBuffer::tagged(1u8, false, true).is_hardware());
}
