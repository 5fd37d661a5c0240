use voxforge::audio::{CaptureBuffer, LEVEL_WINDOW};

#[test]
fn samples_are_kept_only_while_recording() {
    let mut b: CaptureBuffer<i32> = CaptureBuffer::new();
    b.append(&[1, 2, 3]);
    assert_eq!(b.len(), 0);
    b.start();
    assert!(b.is_recording());
    b.append(&[1, 2]);
    b.append(&[3]);
    assert_eq!(b.snapshot(), vec![1, 2, 3]);
    assert_eq!(b.stop(), vec![1, 2, 3]);
    assert!(!b.is_recording());
    b.append(&[4]);
    assert_eq!(b.snapshot(), vec![1, 2, 3]);
}

#[test]
fn a_new_recording_starts_empty() {
    let mut b: CaptureBuffer<i32> = CaptureBuffer::new();
    b.start();
    b.append(&[5, 6]);
    b.stop();
    b.start();
    assert_eq!(b.len(), 0);
}

#[test]
fn level_window_is_the_last_samples() {
    let mut b: CaptureBuffer<u16> = CaptureBuffer::new();
    b.start();
    let first: Vec<u16> = (0..255).collect();
    b.append(&first);
    assert_eq!(b.level_window(), None);
    b.append(&[255, 256]);
    let w = b.level_window().unwrap();
    assert_eq!(w.len(), LEVEL_WINDOW);
    assert_eq!(w[0], 1);
    assert_eq!(w[255], 256);
}
