use baby_rocs::common::{deinterleave, fill_frame, interleave};

#[test]
fn deinterleave_stereo() {
    let src = [1.0f32, 2.0, 3.0, 4.0, 5.0, 6.0];
    let mut dst = vec![vec![0.0f32; 3]; 2];
    deinterleave(&src, &mut dst);
    assert_eq!(dst, vec![vec![1.0, 3.0, 5.0], vec![2.0, 4.0, 6.0]]);
}

#[test]
fn interleave_stereo() {
    let src = vec![vec![1, 3, 5], vec![2, 4, 6]];
    let mut dst = [0; 6];
    interleave(&src, &mut dst);
    assert_eq!(dst, [1, 2, 3, 4, 5, 6]);
}

#[test]
fn interleave_undoes_deinterleave() {
    let frame: Vec<i32> = (0..12).collect();
    let mut channels = vec![vec![0; 4]; 3];
    deinterleave(&frame, &mut channels);
    assert_eq!(channels[1], vec![1, 4, 7, 10]);
    let mut back = vec![0; 12];
    interleave(&channels, &mut back);
    assert_eq!(back, frame);
}

#[test]
fn mono_frame_is_unchanged() {
    let frame = [7u8, 8, 9];
    let mut channels = vec![vec![0u8; 3]];
    deinterleave(&frame, &mut channels);
    assert_eq!(channels[0], frame.to_vec());
}

#[test]
fn longer_channel_tail_is_kept() {
    let src = [1, 2, 3, 4];
    let mut dst = vec![vec![0, 0], vec![0, 0, 99]];
    deinterleave(&src, &mut dst);
    assert_eq!(dst, vec![vec![1, 3], vec![2, 4, 99]]);
}

#[test]
fn fill_frame_full() {
    let mut dest = [0.5f32; 3];
    assert!(fill_frame(&mut dest, &[1.0, 2.0, 3.0], 0.0));
    assert_eq!(dest, [1.0, 2.0, 3.0]);
}

#[test]
fn fill_frame_zero_fills_after_short_read() {
    let mut dest = [0.5f32; 4];
    assert!(!fill_frame(&mut dest, &[1.0], 0.0));
    assert_eq!(dest, [1.0, 0.0, 0.0, 0.0]);
    assert!(!fill_frame(&mut dest, &[], 0.0));
    assert_eq!(dest, [0.0; 4]);
}
