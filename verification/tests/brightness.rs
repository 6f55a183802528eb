use frame_processor::{apply_brightness, FrameError};

fn clamp(v: i64) -> u8 {
    v.max(0).min(255) as u8
}

#[test]
fn black_frame_brightened_by_fifty() {
    let frame = apply_brightness(vec![0, 0, 0, 255, 0, 0, 0, 255], 2, 1, 50).unwrap();
    assert_eq!(frame.width, 2);
    assert_eq!(frame.height, 1);
    assert_eq!(frame.data, vec![50, 50, 50, 255, 50, 50, 50, 255]);
}

#[test]
fn brightness_saturates_each_channel_on_its_own() {
    let frame = apply_brightness(vec![250, 100, 0, 40], 1, 1, 10).unwrap();
    assert_eq!(frame.data, vec![255, 110, 10, 40]);
    let frame = apply_brightness(vec![5, 100, 255, 40], 1, 1, -10).unwrap();
    assert_eq!(frame.data, vec![0, 90, 245, 40]);
}

#[test]
fn brightness_leaves_alpha_alone() {
    let frame = apply_brightness(vec![1, 2, 3, 0, 4, 5, 6, 200, 7, 8, 9, 255], 1, 3, 100).unwrap();
    assert_eq!(frame.width, 1);
    assert_eq!(frame.height, 3);
    assert_eq!(
        frame.data,
        vec![101, 102, 103, 0, 104, 105, 106, 200, 107, 108, 109, 255]
    );
}

#[test]
fn brightness_by_zero_changes_nothing() {
    let bytes: Vec<u8> = (0..5 * 3 * 4u32).map(|i| (i * 41 % 256) as u8).collect();
    let frame = apply_brightness(bytes.clone(), 5, 3, 0).unwrap();
    assert_eq!(frame.data, bytes);
}

#[test]
fn brightness_at_the_ends_of_the_range() {
    let bytes = vec![0, 1, 254, 9, 255, 128, 3, 8];
    assert_eq!(
        apply_brightness(bytes.clone(), 2, 1, 255).unwrap().data,
        vec![255, 255, 255, 9, 255, 255, 255, 8]
    );
    assert_eq!(
        apply_brightness(bytes.clone(), 2, 1, -255).unwrap().data,
        vec![0, 0, 0, 9, 0, 0, 0, 8]
    );
    assert_eq!(
        apply_brightness(bytes.clone(), 2, 1, 254).unwrap().data,
        vec![254, 255, 255, 9, 255, 255, 255, 8]
    );
    assert_eq!(
        apply_brightness(bytes, 2, 1, -254).unwrap().data,
        vec![0, 0, 0, 9, 1, 0, 0, 8]
    );
}

#[test]
fn brightness_beyond_the_range_saturates() {
    let bytes = vec![0, 1, 254, 9, 255, 128, 3, 8];
    for value in [256, 1000, i32::MAX - 255, i32::MAX - 254, i32::MAX] {
        let frame = apply_brightness(bytes.clone(), 2, 1, value).unwrap();
        assert_eq!(frame.data, vec![255, 255, 255, 9, 255, 255, 255, 8]);
    }
    for value in [-256, -1000, i32::MIN + 255, i32::MIN] {
        let frame = apply_brightness(bytes.clone(), 2, 1, value).unwrap();
        assert_eq!(frame.data, vec![0, 0, 0, 9, 0, 0, 0, 8]);
    }
}

#[test]
fn brightness_clamps_every_colour_channel() {
    let (w, h) = (6u32, 4u32);
    let bytes: Vec<u8> = (0..w * h * 4).map(|i| (i * 29 % 256) as u8).collect();
    for value in [-300, -255, -128, -1, 0, 1, 77, 255, 300] {
        let frame = apply_brightness(bytes.clone(), w, h, value).unwrap();
        assert_eq!(frame.width, w);
        assert_eq!(frame.height, h);
        assert_eq!(frame.data.len(), bytes.len());
        for (out, src) in frame.data.chunks(4).zip(bytes.chunks(4)) {
            for c in 0..3 {
                assert_eq!(out[c], clamp(src[c] as i64 + value as i64));
            }
            assert_eq!(out[3], src[3]);
        }
    }
}

#[test]
fn brightness_does_not_resize_wide_frames() {
    let frame = apply_brightness(vec![9u8; 2000 * 1 * 4], 2000, 1, 1).unwrap();
    assert_eq!(frame.width, 2000);
    assert_eq!(frame.height, 1);
    assert_eq!(frame.data.len(), 2000 * 4);
    assert!(frame.data.chunks(4).all(|p| p == [10, 10, 10, 9]));
}

#[test]
fn brightness_of_empty_frame_is_empty() {
    for (w, h) in [(0u32, 0u32), (0, 3), (3, 0), (u32::MAX, 0)] {
        let frame = apply_brightness(Vec::new(), w, h, 500).unwrap();
        assert_eq!(frame.width, w);
        assert_eq!(frame.height, h);
        assert!(frame.data.is_empty());
    }
}

#[test]
fn brightness_refuses_short_buffer() {
    let err = apply_brightness(vec![0u8; 50], 10, 10, 5).unwrap_err();
    assert_eq!(err, FrameError::InvalidBuffer);
}

#[test]
fn brightness_refuses_long_buffer() {
    let err = apply_brightness(vec![0u8; 401], 10, 10, 5).unwrap_err();
    assert_eq!(err, FrameError::InvalidBuffer);
}

#[test]
fn brightness_refuses_whatever_the_delta() {
    for value in [i32::MIN, -1, 0, 1, i32::MAX] {
        let err = apply_brightness(vec![0u8; 7], 1, 2, value).unwrap_err();
        assert_eq!(err, FrameError::InvalidBuffer);
    }
}
