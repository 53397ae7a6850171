use uav_gcs::video::{draw_crosshair, test_pattern_frame, FrameSlot, VideoConfig, VideoError, VideoReceiver, VideoSource};

fn white(data: &[u8], w: u32, x: u32, y: u32) -> bool {
    let i = ((y * w + x) * 4) as usize;
    data[i] == 255 && data[i + 1] == 255 && data[i + 2] == 255
}

#[test]
fn crosshair_on_large_frame() {
    let (w, h) = (200u32, 100u32);
    let mut data = vec![7u8; (w * h * 4) as usize];
    draw_crosshair(&mut data, w, h);
    let (cx, cy) = (100u32, 50u32);
    for x in 0..w {
        for y in 0..h {
            let on = (y == cy && x + 40 > cx && x < cx + 40) || (x == cx && y + 40 > cy && y < cy + 40);
            let i = ((y * w + x) * 4) as usize;
            if on {
                assert!(white(&data, w, x, y), "({}, {})", x, y);
            } else {
                assert_eq!(&data[i..i + 3], &[7, 7, 7], "({}, {})", x, y);
            }
            assert_eq!(data[i + 3], 7);
        }
    }
}

#[test]
fn crosshair_clipped_on_small_frame() {
    let (w, h) = (3u32, 1u32);
    let mut data = vec![0u8; 12];
    draw_crosshair(&mut data, w, h);
    assert_eq!(data, vec![255, 255, 255, 0, 255, 255, 255, 0, 255, 255, 255, 0]);
}

#[test]
fn receiver_frames() {
    let mut r = VideoReceiver::new(VideoConfig { source: VideoSource::TestPattern, width: 64, height: 48 });
    assert!(!r.is_running());
    assert!(r.next_frame().is_none());
    assert!(r.start().is_ok());
    assert!(r.is_running());
    let f1 = r.next_frame().unwrap();
    assert_eq!((f1.width, f1.height, f1.frame_number, f1.timestamp_ms), (64, 48, 1, 33));
    let f2 = r.next_frame().unwrap();
    assert_eq!((f2.frame_number, f2.timestamp_ms), (2, 66));
    r.stop();
    assert!(r.next_frame().is_none());
    assert_eq!(r.config().width, 64);
}

#[test]
fn video_error_texts() {
    assert_eq!(VideoError::OpenFailed("x".into()).message(), "Failed to open video source: x");
    assert_eq!(VideoError::DecodeFailed("y".into()).message(), "Decode error: y");
    assert_eq!(VideoError::ConnectionLost.message(), "Connection lost");
}

#[test]
fn test_pattern_frame_four_by_four() {
    let mut r = VideoReceiver::new(VideoConfig { source: VideoSource::TestPattern, width: 4, height: 4 });
    assert_eq!(r.frame_count(), 0);
    assert!(r.start().is_ok());
    let slot = r.next_frame().unwrap();
    let gradient: Vec<u8> = (0..48u8).collect();
    let f = test_pattern_frame(slot, &gradient);
    assert_eq!((f.width, f.height, f.timestamp_ms), (4, 4, 33));
    assert_eq!(f.data.len(), 64);
    for k in 0..16 {
        assert_eq!(f.data[4 * k + 3], 255);
    }
    for j in 0..4usize {
        assert_eq!(&f.data[(8 + j) * 4..(8 + j) * 4 + 3], &[255, 255, 255]);
        assert_eq!(&f.data[(4 * j + 2) * 4..(4 * j + 2) * 4 + 3], &[255, 255, 255]);
    }
    // pixel (0, 0) keeps its gradient color, pixel (3, 3) too
    assert_eq!(&f.data[0..4], &[0, 1, 2, 255]);
    assert_eq!(&f.data[60..64], &[45, 46, 47, 255]);
}

#[test]
fn test_pattern_frame_keeps_slot_stamp() {
    let slot = FrameSlot { width: 2, height: 1, frame_number: 5, timestamp_ms: 165 };
    let f = test_pattern_frame(slot, &vec![10, 20, 30, 40, 50, 60]);
    assert_eq!(f.timestamp_ms, 165);
    // both pixels lie on the crosshair's horizontal arm
    assert_eq!(f.data, vec![255, 255, 255, 255, 255, 255, 255, 255]);
}

#[test]
fn frame_count_matches_frames_handed_out() {
    let mut r = VideoReceiver::new(VideoConfig { source: VideoSource::Rtsp { url: "rtsp://cam".into() }, width: 8, height: 6 });
    let mut handed_out = 0u64;
    for round in 0..5u64 {
        assert!(r.next_frame().is_none());
        assert!(r.start().is_ok());
        for _ in 0..round {
            let f = r.next_frame().unwrap();
            handed_out += 1;
            assert_eq!((f.width, f.height), (8, 6));
            assert_eq!((f.frame_number, f.timestamp_ms), (handed_out, handed_out * 33));
        }
        r.stop();
        assert_eq!(r.frame_count(), handed_out);
    }
    assert_eq!(handed_out, 10);
}
