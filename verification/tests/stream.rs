use eos_stream::focus::{FocusDirection, FocusRequests};
use eos_stream::stream::{
    clip_frame, takes_focus_requests, rust_camera_start, rust_camera_stop, rust_fill_jpeg, serve_frame, FrameSource,
    ServedFrame, StreamState,
};

fn no_requests() -> FocusRequests {
    FocusRequests { near: 0, far: 0 }
}

#[test]
fn new_state_is_idle() {
    let s = StreamState::new();
    assert!(!s.streaming);
    assert_eq!(s.frame_num, 0);
}

#[test]
fn start_without_camera_is_refused() {
    let mut s = StreamState { streaming: false, frame_num: 7 };
    assert_eq!(rust_camera_start(&mut s, false), -1);
    assert_eq!(s, StreamState { streaming: false, frame_num: 7 });
}

#[test]
fn start_resets_frame_count() {
    let mut s = StreamState { streaming: false, frame_num: 7 };
    assert_eq!(rust_camera_start(&mut s, true), 0);
    assert_eq!(s, StreamState { streaming: true, frame_num: 0 });
}

#[test]
fn first_frame_after_start_is_frame_zero() {
    let mut s = StreamState::new();
    let mut req = no_requests();
    assert_eq!(rust_fill_jpeg(&mut s, true, &mut req), FrameSource::Placeholder);
    assert_eq!(rust_camera_start(&mut s, true), 0);
    assert_eq!(
        rust_fill_jpeg(&mut s, true, &mut req),
        FrameSource::Camera { frame_index: 0, first_frame: true, focus_plan: vec![] }
    );
    assert_eq!(
        rust_fill_jpeg(&mut s, true, &mut req),
        FrameSource::Camera { frame_index: 1, first_frame: false, focus_plan: vec![] }
    );
    assert_eq!(s.frame_num, 2);
}

#[test]
fn frame_counted_without_camera() {
    let mut s = StreamState { streaming: true, frame_num: 3 };
    let mut req = FocusRequests { near: 2, far: 1 };
    assert_eq!(rust_fill_jpeg(&mut s, false, &mut req), FrameSource::NoCamera);
    assert_eq!(s.frame_num, 4);
    assert_eq!(req, FocusRequests { near: 2, far: 1 });
}

#[test]
fn frame_count_wraps() {
    let mut s = StreamState { streaming: true, frame_num: u32::MAX };
    let mut req = no_requests();
    assert_eq!(
        rust_fill_jpeg(&mut s, true, &mut req),
        FrameSource::Camera { frame_index: u32::MAX, first_frame: false, focus_plan: vec![] }
    );
    assert_eq!(s.frame_num, 0);
}

#[test]
fn captured_frame_takes_focus_requests_once() {
    let (near, far) = (FocusDirection::Near, FocusDirection::Far);
    let mut s = StreamState { streaming: true, frame_num: 9 };
    let mut req = FocusRequests { near: 2, far: 1 };
    assert_eq!(
        rust_fill_jpeg(&mut s, true, &mut req),
        FrameSource::Camera { frame_index: 9, first_frame: false, focus_plan: vec![near, near, far] }
    );
    assert_eq!(req, no_requests());
    assert_eq!(
        rust_fill_jpeg(&mut s, true, &mut req),
        FrameSource::Camera { frame_index: 10, first_frame: false, focus_plan: vec![] }
    );
}

#[test]
fn stop_serves_placeholder() {
    let mut s = StreamState { streaming: true, frame_num: 5 };
    assert!(rust_camera_stop(&mut s, true));
    assert_eq!(s, StreamState { streaming: false, frame_num: 5 });
    let mut req = FocusRequests { near: 1, far: 0 };
    assert_eq!(rust_fill_jpeg(&mut s, true, &mut req), FrameSource::Placeholder);
    assert_eq!(s.frame_num, 5);
    assert_eq!(req, FocusRequests { near: 1, far: 0 });
    assert!(!rust_camera_stop(&mut s, false));
}

#[test]
fn clip_to_buffer() {
    let data = [1u8, 2, 3, 4, 5];
    assert_eq!(clip_frame(&data, 3), vec![1, 2, 3]);
    assert_eq!(clip_frame(&data, 5), vec![1, 2, 3, 4, 5]);
    assert_eq!(clip_frame(&data, 100), vec![1, 2, 3, 4, 5]);
    assert_eq!(clip_frame(&data, 0), Vec::<u8>::new());
    assert_eq!(clip_frame(&[], 10), Vec::<u8>::new());
}

#[test]
fn serves_clipped_capture_while_streaming() {
    let mut s = StreamState { streaming: true, frame_num: 5 };
    let mut req = no_requests();
    let source = rust_fill_jpeg(&mut s, true, &mut req);
    let frame = [0xffu8, 0xd8, 0x01, 0x02, 0xff, 0xd9];
    let placeholder = [9u8, 9, 9];
    assert_eq!(
        serve_frame(&source, Some(&frame), &placeholder, 4),
        ServedFrame { bytes: vec![0xff, 0xd8, 0x01, 0x02], save_first_frame: false }
    );
    assert_eq!(s, StreamState { streaming: true, frame_num: 6 });
}

#[test]
fn serves_clipped_placeholder_when_not_streaming() {
    let mut s = StreamState { streaming: false, frame_num: 7 };
    let mut req = no_requests();
    let source = rust_fill_jpeg(&mut s, true, &mut req);
    let placeholder = [0xffu8, 0xd8, 0xff, 0xe0, 0x00];
    assert_eq!(
        serve_frame(&source, None, &placeholder, 3),
        ServedFrame { bytes: vec![0xff, 0xd8, 0xff], save_first_frame: false }
    );
    assert_eq!(s.frame_num, 7);
}

#[test]
fn failed_capture_falls_back_to_placeholder() {
    let source = FrameSource::Camera { frame_index: 0, first_frame: true, focus_plan: vec![] };
    let placeholder = [1u8, 2, 3, 4];
    assert_eq!(
        serve_frame(&source, None, &placeholder, 10),
        ServedFrame { bytes: vec![1, 2, 3, 4], save_first_frame: false }
    );
}

#[test]
fn first_captured_frame_is_saved() {
    let source = FrameSource::Camera { frame_index: 0, first_frame: true, focus_plan: vec![] };
    let frame = [7u8, 8];
    assert_eq!(
        serve_frame(&source, Some(&frame), &[], 10),
        ServedFrame { bytes: vec![7, 8], save_first_frame: true }
    );
}

#[test]
fn no_camera_serves_nothing() {
    assert_eq!(
        serve_frame(&FrameSource::NoCamera, None, &[1, 2], 10),
        ServedFrame { bytes: vec![], save_first_frame: false }
    );
}

#[test]
fn focus_requests_taken_only_for_captures() {
    assert!(takes_focus_requests(&StreamState { streaming: true, frame_num: 0 }, true));
    assert!(!takes_focus_requests(&StreamState { streaming: true, frame_num: 0 }, false));
    assert!(!takes_focus_requests(&StreamState { streaming: false, frame_num: 0 }, true));
}
