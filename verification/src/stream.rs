//! The streaming state that the UVC video source drives: the host starts
//! and stops the stream, and asks for one MJPEG frame at a time.

use vstd::prelude::*;
use crate::focus::{drive_plan, focus_drive_plan, FocusDirection, FocusRequests};

verus! {

/// Whether the host is streaming, and the number of the next frame to be
/// captured (counting from the last start, wrapping at `2^32`).
#[derive(Debug, Clone, Copy, PartialEq, Eq, Structural)]
pub struct StreamState {
    pub streaming: bool,
    pub frame_num: u32,
}

/// Where the next frame comes from.
#[derive(Debug, Clone, PartialEq, Eq)]
pub enum FrameSource {
    /// The host is not streaming: serve the placeholder image.
    Placeholder,
    /// The host is streaming but no camera is connected: serve nothing.
    NoCamera,
    /// Drive the lens by `focus_plan`, then capture a live-view frame;
    /// `first_frame` says that it is the first since the stream started,
    /// which the daemon also saves for inspection.
    Camera { frame_index: u32, first_frame: bool, focus_plan: Vec<FocusDirection> },
}

/// The mathematical content of a `FrameSource`.
pub enum FrameDecision {
    Placeholder,
    NoCamera,
    Camera { frame_index: u32, first_frame: bool, focus_plan: Seq<FocusDirection> },
}

impl View for FrameSource {
    type V = FrameDecision;

    open spec fn view(&self) -> FrameDecision {
        match self {
            FrameSource::Placeholder => FrameDecision::Placeholder,
            FrameSource::NoCamera => FrameDecision::NoCamera,
            FrameSource::Camera { frame_index, first_frame, focus_plan } => FrameDecision::Camera {
                frame_index: *frame_index,
                first_frame: *first_frame,
                focus_plan: focus_plan@,
            },
        }
    }
}

/// A frame ready for the host: the bytes to copy into its buffer, and
/// whether the captured frame is to be saved as the stream's first.
#[derive(Debug, Clone, PartialEq, Eq)]
pub struct ServedFrame {
    pub bytes: Vec<u8>,
    pub save_first_frame: bool,
}

/// The state before the host has ever started a stream.
pub open spec fn initial_state() -> StreamState {
    StreamState { streaming: false, frame_num: 0 }
}

/// No focus requests.
pub open spec fn no_requests() -> FocusRequests {
    FocusRequests { near: 0, far: 0 }
}

/// The host starts streaming: refused (`-1`, state unchanged) when no camera
/// is connected, else the frame count restarts and streaming begins (`0`).
pub open spec fn start(s: StreamState, camera_connected: bool) -> (StreamState, i32) {
    if camera_connected {
        (StreamState { streaming: true, frame_num: 0 }, 0i32)
    } else {
        (s, -1i32)
    }
}

/// The host stops streaming; the frame count is kept.
pub open spec fn stop(s: StreamState) -> StreamState {
    StreamState { streaming: false, frame_num: s.frame_num }
}

/// The frame number after `n`, wrapping at `2^32`.
pub open spec fn next_frame_num(n: u32) -> u32 {
    if n == u32::MAX {
        0
    } else {
        (n + 1) as u32
    }
}

/// The host asks for a frame, with `req` focus requests counted: the new
/// state, the requests left, and where the frame comes from. A captured
/// frame takes all requests and first drives the lens by them.
pub open spec fn fill(s: StreamState, camera_connected: bool, req: FocusRequests) -> (
    StreamState,
    FocusRequests,
    FrameDecision,
) {
    if !s.streaming {
        (s, req, FrameDecision::Placeholder)
    } else {
        let next = StreamState { streaming: true, frame_num: next_frame_num(s.frame_num) };
        if camera_connected {
            (
                next,
                no_requests(),
                FrameDecision::Camera {
                    frame_index: s.frame_num,
                    first_frame: s.frame_num == 0,
                    focus_plan: drive_plan(req.near, req.far),
                },
            )
        } else {
            (next, req, FrameDecision::NoCamera)
        }
    }
}

/// The first `min(data.len(), max_size)` bytes of `data`.
pub open spec fn clipped(data: Seq<u8>, max_size: u32) -> Seq<u8> {
    data.take(
        if data.len() <= max_size {
            data.len() as int
        } else {
            max_size as int
        },
    )
}

/// The bytes served for a decision: the placeholder when not streaming,
/// nothing without a camera, and the captured frame, or the placeholder when
/// the capture failed (`None`); all clipped to the host's buffer.
pub open spec fn served_bytes(
    d: FrameDecision,
    capture: Option<Seq<u8>>,
    placeholder: Seq<u8>,
    max_size: u32,
) -> Seq<u8> {
    match d {
        FrameDecision::Placeholder => clipped(placeholder, max_size),
        FrameDecision::NoCamera => Seq::empty(),
        FrameDecision::Camera { .. } => match capture {
            Some(frame) => clipped(frame, max_size),
            None => clipped(placeholder, max_size),
        },
    }
}

/// Whether the captured frame is saved as the stream's first: the first
/// frame of a stream, when its capture succeeded.
pub open spec fn saves_first_frame(d: FrameDecision, capture_ok: bool) -> bool {
    match d {
        FrameDecision::Camera { first_frame, .. } => first_frame && capture_ok,
        _ => false,
    }
}

pub open spec fn slice_view(capture: Option<&[u8]>) -> Option<Seq<u8>> {
    match capture {
        Some(b) => Some(b@),
        None => None,
    }
}

impl StreamState {
    /// The state before the host has ever started a stream.
    pub fn new() -> (s: StreamState)
        ensures
            s == initial_state(),
    {
        StreamState { streaming: false, frame_num: 0 }
    }
}

/// The host starts streaming. Returns `0` when a camera is connected, after
/// restarting the frame count and starting the stream; `-1`, with the state
/// unchanged, when none is.
pub fn rust_camera_start(state: &mut StreamState, camera_connected: bool) -> (r: i32)
    ensures
        (*final(state), r) == start(*old(state), camera_connected),
        r == 0 <==> camera_connected,
        r == -1 <==> !camera_connected,
        camera_connected ==> final(state).streaming && final(state).frame_num == 0,
        !camera_connected ==> *final(state) == *old(state),
{
    if !camera_connected {
        return -1;
    }
    state.frame_num = 0;
    state.streaming = true;
    0
}

/// The host stops streaming. Returns whether the camera's mirror is to be
/// lowered, which is whenever a camera is connected.
pub fn rust_camera_stop(state: &mut StreamState, camera_connected: bool) -> (lower_mirror: bool)
    ensures
        *final(state) == stop(*old(state)),
        !final(state).streaming,
        final(state).frame_num == old(state).frame_num,
        lower_mirror == camera_connected,
{
    state.streaming = false;
    camera_connected
}

/// Whether the next frame request captures a frame and so takes the counted
/// focus requests: exactly when the host is streaming and a camera is
/// connected. The caller need hand `rust_fill_jpeg` the counted requests
/// only then; otherwise they are left where they are.
pub fn takes_focus_requests(state: &StreamState, camera_connected: bool) -> (takes: bool)
    ensures
        takes == (fill(*state, camera_connected, no_requests()).2 is Camera),
        takes == (state.streaming && camera_connected),
{
    state.streaming && camera_connected
}

/// The host asks for a frame: decides where it comes from and counts it when
/// the host is streaming; a frame to be captured takes all counted focus
/// requests in `focus` as its lens-drive plan, leaving none.
pub fn rust_fill_jpeg(
    state: &mut StreamState,
    camera_connected: bool,
    focus: &mut FocusRequests,
) -> (src: FrameSource)
    ensures
        (*final(state), *final(focus), src@) == fill(*old(state), camera_connected, *old(focus)),
        !old(state).streaming ==> src == FrameSource::Placeholder && *final(state) == *old(state)
            && *final(focus) == *old(focus),
        old(state).streaming ==> final(state).streaming && final(state).frame_num as int == (
        old(state).frame_num as int + 1) % 0x1_0000_0000,
        old(state).streaming && !camera_connected ==> src == FrameSource::NoCamera && *final(focus)
            == *old(focus),
        old(state).streaming && camera_connected ==> final(focus).near == 0 && final(focus).far == 0,
        old(state).streaming && camera_connected ==> (src matches FrameSource::Camera {
            frame_index,
            first_frame,
            focus_plan,
        }
            && frame_index == old(state).frame_num && (first_frame <==> frame_index == 0)
            && focus_plan@.len() == (if old(focus).near > 0 {
            old(focus).near as int
        } else {
            0
        }) + (if old(focus).far > 0 {
            old(focus).far as int
        } else {
            0
        }) && (forall|i: int|
            0 <= i < focus_plan@.len() ==> #[trigger] focus_plan@[i] == (if i < old(focus).near {
                FocusDirection::Near
            } else {
                FocusDirection::Far
            }))),
{
    if !state.streaming {
        return FrameSource::Placeholder;
    }
    let n = state.frame_num;
    state.frame_num = n.wrapping_add(1);
    if !camera_connected {
        return FrameSource::NoCamera;
    }
    let plan = focus_drive_plan(focus.near, focus.far);
    *focus = FocusRequests { near: 0, far: 0 };
    FrameSource::Camera { frame_index: n, first_frame: n == 0, focus_plan: plan }
}

/// The bytes of `data` that fit into a buffer of `max_size` bytes: its
/// first `min(data.len(), max_size)` bytes.
pub fn clip_frame(data: &[u8], max_size: u32) -> (out: Vec<u8>)
    ensures
        out.len() <= max_size,
        out@ == clipped(data@, max_size),
        out.len() == data.len() || out.len() == max_size,
        out.len() <= data.len(),
        forall|i: int| 0 <= i < out.len() ==> #[trigger] out@[i] == data@[i],
{
    let len: usize = if (data.len() as u64) <= (max_size as u64) {
        data.len()
    } else {
        max_size as usize
    };
    let mut out: Vec<u8> = Vec::with_capacity(len);
    let mut i: usize = 0;
    while i < len
        invariant
            i <= len <= data.len(),
            out@ == data@.take(i as int),
        decreases len - i,
    {
        out.push(data[i]);
        i = i + 1;
        assert(out@ =~= data@.take(i as int));
    }
    out
}

/// The frame served to the host for `source`: `capture` is the live-view
/// frame read from the camera for a `Camera` source (`None` where capturing
/// or reading it failed), `placeholder` the placeholder JPEG. Never more than
/// `max_size` bytes.
pub fn serve_frame(
    source: &FrameSource,
    capture: Option<&[u8]>,
    placeholder: &[u8],
    max_size: u32,
) -> (out: ServedFrame)
    ensures
        out.bytes@ == served_bytes(source@, slice_view(capture), placeholder@, max_size),
        out.bytes.len() <= max_size,
        out.save_first_frame == saves_first_frame(source@, capture is Some),
        source@ is Placeholder ==> out.bytes@ == placeholder@.take(
            if placeholder@.len() <= max_size {
                placeholder@.len() as int
            } else {
                max_size as int
            },
        ),
        source@ is NoCamera ==> out.bytes@.len() == 0,
        source@ is Camera ==> match capture {
            Some(f) => out.bytes@ == f@.take(
                if f@.len() <= max_size {
                    f@.len() as int
                } else {
                    max_size as int
                },
            ),
            None => out.bytes@ == placeholder@.take(
                if placeholder@.len() <= max_size {
                    placeholder@.len() as int
                } else {
                    max_size as int
                },
            ),
        },
        out.save_first_frame <==> (source@ matches FrameDecision::Camera { first_frame, .. }
            && first_frame && capture is Some),
{
    match source {
        FrameSource::Placeholder => ServedFrame {
            bytes: clip_frame(placeholder, max_size),
            save_first_frame: false,
        },
        FrameSource::NoCamera => ServedFrame { bytes: Vec::new(), save_first_frame: false },
        FrameSource::Camera { first_frame, .. } => match capture {
            Some(frame) => ServedFrame {
                bytes: clip_frame(frame, max_size),
                save_first_frame: *first_frame,
            },
            None => ServedFrame { bytes: clip_frame(placeholder, max_size), save_first_frame: false },
        },
    }
}

/// Only frame 0 of a stream is its first frame: a request that captures a
/// frame marks it first exactly when its frame index is 0, and the index is
/// the frame count the request found.
pub proof fn lemma_first_frame_iff_index_zero(s: StreamState, camera_connected: bool, req: FocusRequests)
    ensures
        fill(s, camera_connected, req).2 matches FrameDecision::Camera {
            frame_index,
            first_frame,
            ..
        } ==> (first_frame <==> frame_index == 0) && frame_index == s.frame_num,
        s.streaming && s.frame_num != 0 ==> !saves_first_frame(fill(s, true, req).2, true),
{
}

/// Every request while streaming counts one frame, wrapping at `2^32`; a
/// request while not streaming counts none and changes nothing.
pub proof fn lemma_requests_count_frames(s: StreamState, camera_connected: bool, req: FocusRequests)
    ensures
        s.streaming ==> fill(s, camera_connected, req).0.streaming && fill(
            s,
            camera_connected,
            req,
        ).0.frame_num as int == (s.frame_num as int + 1) % 0x1_0000_0000,
        !s.streaming ==> fill(s, camera_connected, req).0 == s && fill(s, camera_connected, req).1
            == req,
{
}

/// A frame whose capture succeeded is served as its own leading bytes, as
/// many as fit into the host's buffer, whatever its size; the placeholder is
/// served only when not streaming or when the capture failed, and nothing
/// without a camera.
pub proof fn lemma_served_bytes(
    d: FrameDecision,
    capture: Option<Seq<u8>>,
    placeholder: Seq<u8>,
    max_size: u32,
)
    ensures
        d is Camera && capture is Some ==> served_bytes(d, capture, placeholder, max_size)
            == capture->0.take(
            if capture->0.len() <= max_size {
                capture->0.len() as int
            } else {
                max_size as int
            },
        ),
        (d is Placeholder || (d is Camera && capture is None)) ==> served_bytes(
            d,
            capture,
            placeholder,
            max_size,
        ) == placeholder.take(
            if placeholder.len() <= max_size {
                placeholder.len() as int
            } else {
                max_size as int
            },
        ),
        d is NoCamera ==> served_bytes(d, capture, placeholder, max_size).len() == 0,
        served_bytes(d, capture, placeholder, max_size).len() <= max_size,
{
}

/// The first frame after a successful start is captured as frame 0, the
/// frame that is saved for inspection when its capture succeeds.
pub proof fn lemma_start_then_first_frame(s: StreamState, req: FocusRequests)
    ensures
        ({
            let (started, r) = start(s, true);
            let d = fill(started, true, req).2;
            &&& r == 0
            &&& d matches FrameDecision::Camera { frame_index, first_frame, .. }
            &&& frame_index == 0 && first_frame
            &&& saves_first_frame(d, true)
        }),
{
}

/// A start refused for want of a camera changes nothing.
pub proof fn lemma_refused_start_changes_nothing(s: StreamState)
    ensures
        start(s, false) == (s, -1i32),
{
}

/// Once the host has stopped the stream, every request is served the
/// clipped placeholder, touches no camera, and leaves the state and the
/// focus requests as they are.
pub proof fn lemma_stopped_stream_serves_placeholder(
    s: StreamState,
    camera_connected: bool,
    req: FocusRequests,
    capture: Option<Seq<u8>>,
    placeholder: Seq<u8>,
    max_size: u32,
)
    ensures
        fill(stop(s), camera_connected, req) == (stop(s), req, FrameDecision::Placeholder),
        served_bytes(fill(stop(s), camera_connected, req).2, capture, placeholder, max_size)
            == clipped(placeholder, max_size),
{
}

/// While streaming with a camera, consecutive requests capture consecutive
/// frame numbers (modulo `2^32`).
pub proof fn lemma_consecutive_frames(s: StreamState, req: FocusRequests)
    requires
        s.streaming,
    ensures
        ({
            let (s1, r1, a) = fill(s, true, req);
            let (s2, r2, b) = fill(s1, true, r1);
            &&& a matches FrameDecision::Camera { frame_index: i, .. }
            &&& b matches FrameDecision::Camera { frame_index: j, .. }
            &&& j == (i + 1) % 0x1_0000_0000
        }),
{
}

/// Focus requests drive the lens once: `near` nearer and `far` farther
/// requests counted before a captured frame drive the lens by exactly that
/// many steps, nearer first, and a frame captured right after, with no new
/// request, drives it not at all.
pub proof fn lemma_focus_requests_drive_once(s: StreamState, near: i32, far: i32)
    requires
        s.streaming,
        near >= 0,
        far >= 0,
    ensures
        ({
            let (s1, r1, a) = fill(s, true, FocusRequests { near, far });
            let (s2, r2, b) = fill(s1, true, r1);
            &&& a matches FrameDecision::Camera { focus_plan: p, .. }
            &&& p == Seq::new(near as nat, |i: int| FocusDirection::Near) + Seq::new(
                far as nat,
                |i: int| FocusDirection::Far,
            )
            &&& b matches FrameDecision::Camera { focus_plan: q, .. }
            &&& q.len() == 0
            &&& r2 == no_requests()
        }),
{
    assert(drive_plan(0, 0) =~= Seq::<FocusDirection>::empty());
}

} // verus!
