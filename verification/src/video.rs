use vstd::prelude::*;
use vstd::arithmetic::div_mod::{lemma_fundamental_div_mod, lemma_fundamental_div_mod_converse};
use vstd::string::*;

verus! {

/// Where video comes from.
#[derive(Debug, Clone)]
pub enum VideoSource {
    /// UDP stream (e.g. from an analog receiver with a USB adapter).
    Udp { address: String, port: u16 },
    /// RTSP stream (e.g. an IP camera).
    Rtsp { url: String },
    /// V4L2 device (USB capture card).
    V4L2 { device: String },
    /// Generated test pattern.
    TestPattern,
}

/// Video receiver settings.
#[derive(Debug, Clone)]
pub struct VideoConfig {
    pub source: VideoSource,
    /// Frame width in pixels.
    pub width: u32,
    /// Frame height in pixels.
    pub height: u32,
}

impl Default for VideoConfig {
    /// The test pattern at 1280x720.
    fn default() -> (res: VideoConfig)
        ensures
            res.source is TestPattern,
            res.width == 1280,
            res.height == 720,
    {
        VideoConfig { source: VideoSource::TestPattern, width: 1280, height: 720 }
    }
}

/// A video frame: RGBA pixels, row by row.
#[derive(Debug, Clone)]
pub struct VideoFrame {
    pub width: u32,
    pub height: u32,
    pub data: Vec<u8>,
    pub timestamp_ms: u64,
}

/// Errors of the video receiver.
#[derive(Debug)]
pub enum VideoError {
    OpenFailed(String),
    DecodeFailed(String),
    ConnectionLost,
}

/// The text with which a video error is reported.
pub open spec fn video_error_text(e: VideoError) -> Seq<char> {
    match e {
        VideoError::OpenFailed(s) => "Failed to open video source: "@ + s@,
        VideoError::DecodeFailed(s) => "Decode error: "@ + s@,
        VideoError::ConnectionLost => "Connection lost"@,
    }
}

impl VideoError {
    /// The text with which the error is reported.
    pub fn message(&self) -> (res: String)
        ensures
            res@ == video_error_text(*self),
    {
        match self {
            VideoError::OpenFailed(s) => {
                let mut m = "Failed to open video source: ".to_owned();
                m.append(s.as_str());
                m
            },
            VideoError::DecodeFailed(s) => {
                let mut m = "Decode error: ".to_owned();
                m.append(s.as_str());
                m
            },
            VideoError::ConnectionLost => "Connection lost".to_owned(),
        }
    }
}

/// The frame period of the receiver, in ms (about 30 frames per second).
pub const FRAME_PERIOD_MS: u64 = 33;

/// Half the length of the crosshair's arms, in pixels.
pub const CROSSHAIR_SIZE: u32 = 40;

/// Whether pixel (x, y) of a `w` by `h` frame lies on a centered crosshair
/// whose arms reach fewer than `reach` pixels from the center.
pub open spec fn on_crosshair(x: int, y: int, w: int, h: int, reach: int) -> bool {
    let cx = w / 2;
    let cy = h / 2;
    ||| (y == cy && 0 <= x < w && cx - reach < x < cx + reach)
    ||| (x == cx && 0 <= y < h && cy - reach < y < cy + reach)
}

/// Whether byte `k` of an RGBA frame of width `w` and height `h` is a color
/// byte (not alpha) of a crosshair pixel.
pub open spec fn crosshair_byte(k: int, w: int, h: int, reach: int) -> bool {
    k % 4 < 3 && on_crosshair((k / 4) % w, (k / 4) / w, w, h, reach)
}

/// What a frame's bytes become when pixels are painted white: the color bytes
/// of the pixels that `painted` selects become 255, the rest stay.
pub open spec fn painted(before: Seq<u8>, w: int, h: int, reach: int) -> Seq<u8> {
    Seq::new(before.len(), |k: int| if crosshair_byte(k, w, h, reach) { 255u8 } else { before[k] })
}

proof fn lemma_pixel_coords(p: int, x: int, y: int, w: int)
    requires
        0 <= x < w,
        0 <= y,
        p == y * w + x,
    ensures
        p % w == x,
        p / w == y,
{
    lemma_fundamental_div_mod_converse(p, w, y, x);
}

proof fn lemma_byte_coords(k: int, p: int, c: int)
    requires
        0 <= c < 4,
        0 <= p,
        k == p * 4 + c,
    ensures
        k % 4 == c,
        k / 4 == p,
{
    lemma_fundamental_div_mod_converse(k, 4, p, c);
}

/// Paint the color bytes of pixel (x, y) white.
fn paint_white(data: &mut Vec<u8>, x: u32, y: u32, w: u32, h: u32)
    requires
        x < w,
        y < h,
        old(data)@.len() == w * h * 4,
        w * h * 4 <= u32::MAX,
    ensures
        final(data)@.len() == old(data)@.len(),
        forall|k: int|
            0 <= k < final(data)@.len() ==> #[trigger] final(data)@[k] == if k / 4 == y * w + x && k
                % 4 < 3 {
                255u8
            } else {
                old(data)@[k]
            },
{
    proof {
        assert(y * w + x < h * w) by (nonlinear_arith)
            requires
                x < w,
                y < h,
        ;
        assert(h * w * 4 == w * h * 4) by (nonlinear_arith);
    }
    let idx = ((y * w + x) * 4) as usize;
    let ghost p = y * w + x;
    let ghost before = data@;
    data.set(idx, 255);
    data.set(idx + 1, 255);
    data.set(idx + 2, 255);
    proof {
        assert forall|k: int| 0 <= k < data@.len() implies #[trigger] data@[k] == if k / 4 == p && k
            % 4 < 3 {
            255u8
        } else {
            before[k]
        } by {
            if k == idx || k == idx + 1 || k == idx + 2 {
                lemma_byte_coords(k, p, k - idx);
            } else {
                let q = k / 4;
                let c = k % 4;
                assert(k == q * 4 + c) by {
                    lemma_fundamental_div_mod(k, 4);
                }
                if q == p && c < 3 {
                    assert(false);
                }
            }
        }
    }
}

/// Paint a white crosshair, with arms reaching 39 pixels from the center,
/// over the center of an RGBA frame of `width` by `height` pixels. Alpha
/// bytes are left alone.
pub fn draw_crosshair(data: &mut Vec<u8>, width: u32, height: u32)
    requires
        width > 0,
        height > 0,
        old(data)@.len() == width * height * 4,
        width * height * 4 <= u32::MAX,
    ensures
        final(data)@ == painted(old(data)@, width as int, height as int, CROSSHAIR_SIZE as int),
{
    let w = width;
    let h = height;
    let cx = w / 2;
    let cy = h / 2;
    let ghost orig = data@;
    let ghost wi = w as int;
    let ghost hi = h as int;
    assert(data@ =~= painted(orig, wi, hi, 0));
    let mut i: u32 = 0;
    while i < CROSSHAIR_SIZE
        invariant
            w == width,
            h == height,
            w > 0,
            h > 0,
            cx == w / 2,
            cy == h / 2,
            wi == w,
            hi == h,
            orig.len() == w * h * 4,
            w * h * 4 <= u32::MAX,
            i <= CROSSHAIR_SIZE,
            data@ == painted(orig, wi, hi, i as int),
        decreases CROSSHAIR_SIZE - i,
    {
        let ghost before = data@;
        if cx + i < w {
            paint_white(data, cx + i, cy, w, h);
        }
        let ghost s1 = data@;
        if cx >= i {
            paint_white(data, cx - i, cy, w, h);
        }
        let ghost s2 = data@;
        if cy + i < h {
            paint_white(data, cx, cy + i, w, h);
        }
        let ghost s3 = data@;
        if cy >= i {
            paint_white(data, cx, cy - i, w, h);
        }
        proof {
            let r = i as int;
            let next = painted(orig, wi, hi, r + 1);
            assert forall|k: int| 0 <= k < data@.len() implies #[trigger] data@[k] == next[k] by {
                let p = k / 4;
                let x = p % wi;
                let y = p / wi;
                assert(k >= 0);
                assert(p >= 0);
                lemma_fundamental_div_mod(p, wi);
                assert(0 <= x < wi);
                assert(y >= 0);
                assert(p == y * wi + x) by {
                    assert(p == wi * (p / wi) + p % wi);
                }
                let hit0 = cx + r < wi && p == cy * wi + (cx + r);
                let hit1 = cx >= r && p == cy * wi + (cx - r);
                let hit2 = cy + r < hi && p == (cy + r) * wi + cx;
                let hit3 = cy >= r && p == (cy - r) * wi + cx;
                if hit0 {
                    lemma_pixel_coords(p, cx + r, cy as int, wi);
                }
                if hit1 {
                    lemma_pixel_coords(p, cx - r, cy as int, wi);
                }
                if hit2 {
                    lemma_pixel_coords(p, cx as int, cy + r, wi);
                }
                if hit3 {
                    lemma_pixel_coords(p, cx as int, cy - r, wi);
                }
                if on_crosshair(x, y, wi, hi, r + 1) && !on_crosshair(x, y, wi, hi, r) {
                    if y == cy && x == cx + r {
                        assert(hit0);
                    } else if y == cy && x == cx - r {
                        assert(hit1);
                    } else if x == cx && y == cy + r {
                        assert(y < hi);
                        assert(hit2);
                    } else {
                        assert(x == cx && y == cy - r);
                        assert(hit3);
                    }
                }
            }
            assert(data@ =~= next);
        }
        i = i + 1;
    }
}

/// The RGBA bytes of a frame whose pixels have the colors of `rgb`, three
/// bytes (red, green, blue) per pixel, every pixel opaque.
pub open spec fn opaque_rgba(rgb: Seq<u8>) -> Seq<u8> {
    Seq::new(
        (rgb.len() / 3) * 4,
        |k: int|
            if k % 4 == 3 {
                255u8
            } else {
                rgb[(k / 4) * 3 + k % 4]
            },
    )
}

/// Turn RGB pixels into opaque RGBA pixels.
fn opaque_pixels(rgb: &Vec<u8>, pixels: usize) -> (res: Vec<u8>)
    requires
        rgb@.len() == pixels * 3,
        pixels * 4 <= usize::MAX,
    ensures
        res@ == opaque_rgba(rgb@),
{
    let mut data: Vec<u8> = Vec::with_capacity(pixels * 4);
    let ghost target = opaque_rgba(rgb@);
    assert(target.len() == pixels * 4);
    let mut p: usize = 0;
    while p < pixels
        invariant
            rgb@.len() == pixels * 3,
            pixels * 4 <= usize::MAX,
            target == opaque_rgba(rgb@),
            target.len() == pixels * 4,
            p <= pixels,
            data@.len() == p * 4,
            forall|k: int| 0 <= k < p * 4 ==> #[trigger] data@[k] == target[k],
        decreases pixels - p,
    {
        let i = p * 3;
        data.push(rgb[i]);
        data.push(rgb[i + 1]);
        data.push(rgb[i + 2]);
        data.push(255);
        proof {
            assert forall|c: int| 0 <= c < 4 implies #[trigger] data@[p * 4 + c] == target[p * 4
                + c] by {
                lemma_byte_coords(p * 4 + c, p as int, c);
            }
            assert forall|k: int| 0 <= k < (p + 1) * 4 implies #[trigger] data@[k] == target[k] by {
                if k >= p * 4 {
                    assert(data@[p * 4 + (k - p * 4)] == target[p * 4 + (k - p * 4)]);
                }
            }
        }
        p = p + 1;
    }
    assert(data@ =~= target);
    data
}

/// The test-pattern frame of a frame slot: the pixels of `gradient` (three
/// color bytes per pixel, row by row), made opaque, with the white crosshair
/// over the center; sized and stamped as the slot says.
pub fn test_pattern_frame(slot: FrameSlot, gradient: &Vec<u8>) -> (res: VideoFrame)
    requires
        slot.width > 0,
        slot.height > 0,
        slot.width * slot.height * 4 <= u32::MAX,
        gradient@.len() == slot.width * slot.height * 3,
    ensures
        res.width == slot.width,
        res.height == slot.height,
        res.timestamp_ms == slot.timestamp_ms,
        res.data@ == painted(
            opaque_rgba(gradient@),
            slot.width as int,
            slot.height as int,
            CROSSHAIR_SIZE as int,
        ),
        res.data@.len() == slot.width * slot.height * 4,
        forall|p: int| 0 <= p < slot.width * slot.height ==> #[trigger] res.data@[4 * p + 3] == 255,
{
    let w = slot.width;
    let h = slot.height;
    let pixels = w * h;
    let mut data = opaque_pixels(gradient, pixels as usize);
    assert(data@.len() == w * h * 4);
    draw_crosshair(&mut data, w, h);
    proof {
        let base = opaque_rgba(gradient@);
        assert forall|p: int| 0 <= p < w * h implies #[trigger] data@[4 * p + 3] == 255 by {
            lemma_byte_coords(4 * p + 3, p, 3);
            assert(!crosshair_byte(4 * p + 3, w as int, h as int, CROSSHAIR_SIZE as int));
            assert(base[4 * p + 3] == 255);
        }
    }
    VideoFrame { width: w, height: h, data, timestamp_ms: slot.timestamp_ms }
}

/// The video receiver: its settings, whether it runs, and how many frames
/// it has produced.
pub struct VideoReceiver {
    config: VideoConfig,
    running: bool,
    frame_count: u64,
}

/// What the next frame of the receiver is: its size, number and time stamp.
#[derive(Debug, Clone, Copy, PartialEq, Eq, Structural)]
pub struct FrameSlot {
    pub width: u32,
    pub height: u32,
    /// The number of the frame, from 1.
    pub frame_number: u64,
    pub timestamp_ms: u64,
}

/// The calls that drive a receiver after it is made.
pub enum ReceiverCall {
    Start,
    Stop,
    NextFrame,
}

/// The slot of frame number `n` of a `w` by `h` receiver.
pub open spec fn frame_slot(w: u32, h: u32, n: int) -> FrameSlot {
    FrameSlot {
        width: w,
        height: h,
        frame_number: n as u64,
        timestamp_ms: (n * FRAME_PERIOD_MS) as u64,
    }
}

/// What one call does to a receiver that runs or not and has produced
/// `count` frames: the new running flag and count, and the frame handed out.
pub open spec fn receiver_step(running: bool, count: int, call: ReceiverCall, w: u32, h: u32) -> (
    bool,
    int,
    Option<FrameSlot>,
) {
    match call {
        ReceiverCall::Start => (true, count, None),
        ReceiverCall::Stop => (false, count, None),
        ReceiverCall::NextFrame => if running {
            (true, count + 1, Some(frame_slot(w, h, count + 1)))
        } else {
            (false, count, None)
        },
    }
}

/// A receiver that was made stopped with no frame, after `calls`: whether
/// it runs, its frame count, and the frames handed out, in order.
pub open spec fn receiver_run(calls: Seq<ReceiverCall>, w: u32, h: u32) -> (bool, int, Seq<FrameSlot>)
    decreases calls.len(),
{
    if calls.len() == 0 {
        (false, 0, Seq::empty())
    } else {
        let (running, count, frames) = receiver_run(calls.drop_last(), w, h);
        let (r, c, out) = receiver_step(running, count, calls.last(), w, h);
        (r, c, match out {
            Some(f) => frames.push(f),
            None => frames,
        })
    }
}

/// Over any run of calls on a new receiver, the frame count is the number of
/// frames handed out, and the i-th frame handed out (from 0) is frame number
/// i + 1, stamped (i + 1) * 33 ms, of the receiver's size.
pub proof fn lemma_frame_count_matches_frames(calls: Seq<ReceiverCall>, w: u32, h: u32)
    ensures
        receiver_run(calls, w, h).1 == receiver_run(calls, w, h).2.len(),
        forall|i: int|
            0 <= i < receiver_run(calls, w, h).2.len() ==> #[trigger] receiver_run(calls, w, h).2[i]
                == frame_slot(w, h, i + 1),
    decreases calls.len(),
{
    if calls.len() > 0 {
        lemma_frame_count_matches_frames(calls.drop_last(), w, h);
    }
}

impl VideoReceiver {
    pub closed spec fn spec_running(&self) -> bool {
        self.running
    }

    pub closed spec fn spec_frame_count(&self) -> u64 {
        self.frame_count
    }

    pub closed spec fn spec_config(&self) -> VideoConfig {
        self.config
    }

    pub open spec fn spec_width(&self) -> u32 {
        self.spec_config().width
    }

    pub open spec fn spec_height(&self) -> u32 {
        self.spec_config().height
    }

    /// A stopped receiver that has produced no frame.
    pub fn new(config: VideoConfig) -> (res: VideoReceiver)
        ensures
            !res.spec_running(),
            res.spec_frame_count() == 0,
            res.spec_config() == config,
    {
        VideoReceiver { config, running: false, frame_count: 0 }
    }

    /// Start receiving.
    pub fn start(&mut self) -> (res: Result<(), VideoError>)
        ensures
            res is Ok,
            (final(self).spec_running(), final(self).spec_frame_count() as int, None::<FrameSlot>)
                == receiver_step(
                old(self).spec_running(),
                old(self).spec_frame_count() as int,
                ReceiverCall::Start,
                old(self).spec_width(),
                old(self).spec_height(),
            ),
            final(self).spec_running(),
            final(self).spec_frame_count() == old(self).spec_frame_count(),
            final(self).spec_config() == old(self).spec_config(),
    {
        self.running = true;
        Ok(())
    }

    /// Stop receiving.
    pub fn stop(&mut self)
        ensures
            (final(self).spec_running(), final(self).spec_frame_count() as int, None::<FrameSlot>)
                == receiver_step(
                old(self).spec_running(),
                old(self).spec_frame_count() as int,
                ReceiverCall::Stop,
                old(self).spec_width(),
                old(self).spec_height(),
            ),
            !final(self).spec_running(),
            final(self).spec_frame_count() == old(self).spec_frame_count(),
            final(self).spec_config() == old(self).spec_config(),
    {
        self.running = false;
    }

    /// How many frames the receiver has produced.
    pub fn frame_count(&self) -> (res: u64)
        ensures
            res == self.spec_frame_count(),
    {
        self.frame_count
    }

    /// Whether the receiver runs.
    pub fn is_running(&self) -> (res: bool)
        ensures
            res == self.spec_running(),
    {
        self.running
    }

    /// The settings of the receiver.
    pub fn config(&self) -> (res: &VideoConfig)
        ensures
            *res == self.spec_config(),
    {
        &self.config
    }

    /// The next frame to produce: none while stopped; otherwise the frame
    /// count goes up by one and the frame is stamped 33 ms per frame.
    pub fn next_frame(&mut self) -> (res: Option<FrameSlot>)
        requires
            (old(self).spec_frame_count() + 1) * FRAME_PERIOD_MS <= u64::MAX,
        ensures
            (final(self).spec_running(), final(self).spec_frame_count() as int, res)
                == receiver_step(
                old(self).spec_running(),
                old(self).spec_frame_count() as int,
                ReceiverCall::NextFrame,
                old(self).spec_width(),
                old(self).spec_height(),
            ),
            final(self).spec_running() == old(self).spec_running(),
            final(self).spec_config() == old(self).spec_config(),
            if old(self).spec_running() {
                &&& final(self).spec_frame_count() == old(self).spec_frame_count() + 1
                &&& res == Some(
                    FrameSlot {
                        width: old(self).spec_width(),
                        height: old(self).spec_height(),
                        frame_number: final(self).spec_frame_count(),
                        timestamp_ms: (final(self).spec_frame_count() * FRAME_PERIOD_MS) as u64,
                    },
                )
            } else {
                &&& final(self).spec_frame_count() == old(self).spec_frame_count()
                &&& res is None
            },
    {
        if !self.running {
            return None;
        }
        self.frame_count = self.frame_count + 1;
        Some(
            FrameSlot {
                width: self.config.width,
                height: self.config.height,
                frame_number: self.frame_count,
                timestamp_ms: self.frame_count * FRAME_PERIOD_MS,
            },
        )
    }
}

/// Frame n of a receiver is numbered n and stamped n * 33 ms, at the
/// receiver's size.
pub proof fn lemma_frame_slots(w: u32, h: u32, n: int)
    requires
        0 <= n,
        n * 33 <= u64::MAX,
    ensures
        FRAME_PERIOD_MS == 33,
        frame_slot(w, h, n).width == w,
        frame_slot(w, h, n).height == h,
        frame_slot(w, h, n).frame_number == n,
        frame_slot(w, h, n).timestamp_ms == n * 33,
{
}

/// The crosshair by pixel coordinates: in a `w` by `h` frame, the red,
/// green and blue bytes of pixel (x, y) turn white when the pixel lies on
/// row h / 2 fewer than 40 pixels from column w / 2, or on column w / 2
/// fewer than 40 pixels from row h / 2; every other byte, and every alpha
/// byte, stays as it was.
pub proof fn lemma_crosshair_pixels(before: Seq<u8>, w: int, h: int, x: int, y: int, c: int)
    requires
        w > 0,
        h > 0,
        before.len() == w * h * 4,
        0 <= x < w,
        0 <= y < h,
        0 <= c < 4,
    ensures
        CROSSHAIR_SIZE == 40,
        (y * w + x) * 4 + c < before.len(),
        painted(before, w, h, 40)[(y * w + x) * 4 + c] == if c < 3 && ((y == h / 2 && w / 2 - 40
            < x < w / 2 + 40) || (x == w / 2 && h / 2 - 40 < y < h / 2 + 40)) {
            255u8
        } else {
            before[(y * w + x) * 4 + c]
        },
{
    let p = y * w + x;
    assert(p < w * h) by (nonlinear_arith)
        requires
            0 <= x < w,
            0 <= y < h,
            p == y * w + x,
    ;
    assert(w * h * 4 == (w * h) * 4) by (nonlinear_arith);
    assert(0 <= p) by (nonlinear_arith)
        requires
            0 <= x,
            0 <= y,
            0 < w,
            p == y * w + x,
    ;
    lemma_pixel_coords(p, x, y, w);
    lemma_byte_coords(p * 4 + c, p, c);
}

/// The pixels of an opaque frame: pixel p has the red, green and blue bytes
/// 3p, 3p + 1, 3p + 2 of the colors, then alpha 255.
pub proof fn lemma_opaque_pixels(rgb: Seq<u8>, p: int, c: int)
    requires
        rgb.len() % 3 == 0,
        0 <= p < rgb.len() / 3,
        0 <= c < 4,
    ensures
        opaque_rgba(rgb).len() == rgb.len() / 3 * 4,
        opaque_rgba(rgb)[4 * p + c] == if c == 3 {
            255u8
        } else {
            rgb[3 * p + c]
        },
{
    lemma_byte_coords(4 * p + c, p, c);
}

} // verus!
