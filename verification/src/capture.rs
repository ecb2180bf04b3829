//! Capture-source decisions: which capture variant to use for a device
//! path, how a capture loop reacts to failures, the deterministic fallback
//! pattern, and the parsing of device-probe text.
//!
//! Everything that touches a device — opening it, reading frames, sleeping
//! between attempts — lives outside the library; these functions take the
//! probe results and bytes as plain values.

use vstd::prelude::*;

use crate::pixel::NormalizedFrame;
use vstd::string::StringSliceAdditionalSpecFns;

verus! {

/// The capture variant driving the pipeline.
#[derive(Clone, Copy, Debug, PartialEq, Eq, Structural)]
pub enum CaptureMode {
    /// Stream from a V4L2 video device.
    V4L2,
    /// Read raw dumps from a framebuffer device.
    Framebuffer,
    /// No device is available; generate the deterministic test pattern.
    Mock,
}

/// `p` is a prefix of `s`.
pub open spec fn has_prefix(s: Seq<u8>, p: Seq<u8>) -> bool {
    p.len() <= s.len() && s.subrange(0, p.len() as int) == p
}

/// `p` stands at offset `i` of `s`.
pub open spec fn matches_at_spec(s: Seq<u8>, p: Seq<u8>, i: int) -> bool {
    s.subrange(i, i + p.len() as int) == p
}

/// `p` occurs somewhere in `s`.
pub open spec fn contains_seq(s: Seq<u8>, p: Seq<u8>) -> bool {
    exists|i: int| 0 <= i <= s.len() - p.len() && #[trigger] matches_at_spec(s, p, i)
}

/// Whether `p` matches `s` at offset `at`.
fn matches_at(s: &[u8], p: &[u8], at: usize) -> (b: bool)
    requires
        at + p@.len() <= s@.len(),
    ensures
        b == matches_at_spec(s@, p@, at as int),
{
    let n = s.len();
    let mut j: usize = 0;
    while j < p.len()
        invariant
            n == s@.len(),
            at + p@.len() <= s@.len(),
            j <= p@.len(),
            forall|k: int| 0 <= k < j ==> s@[at + k] == p@[k],
        decreases p@.len() - j,
    {
        if s[at + j] != p[j] {
            assert(s@.subrange(at as int, at + p@.len() as int)[j as int] != p@[j as int]);
            return false;
        }
        j = j + 1;
    }
    assert(s@.subrange(at as int, at + p@.len() as int) =~= p@);
    true
}

/// Tests whether `s` starts with `p`.
pub fn starts_with_bytes(s: &[u8], p: &[u8]) -> (b: bool)
    ensures
        b == has_prefix(s@, p@),
{
    if p.len() > s.len() {
        return false;
    }
    matches_at(s, p, 0)
}

/// Searches `s` for an occurrence of `p`.
pub fn contains_bytes(s: &[u8], p: &[u8]) -> (b: bool)
    ensures
        b == contains_seq(s@, p@),
{
    if p.len() > s.len() {
        assert(!contains_seq(s@, p@));
        return false;
    }
    if p.len() == 0 {
        assert(matches_at_spec(s@, p@, 0)) by {
            assert(s@.subrange(0, 0) =~= p@);
        }
        return true;
    }
    let n = s.len();
    let last = s.len() - p.len();
    let mut i: usize = 0;
    while i <= last
        invariant
            n == s@.len(),
            1 <= p@.len() <= s@.len(),
            last == s@.len() - p@.len(),
            i <= last + 1,
            forall|k: int| 0 <= k < i ==> !matches_at_spec(s@, p@, k),
        decreases last + 1 - i,
    {
        if matches_at(s, p, i) {
            assert(matches_at_spec(s@, p@, i as int));
            return true;
        }
        i = i + 1;
    }
    assert(!contains_seq(s@, p@));
    false
}

/// The ASCII bytes of `"/dev/video"`.
pub open spec fn dev_video_prefix() -> Seq<u8> {
    seq![0x2fu8, 0x64, 0x65, 0x76, 0x2f, 0x76, 0x69, 0x64, 0x65, 0x6f]
}

/// The ASCII bytes of `"/dev/fb"`.
pub open spec fn dev_fb_prefix() -> Seq<u8> {
    seq![0x2fu8, 0x64, 0x65, 0x76, 0x2f, 0x66, 0x62]
}

/// The ASCII bytes of `"video"`.
pub open spec fn video_word() -> Seq<u8> {
    seq![0x76u8, 0x69, 0x64, 0x65, 0x6f]
}

/// The ASCII bytes of `"Thumbnail"`, the capability marker of snapshot
/// devices.
pub open spec fn thumbnail_word() -> Seq<u8> {
    seq![0x54u8, 0x68, 0x75, 0x6d, 0x62, 0x6e, 0x61, 0x69, 0x6c]
}

/// Builds the `"/dev/video"` needle.
fn dev_video_prefix_vec() -> (v: Vec<u8>)
    ensures
        v@ == dev_video_prefix(),
{
    let mut v: Vec<u8> = Vec::new();
    v.push(0x2f);
    v.push(0x64);
    v.push(0x65);
    v.push(0x76);
    v.push(0x2f);
    v.push(0x76);
    v.push(0x69);
    v.push(0x64);
    v.push(0x65);
    v.push(0x6f);
    assert(v@ =~= dev_video_prefix());
    v
}

/// Builds the `"/dev/fb"` needle.
fn dev_fb_prefix_vec() -> (v: Vec<u8>)
    ensures
        v@ == dev_fb_prefix(),
{
    let mut v: Vec<u8> = Vec::new();
    v.push(0x2f);
    v.push(0x64);
    v.push(0x65);
    v.push(0x76);
    v.push(0x2f);
    v.push(0x66);
    v.push(0x62);
    assert(v@ =~= dev_fb_prefix());
    v
}

/// Builds the `"video"` needle.
fn video_word_vec() -> (v: Vec<u8>)
    ensures
        v@ == video_word(),
{
    let mut v: Vec<u8> = Vec::new();
    v.push(0x76);
    v.push(0x69);
    v.push(0x64);
    v.push(0x65);
    v.push(0x6f);
    assert(v@ =~= video_word());
    v
}

/// Builds the `"Thumbnail"` needle.
fn thumbnail_word_vec() -> (v: Vec<u8>)
    ensures
        v@ == thumbnail_word(),
{
    let mut v: Vec<u8> = Vec::new();
    v.push(0x54);
    v.push(0x68);
    v.push(0x75);
    v.push(0x6d);
    v.push(0x62);
    v.push(0x6e);
    v.push(0x61);
    v.push(0x69);
    v.push(0x6c);
    assert(v@ =~= thumbnail_word());
    v
}

/// What probing the devices found; gathered by the caller, which alone may
/// touch the filesystem.
#[derive(Clone, Copy, PartialEq, Eq, Structural)]
pub struct DeviceProbe {
    /// The configured path exists.
    pub path_exists: bool,
    /// Opening the configured path as a V4L2 device succeeded.
    pub v4l2_opens: bool,
    /// `/dev/fb0` exists.
    pub fb0_exists: bool,
    /// `/dev/fb1` exists.
    pub fb1_exists: bool,
}

/// The capture mode chosen for a path and its probe results.  A
/// V4L2-looking path that opens is streamed; failing that, an existing
/// framebuffer is read; an existing path of unknown kind falls back to the
/// framebuffer reader; with nothing available the deterministic pattern
/// drives the pipeline.
pub open spec fn spec_choose_mode(path: Seq<u8>, probe: DeviceProbe, force_framebuffer: bool) -> CaptureMode {
    if force_framebuffer {
        CaptureMode::Framebuffer
    } else if has_prefix(path, dev_video_prefix()) && probe.path_exists && probe.v4l2_opens {
        CaptureMode::V4L2
    } else if has_prefix(path, dev_video_prefix()) && (probe.fb0_exists || probe.fb1_exists) {
        CaptureMode::Framebuffer
    } else if has_prefix(path, dev_fb_prefix()) && probe.path_exists {
        CaptureMode::Framebuffer
    } else if probe.path_exists {
        if contains_seq(path, video_word()) && probe.v4l2_opens {
            CaptureMode::V4L2
        } else {
            CaptureMode::Framebuffer
        }
    } else {
        CaptureMode::Mock
    }
}

/// Chooses the capture mode for a device path from its probe results.
pub fn choose_capture_mode(path: &str, probe: &DeviceProbe, force_framebuffer: bool) -> (m: CaptureMode)
    ensures
        m == spec_choose_mode(path.spec_bytes(), *probe, force_framebuffer),
{
    if force_framebuffer {
        return CaptureMode::Framebuffer;
    }
    let bytes = path.as_bytes();
    let video_pref = dev_video_prefix_vec();
    let fb_pref = dev_fb_prefix_vec();
    if starts_with_bytes(bytes, video_pref.as_slice()) && probe.path_exists && probe.v4l2_opens {
        CaptureMode::V4L2
    } else if starts_with_bytes(bytes, video_pref.as_slice()) && (probe.fb0_exists
        || probe.fb1_exists) {
        CaptureMode::Framebuffer
    } else if starts_with_bytes(bytes, fb_pref.as_slice()) && probe.path_exists {
        CaptureMode::Framebuffer
    } else if probe.path_exists {
        let video = video_word_vec();
        if contains_bytes(bytes, video.as_slice()) && probe.v4l2_opens {
            CaptureMode::V4L2
        } else {
            CaptureMode::Framebuffer
        }
    } else {
        CaptureMode::Mock
    }
}

/// Whether a V4L2 capability string marks a snapshot device, which is
/// captured one frame at a time instead of streamed.
pub fn caps_indicate_snapshot(caps: &str) -> (b: bool)
    ensures
        b == contains_seq(caps.spec_bytes(), thumbnail_word()),
{
    let needle = thumbnail_word_vec();
    contains_bytes(caps.as_bytes(), needle.as_slice())
}

/// The capture loop's memory: the last frame that was captured
/// successfully.
pub struct CaptureState {
    last_frame: Option<Vec<u8>>,
}

/// What a capture loop got from the device on one attempt.
pub enum CaptureEvent {
    /// A frame arrived, as raw bytes.
    Frame(Vec<u8>),
    /// The capture attempt failed.
    Failure,
}

/// What the capture loop must do after an attempt.
pub enum CaptureStep {
    /// Broadcast these bytes to the pipeline.
    Publish(Vec<u8>),
    /// Nothing to broadcast; back off and retry.
    Idle,
}

impl CaptureState {
    /// The remembered frame.
    pub closed spec fn last(&self) -> Option<Seq<u8>> {
        match self.last_frame {
            Some(ref f) => Some(f@),
            None => None,
        }
    }

    /// A fresh loop state that has captured nothing yet.
    pub fn new() -> (s: CaptureState)
        ensures
            s.last() is None,
    {
        CaptureState { last_frame: None }
    }

    /// Reacts to one capture attempt.  A fresh frame is remembered and
    /// broadcast; on failure the remembered frame is broadcast again, so
    /// clients see a frozen image rather than a disconnect, and only if
    /// nothing was ever captured is there nothing to send.
    pub fn on_event(&mut self, event: CaptureEvent) -> (step: CaptureStep)
        ensures
            event matches CaptureEvent::Frame(f) ==> {
                &&& (step matches CaptureStep::Publish(out) && out@ == f@)
                &&& final(self).last() == Some(f@)
            },
            event is Failure && old(self).last() is Some ==> {
                &&& (step matches CaptureStep::Publish(out) && Some(out@) == old(self).last())
                &&& final(self).last() == old(self).last()
            },
            event is Failure && old(self).last() is None ==> step is Idle && final(self).last()
                == old(self).last(),
    {
        match event {
            CaptureEvent::Frame(f) => {
                self.last_frame = Some(crate::pixel::copy_bytes(f.as_slice()));
                CaptureStep::Publish(f)
            },
            CaptureEvent::Failure => match &self.last_frame {
                Some(l) => CaptureStep::Publish(crate::pixel::copy_bytes(l.as_slice())),
                None => CaptureStep::Idle,
            },
        }
    }
}

/// The channel intensities of the test pattern's base color, which cycles
/// red, green, blue once a second at the nominal frame rate.
pub open spec fn mock_color(counter: u32) -> (u8, u8, u8) {
    if (counter / 30) % 3 == 0 {
        (255u8, 0u8, 0u8)
    } else if (counter / 30) % 3 == 1 {
        (0u8, 255u8, 0u8)
    } else {
        (0u8, 0u8, 255u8)
    }
}

/// Byte `j` of the test pattern for frame `counter`: pixel `j / 3` at
/// column `x` and row `y` has intensity `(x + y + counter) % 256`, scaled
/// into each channel of the base color.
pub open spec fn mock_byte(counter: u32, j: int) -> u8
    recommends
        0 <= j < 640 * 480 * 3,
{
    let pix = j / 3;
    let ch = j % 3;
    let x = pix % 640;
    let y = pix / 640;
    let intensity = (x + y + counter) % 256;
    let (r, g, b) = mock_color(counter);
    let base = if ch == 0 {
        r
    } else if ch == 1 {
        g
    } else {
        b
    };
    ((base * intensity) / 255) as u8
}

/// The whole 640 by 480 RGB24 test-pattern raster for frame `counter`.
pub open spec fn mock_frame_bytes(counter: u32) -> Seq<u8> {
    Seq::new((640 * 480 * 3) as nat, |j: int| mock_byte(counter, j))
}

/// Generates the deterministic 640 by 480 test-pattern frame for
/// `counter`, used when no capture device is available.
pub fn mock_frame(counter: u32) -> (f: NormalizedFrame)
    ensures
        f.width == 640,
        f.height == 480,
        f@.data == mock_frame_bytes(counter),
        f.wf(),
{
    let (r, g, b) = if (counter / 30) % 3 == 0 {
        (255u8, 0u8, 0u8)
    } else if (counter / 30) % 3 == 1 {
        (0u8, 255u8, 0u8)
    } else {
        (0u8, 0u8, 255u8)
    };
    let mut data: Vec<u8> = Vec::new();
    let mut p: usize = 0;
    while p < 640 * 480
        invariant
            p <= 640 * 480,
            data@.len() == 3 * p,
            (r, g, b) == mock_color(counter),
            forall|j: int| 0 <= j < 3 * p ==> data@[j] == mock_byte(counter, j),
        decreases 640 * 480 - p,
    {
        let x = p % 640;
        let y = p / 640;
        let intensity = ((x as u64 + y as u64 + counter as u64) % 256) as u32;
        assert(r as u32 * intensity <= 65025 && g as u32 * intensity <= 65025 && b as u32
            * intensity <= 65025) by (nonlinear_arith)
            requires
                intensity <= 255,
                r <= 255,
                g <= 255,
                b <= 255,
        ;
        let rb = ((r as u32 * intensity) / 255) as u8;
        let gb = ((g as u32 * intensity) / 255) as u8;
        let bb = ((b as u32 * intensity) / 255) as u8;
        let ghost prev = data@;
        data.push(rb);
        data.push(gb);
        data.push(bb);
        proof {
            assert(data@ =~= prev + seq![rb, gb, bb]);
            assert forall|j: int| 3 * p <= j < 3 * p + 3 implies data@[j] == mock_byte(
                counter,
                j,
            ) by {
                crate::pixel::lemma_div_small(j, p as int, 3);
            }
        }
        p = p + 1;
    }
    let f = NormalizedFrame { width: 640, height: 480, data };
    assert(f@.data =~= mock_frame_bytes(counter));
    f
}


/// `b` is an ASCII decimal digit.
pub open spec fn is_digit(b: u8) -> bool {
    0x30 <= b <= 0x39
}

/// Every byte of `s` is a digit.
pub open spec fn all_digits(s: Seq<u8>) -> bool {
    forall|i: int| 0 <= i < s.len() ==> is_digit(#[trigger] s[i])
}

/// The number a digit string denotes.
pub open spec fn digits_value(s: Seq<u8>) -> int
    decreases s.len(),
{
    if s.len() == 0 {
        0
    } else {
        digits_value(s.drop_last()) * 10 + (s.last() - 0x30)
    }
}

proof fn lemma_digits_nonneg(s: Seq<u8>)
    requires
        all_digits(s),
    ensures
        digits_value(s) >= 0,
    decreases s.len(),
{
    if s.len() > 0 {
        assert forall|i: int| 0 <= i < s.drop_last().len() implies is_digit(
            #[trigger] s.drop_last()[i],
        ) by {
            assert(s.drop_last()[i] == s[i]);
        }
        lemma_digits_nonneg(s.drop_last());
        assert(is_digit(s.last()));
    }
}

proof fn lemma_digits_take_succ(s: Seq<u8>, i: int)
    requires
        0 <= i < s.len(),
    ensures
        digits_value(s.take(i + 1)) == digits_value(s.take(i)) * 10 + (s[i] - 0x30),
{
    assert(s.take(i + 1).drop_last() =~= s.take(i));
    assert(s.take(i + 1).last() == s[i]);
}

proof fn lemma_digits_prefix_le(s: Seq<u8>, i: int)
    requires
        all_digits(s),
        0 <= i <= s.len(),
    ensures
        digits_value(s.take(i)) <= digits_value(s),
    decreases s.len() - i,
{
    if i == s.len() {
        assert(s.take(i) =~= s);
    } else {
        lemma_digits_take_succ(s, i);
        assert forall|j: int| 0 <= j < s.take(i).len() implies is_digit(
            #[trigger] s.take(i)[j],
        ) by {
            assert(s.take(i)[j] == s[j]);
        }
        lemma_digits_nonneg(s.take(i));
        assert(is_digit(s[i]));
        lemma_digits_prefix_le(s, i + 1);
    }
}

/// What parsing an unsigned decimal accepts: an optional leading plus,
/// then one or more digits denoting a value that fits the machine word.
pub open spec fn usize_parse(s: Seq<u8>) -> Option<int> {
    let t = if s.len() > 0 && s[0] == 0x2b {
        s.skip(1)
    } else {
        s
    };
    if t.len() > 0 && all_digits(t) && digits_value(t) <= usize::MAX {
        Some(digits_value(t))
    } else {
        None
    }
}

/// Parses an unsigned decimal number, with the standard library's
/// semantics: an optional `+`, digits only, and failure on overflow.
pub fn parse_usize(s: &[u8]) -> (r: Option<usize>)
    ensures
        usize_parse(s@) matches Some(v) ==> (r matches Some(x) && x == v),
        usize_parse(s@) is None ==> r is None,
{
    let n = s.len();
    let start: usize = if n > 0 && s[0] == 0x2b {
        1
    } else {
        0
    };
    let ghost t = if s@.len() > 0 && s@[0] == 0x2b {
        s@.skip(1)
    } else {
        s@
    };
    assert(t =~= s@.subrange(start as int, n as int));
    if n == start {
        return None;
    }
    let mut acc: usize = 0;
    let mut i: usize = start;
    while i < n
        invariant
            n == s@.len(),
            start == (if s@.len() > 0 && s@[0] == 0x2b {
                1int
            } else {
                0int
            }),
            t == (if s@.len() > 0 && s@[0] == 0x2b {
                s@.skip(1)
            } else {
                s@
            }),
            t.len() == n - start,
            start <= i <= n,
            start < n,
            all_digits(t.take(i - start)),
            acc == digits_value(t.take(i - start)),
        decreases n - i,
    {
        let b = s[i];
        if b < 0x30 || b > 0x39 {
            assert(t[i - start] == s@[i as int]);
            assert(!is_digit(t[i - start]));
            assert(!all_digits(t));
            return None;
        }
        let d = (b - 0x30) as usize;
        assert(t[i - start] == s@[i as int]);
        if acc > (usize::MAX - d) / 10 {
            proof {
                vstd::arithmetic::div_mod::lemma_fundamental_div_mod(usize::MAX - d, 10);
                assert(acc * 10 + d > usize::MAX);
                lemma_digits_take_succ(t, i - start);
                if all_digits(t) {
                    lemma_digits_prefix_le(t, i - start + 1);
                }
            }
            return None;
        }
        proof {
            vstd::arithmetic::div_mod::lemma_fundamental_div_mod(usize::MAX - d, 10);
            vstd::arithmetic::div_mod::lemma_mod_bound(usize::MAX - d, 10);
        }
        assert(acc * 10 + d <= usize::MAX);
        proof {
            lemma_digits_take_succ(t, i - start);
            assert forall|j: int| 0 <= j < i + 1 - start implies is_digit(
                #[trigger] t.take(i + 1 - start)[j],
            ) by {
                assert(t.take(i + 1 - start)[j] == t[j]);
                if j < i - start {
                    assert(t.take((i - start) as int)[j] == t[j]);
                }
            }
        }
        acc = acc * 10 + d;
        i = i + 1;
    }
    proof {
        assert(t.take((n - start) as int) =~= t);
    }
    Some(acc)
}

/// The numeric index a `/dev/videoN` path names; an unparsable suffix or a
/// path of another shape falls back to index 0.
pub open spec fn device_index_spec(path: Seq<u8>) -> int {
    if has_prefix(path, dev_video_prefix()) {
        match usize_parse(path.skip(10)) {
            Some(v) => v,
            None => 0,
        }
    } else {
        0
    }
}

/// Extracts the device index from a V4L2 device path.
pub fn device_index_from_path(path: &str) -> (r: usize)
    ensures
        r == device_index_spec(path.spec_bytes()),
{
    let bytes = path.as_bytes();
    let pref = dev_video_prefix_vec();
    if starts_with_bytes(bytes, pref.as_slice()) {
        let rest = &bytes[10..bytes.len()];
        assert(rest@ =~= path.spec_bytes().skip(10));
        match parse_usize(rest) {
            Some(v) => v,
            None => 0,
        }
    } else {
        0
    }
}


/// `b` is ASCII whitespace, the set a trim removes.
pub open spec fn is_space(b: u8) -> bool {
    b == 0x20 || 0x09 <= b <= 0x0d
}

/// The index of the first non-whitespace byte, or the length when there
/// is none.
pub open spec fn first_non_space(s: Seq<u8>) -> int
    decreases s.len(),
{
    if s.len() == 0 {
        0
    } else if is_space(s[0]) {
        1 + first_non_space(s.skip(1))
    } else {
        0
    }
}

/// One past the index of the last non-whitespace byte, or zero when there
/// is none.
pub open spec fn end_non_space(s: Seq<u8>) -> int
    decreases s.len(),
{
    if s.len() == 0 {
        0
    } else if is_space(s.last()) {
        end_non_space(s.drop_last())
    } else {
        s.len() as int
    }
}

/// `s` with leading and trailing whitespace removed.
pub open spec fn trim_spec(s: Seq<u8>) -> Seq<u8> {
    if first_non_space(s) <= end_non_space(s) {
        s.subrange(first_non_space(s), end_non_space(s))
    } else {
        Seq::empty()
    }
}

proof fn lemma_first_non_space_at(s: Seq<u8>, lo: int)
    requires
        0 <= lo <= s.len(),
        forall|i: int| 0 <= i < lo ==> is_space(#[trigger] s[i]),
        lo < s.len() ==> !is_space(s[lo]),
    ensures
        first_non_space(s) == lo,
    decreases lo,
{
    if lo > 0 {
        assert(is_space(s[0]));
        assert forall|i: int| 0 <= i < lo - 1 implies is_space(#[trigger] s.skip(1)[i]) by {
            assert(s.skip(1)[i] == s[i + 1]);
        }
        if lo - 1 < s.skip(1).len() {
            assert(s.skip(1)[lo - 1] == s[lo]);
        }
        lemma_first_non_space_at(s.skip(1), lo - 1);
    }
}

proof fn lemma_end_non_space_bound(s: Seq<u8>)
    ensures
        0 <= end_non_space(s) <= s.len(),
    decreases s.len(),
{
    if s.len() > 0 && is_space(s.last()) {
        lemma_end_non_space_bound(s.drop_last());
    }
}

proof fn lemma_end_non_space_at(s: Seq<u8>, hi: int)
    requires
        0 <= hi <= s.len(),
        forall|i: int| hi <= i < s.len() ==> is_space(#[trigger] s[i]),
        hi > 0 ==> !is_space(s[hi - 1]),
    ensures
        end_non_space(s) == hi,
    decreases s.len() - hi,
{
    if hi == s.len() {
        if s.len() > 0 {
            assert(!is_space(s.last()));
        }
    } else {
        assert(is_space(s.last()));
        assert forall|i: int| hi <= i < s.drop_last().len() implies is_space(
            #[trigger] s.drop_last()[i],
        ) by {
            assert(s.drop_last()[i] == s[i]);
        }
        if hi > 0 {
            assert(s.drop_last()[hi - 1] == s[hi - 1]);
        }
        lemma_end_non_space_at(s.drop_last(), hi);
    }
}

/// Whether a byte is ASCII whitespace.
fn is_space_byte(b: u8) -> (r: bool)
    ensures
        r == is_space(b),
{
    b == 0x20 || (0x09 <= b && b <= 0x0d)
}

/// The bounds of `s` with surrounding whitespace removed: the slice
/// `s[r.0..r.1]` is the trimmed text.
fn trim_bounds(s: &[u8]) -> (r: (usize, usize))
    ensures
        r.0 <= r.1 <= s@.len(),
        s@.subrange(r.0 as int, r.1 as int) == trim_spec(s@),
{
    let n = s.len();
    let mut lo: usize = 0;
    while lo < n && is_space_byte(s[lo])
        invariant
            n == s@.len(),
            lo <= n,
            forall|i: int| 0 <= i < lo ==> is_space(#[trigger] s@[i]),
        decreases n - lo,
    {
        lo = lo + 1;
    }
    proof {
        lemma_first_non_space_at(s@, lo as int);
    }
    if lo == n {
        proof {
            if n > 0 {
                assert(is_space(s@.last()));
                lemma_end_non_space_bound(s@.drop_last());
            }
            assert(s@.subrange(n as int, n as int) =~= trim_spec(s@));
        }
        return (n, n);
    }
    let mut hi: usize = n;
    while hi > lo && is_space_byte(s[hi - 1])
        invariant
            n == s@.len(),
            lo < n,
            !is_space(s@[lo as int]),
            lo < hi <= n,
            forall|i: int| hi <= i < n ==> is_space(#[trigger] s@[i]),
        decreases hi,
    {
        hi = hi - 1;
    }
    proof {
        lemma_end_non_space_at(s@, hi as int);
    }
    (lo, hi)
}

/// How many commas `s` holds.
pub open spec fn comma_count(s: Seq<u8>) -> int
    decreases s.len(),
{
    if s.len() == 0 {
        0
    } else {
        comma_count(s.drop_last()) + if s.last() == 0x2c {
            1int
        } else {
            0int
        }
    }
}

/// The index of the first comma, or the length when there is none.
pub open spec fn comma_index(s: Seq<u8>) -> int
    decreases s.len(),
{
    if s.len() == 0 {
        0
    } else if s[0] == 0x2c {
        0
    } else {
        1 + comma_index(s.skip(1))
    }
}

proof fn lemma_comma_count_take(s: Seq<u8>, i: int)
    requires
        0 <= i < s.len(),
    ensures
        comma_count(s.take(i + 1)) == comma_count(s.take(i)) + if s[i] == 0x2c {
            1int
        } else {
            0int
        },
{
    assert(s.take(i + 1).drop_last() =~= s.take(i));
    assert(s.take(i + 1).last() == s[i]);
}

proof fn lemma_comma_index_at(s: Seq<u8>, i: int)
    requires
        0 <= i < s.len(),
        forall|j: int| 0 <= j < i ==> s[j] != 0x2c,
        s[i] == 0x2c,
    ensures
        comma_index(s) == i,
    decreases i,
{
    if i > 0 {
        assert forall|j: int| 0 <= j < i - 1 implies s.skip(1)[j] != 0x2c by {
            assert(s.skip(1)[j] == s[j + 1]);
        }
        assert(s.skip(1)[i - 1] == s[i]);
        lemma_comma_index_at(s.skip(1), i - 1);
    }
}

/// Finds the unique comma of `s`, when there is exactly one.
fn find_single_comma(s: &[u8]) -> (r: Option<usize>)
    ensures
        comma_count(s@) == 1 ==> (r matches Some(i) && i == comma_index(s@) && i < s@.len()),
        comma_count(s@) != 1 ==> r is None,
{
    let n = s.len();
    let mut count: usize = 0;
    let mut found: usize = 0;
    let mut i: usize = 0;
    while i < n
        invariant
            n == s@.len(),
            i <= n,
            count <= i,
            count == comma_count(s@.take(i as int)),
            count > 0 ==> found < i && s@[found as int] == 0x2c && forall|j: int|
                0 <= j < found ==> s@[j] != 0x2c,
            count == 0 ==> forall|j: int| 0 <= j < i ==> s@[j] != 0x2c,
        decreases n - i,
    {
        proof {
            lemma_comma_count_take(s@, i as int);
        }
        if s[i] == 0x2c {
            if count == 0 {
                found = i;
            }
            count = count + 1;
        }
        i = i + 1;
    }
    proof {
        assert(s@.take(n as int) =~= s@);
    }
    if count == 1 {
        proof {
            lemma_comma_index_at(s@, found as int);
        }
        Some(found)
    } else {
        None
    }
}

/// What a sysfs `virtual_size` line denotes after trimming: two
/// comma-separated unsigned decimals.
pub open spec fn fb_size_parse(size: Seq<u8>) -> Option<(int, int)> {
    let t = trim_spec(size);
    if comma_count(t) == 1 {
        let ci = comma_index(t);
        match (usize_parse(t.subrange(0, ci)), usize_parse(t.subrange(ci + 1, t.len() as int))) {
            (Some(w), Some(h)) => Some((w, h)),
            _ => None,
        }
    } else {
        None
    }
}

/// What the two sysfs lines denote: width and height from `virtual_size`,
/// bits per pixel from `bits_per_pixel`, and the bytes per pixel rounded
/// up to whole bytes.
pub open spec fn fb_info_spec(size: Seq<u8>, bpp: Seq<u8>) -> Option<(int, int, int)> {
    match fb_size_parse(size) {
        Some((w, h)) => match usize_parse(trim_spec(bpp)) {
            Some(bits) => {
                if bits + 7 <= usize::MAX {
                    Some((w, h, (bits + 7) / 8))
                } else {
                    None
                }
            },
            None => None,
        },
        None => None,
    }
}

/// Parses the two sysfs probe lines of a framebuffer device: its
/// `W,H` virtual size and its bits per pixel, yielding width, height and
/// bytes per pixel.
pub fn parse_fb_info(size_text: &[u8], bpp_text: &[u8]) -> (r: Option<(usize, usize, usize)>)
    ensures
        fb_info_spec(size_text@, bpp_text@) matches Some(t) ==> (r matches Some(x) && x.0 == t.0
            && x.1 == t.1 && x.2 == t.2),
        fb_info_spec(size_text@, bpp_text@) is None ==> r is None,
{
    let (lo, hi) = trim_bounds(size_text);
    let st = &size_text[lo..hi];
    let ghost t = trim_spec(size_text@);
    match find_single_comma(st) {
        Some(ci) => {
            let left = &st[0..ci];
            let right = &st[ci + 1..st.len()];
            proof {
                assert(left@ =~= t.subrange(0, ci as int));
                assert(right@ =~= t.subrange(ci + 1, t.len() as int));
            }
            match (parse_usize(left), parse_usize(right)) {
                (Some(w), Some(h)) => {
                    let (blo, bhi) = trim_bounds(bpp_text);
                    let bt = &bpp_text[blo..bhi];
                    match parse_usize(bt) {
                        Some(bits) => {
                            if bits <= usize::MAX - 7 {
                                Some((w, h, (bits + 7) / 8))
                            } else {
                                None
                            }
                        },
                        None => None,
                    }
                },
                _ => None,
            }
        },
        None => None,
    }
}


/// The byte length of one raw framebuffer frame, when
/// `width * height * bytes_per_pixel` fits the machine word.
pub fn fb_buffer_len(width: usize, height: usize, bytes_per_pixel: usize) -> (r: Option<usize>)
    ensures
        width * height * bytes_per_pixel <= usize::MAX ==> (r matches Some(n) && n == width
            * height * bytes_per_pixel),
        width * height * bytes_per_pixel > usize::MAX ==> r is None,
{
    match width.checked_mul(height) {
        Some(p) => match p.checked_mul(bytes_per_pixel) {
            Some(n) => Some(n),
            None => None,
        },
        None => {
            proof {
                assert(width * height * bytes_per_pixel > usize::MAX || width * height
                    * bytes_per_pixel <= usize::MAX);
                if width * height > usize::MAX && bytes_per_pixel == 0 {
                    assert(width * height * bytes_per_pixel == 0) by (nonlinear_arith)
                        requires
                            bytes_per_pixel == 0,
                    ;
                }
            }
            if bytes_per_pixel == 0 {
                Some(0)
            } else {
                proof {
                    assert(width * height * bytes_per_pixel >= width * height) by (nonlinear_arith)
                        requires
                            bytes_per_pixel >= 1,
                            width * height >= 0,
                    ;
                }
                None
            }
        },
    }
}

} // verus!
