//! The frame normalizer: decoding and converting captured frames of any
//! supported pixel layout into a canonical RGB24 raster.
//!
//! YUYV is expanded with BT.601 full-range coefficients in fixed-point
//! (thousandths, truncated toward zero, as the conversion's real-valued
//! coefficients prescribe).  Dimensions of headerless layouts are deduced
//! by matching the byte length against a fixed candidate set.

use vstd::prelude::*;

use crate::jpeg::{decode_jpeg, jpeg_decode};

verus! {

/// The dimensions whose pixel count matches `pixels`, drawn from the
/// candidate set 1920x1080, 1280x720, 640x480, 320x240.
pub open spec fn candidate_dims(pixels: int) -> Option<(u16, u16)> {
    if pixels == 1920 * 1080 {
        Some((1920u16, 1080u16))
    } else if pixels == 1280 * 720 {
        Some((1280u16, 720u16))
    } else if pixels == 640 * 480 {
        Some((640u16, 480u16))
    } else if pixels == 320 * 240 {
        Some((320u16, 240u16))
    } else {
        None
    }
}

/// Matches a pixel count against the candidate dimension set.
pub fn match_dims(pixels: usize) -> (r: Option<(u16, u16)>)
    ensures
        r == candidate_dims(pixels as int),
{
    if pixels == 1920 * 1080 {
        Some((1920, 1080))
    } else if pixels == 1280 * 720 {
        Some((1280, 720))
    } else if pixels == 640 * 480 {
        Some((640, 480))
    } else if pixels == 320 * 240 {
        Some((320, 240))
    } else {
        None
    }
}

/// A frame normalized to RGB24: `data` holds `width * height` pixels of
/// three bytes each, in R, G, B order.
pub struct NormalizedFrame {
    pub width: u16,
    pub height: u16,
    pub data: Vec<u8>,
}

/// The mathematical model of a [`NormalizedFrame`].
pub struct FrameModel {
    pub width: u16,
    pub height: u16,
    pub data: Seq<u8>,
}

impl View for NormalizedFrame {
    type V = FrameModel;

    open spec fn view(&self) -> FrameModel {
        FrameModel { width: self.width, height: self.height, data: self.data@ }
    }
}

impl NormalizedFrame {
    /// The raster length agrees with the dimensions.
    pub open spec fn wf(&self) -> bool {
        self.data@.len() == self.width * self.height * 3
    }

    /// Copies the frame.
    pub fn duplicate(&self) -> (r: Self)
        ensures
            r@ == self@,
    {
        NormalizedFrame {
            width: self.width,
            height: self.height,
            data: copy_bytes(self.data.as_slice()),
        }
    }
}

/// Copies a byte slice into a fresh vector.
pub fn copy_bytes(src: &[u8]) -> (r: Vec<u8>)
    ensures
        r@ == src@,
{
    let mut out: Vec<u8> = Vec::new();
    let mut i: usize = 0;
    while i < src.len()
        invariant
            i <= src@.len(),
            out@ == src@.take(i as int),
        decreases src@.len() - i,
    {
        out.push(src[i]);
        i = i + 1;
        assert(out@ =~= src@.take(i as int));
    }
    assert(out@ =~= src@);
    out
}

/// Truncating-toward-zero division by 1000, the rounding a real-to-integer
/// conversion applies to the scaled chroma products.
pub open spec fn tdiv1000(x: int) -> int {
    if x >= 0 {
        x / 1000
    } else {
        -((-x) / 1000)
    }
}

/// Clamps an integer into an unsigned byte.
pub open spec fn clip255(x: int) -> u8 {
    if x < 0 {
        0u8
    } else if x > 255 {
        255u8
    } else {
        x as u8
    }
}

/// The red channel of a YUV pixel: `clip(Y + 1.402 * (V - 128))`.
pub open spec fn yuv_r_spec(y: u8, v: u8) -> u8 {
    clip255(y + tdiv1000(1402 * (v - 128)))
}

/// The green channel: `clip(Y - 0.344 * (U - 128) - 0.714 * (V - 128))`.
pub open spec fn yuv_g_spec(y: u8, u: u8, v: u8) -> u8 {
    clip255(y - tdiv1000(344 * (u - 128)) - tdiv1000(714 * (v - 128)))
}

/// The blue channel: `clip(Y + 1.772 * (U - 128))`.
pub open spec fn yuv_b_spec(y: u8, u: u8) -> u8 {
    clip255(y + tdiv1000(1772 * (u - 128)))
}

/// Byte `j` of the RGB expansion of a YUYV sequence.  Each 4-byte
/// macropixel `Y0 U Y1 V` at index `j / 6` yields six RGB bytes.
pub open spec fn yuyv_byte(s: Seq<u8>, j: int) -> u8
    recommends
        0 <= j < (s.len() / 4) * 6,
{
    let m = j / 6;
    let c = j % 6;
    let y0 = s[4 * m];
    let u = s[4 * m + 1];
    let y1 = s[4 * m + 2];
    let v = s[4 * m + 3];
    if c == 0 {
        yuv_r_spec(y0, v)
    } else if c == 1 {
        yuv_g_spec(y0, u, v)
    } else if c == 2 {
        yuv_b_spec(y0, u)
    } else if c == 3 {
        yuv_r_spec(y1, v)
    } else if c == 4 {
        yuv_g_spec(y1, u, v)
    } else {
        yuv_b_spec(y1, u)
    }
}

/// The RGB24 expansion of a YUYV sequence: six output bytes for every
/// complete 4-byte macropixel, any trailing partial macropixel ignored.
pub open spec fn yuyv_rgb(s: Seq<u8>) -> Seq<u8> {
    Seq::new((s.len() / 4) * 6, |j: int| yuyv_byte(s, j))
}

/// A YUYV input of length `4 * k` expands to exactly `6 * k` RGB bytes.
pub proof fn lemma_yuyv_length(s: Seq<u8>, k: nat)
    requires
        s.len() == 4 * k,
    ensures
        yuyv_rgb(s).len() == 6 * k,
{
    assert((4 * k) / 4 == k) by (nonlinear_arith);
}

/// The scaled chroma term `coeff/1000 * (c - 128)`, truncated toward zero.
fn chroma_term(coeff: u32, c: u8) -> (t: i32)
    requires
        coeff <= 2000,
    ensures
        t == tdiv1000(coeff * (c - 128)),
        -256 <= t <= 256,
{
    if c >= 128 {
        let d = (c - 128) as u32;
        assert(coeff * d <= 254000) by (nonlinear_arith)
            requires
                coeff <= 2000,
                d <= 127,
        ;
        ((coeff * d) / 1000) as i32
    } else {
        let d = (128 - c) as u32;
        assert(coeff * d <= 256000) by (nonlinear_arith)
            requires
                coeff <= 2000,
                d <= 128,
        ;
        let q = (coeff * d) / 1000;
        proof {
            assert(coeff * (c - 128) == -(coeff * d)) by (nonlinear_arith)
                requires
                    d == 128 - c,
            ;
        }
        -(q as i32)
    }
}

/// Clamps into a byte.
fn clip_i32(x: i32) -> (r: u8)
    ensures
        r == clip255(x as int),
{
    if x < 0 {
        0
    } else if x > 255 {
        255
    } else {
        x as u8
    }
}

/// Division and remainder by a small constant, written out for the prover.
pub(crate) proof fn lemma_div_small(j: int, m: int, k: int)
    requires
        2 <= k,
        k * m <= j < k * m + k,
    ensures
        j / k == m,
        j % k == j - k * m,
{
    assert(j == m * k + (j - k * m)) by (nonlinear_arith);
    vstd::arithmetic::div_mod::lemma_fundamental_div_mod_converse(j, k, m, j - k * m);
}

/// Expands a YUYV byte sequence into RGB24.
pub fn convert_yuyv(data: &[u8]) -> (r: Vec<u8>)
    ensures
        r@ == yuyv_rgb(data@),
{
    let mut out: Vec<u8> = Vec::new();
    let n = data.len() / 4;
    assert(4 * n <= data@.len());
    let mut m: usize = 0;
    while m < n
        invariant
            n == data@.len() / 4,
            data@.len() <= usize::MAX,
            4 * n <= data@.len(),
            m <= n,
            out@.len() == 6 * m,
            forall|j: int| 0 <= j < 6 * m ==> out@[j] == yuyv_byte(data@, j),
        decreases n - m,
    {
        assert(4 * m + 3 < data@.len());
        let y0 = data[4 * m];
        let u = data[4 * m + 1];
        let y1 = data[4 * m + 2];
        let v = data[4 * m + 3];
        let rt = chroma_term(1402, v);
        let gu = chroma_term(344, u);
        let gv = chroma_term(714, v);
        let bt = chroma_term(1772, u);
        let r0 = clip_i32(y0 as i32 + rt);
        let g0 = clip_i32(y0 as i32 - gu - gv);
        let b0 = clip_i32(y0 as i32 + bt);
        let r1 = clip_i32(y1 as i32 + rt);
        let g1 = clip_i32(y1 as i32 - gu - gv);
        let b1 = clip_i32(y1 as i32 + bt);
        let ghost prev = out@;
        out.push(r0);
        out.push(g0);
        out.push(b0);
        out.push(r1);
        out.push(g1);
        out.push(b1);
        proof {
            assert(out@ =~= prev + seq![r0, g0, b0, r1, g1, b1]);
            assert forall|j: int| 6 * m <= j < 6 * m + 6 implies out@[j] == yuyv_byte(
                data@,
                j,
            ) by {
                lemma_div_small(j, m as int, 6);
            }
        }
        m = m + 1;
    }
    assert(out@ =~= yuyv_rgb(data@));
    out
}

/// Byte `j` of the BGRA-to-RGB reordering: pixel `j / 3` contributes its
/// B, G, R bytes in reversed order, and its alpha byte is dropped.
pub open spec fn bgra_byte(s: Seq<u8>, j: int) -> u8
    recommends
        0 <= j < (s.len() / 4) * 3,
{
    let p = j / 3;
    let c = j % 3;
    if c == 0 {
        s[4 * p + 2]
    } else if c == 1 {
        s[4 * p + 1]
    } else {
        s[4 * p]
    }
}

/// The RGB24 reordering of a BGRA sequence: three output bytes for every
/// complete 4-byte pixel.
pub open spec fn bgra_rgb(s: Seq<u8>) -> Seq<u8> {
    Seq::new((s.len() / 4) * 3, |j: int| bgra_byte(s, j))
}

/// Reorders a BGRA byte sequence into RGB24, dropping alpha.
pub fn convert_bgra(data: &[u8]) -> (r: Vec<u8>)
    ensures
        r@ == bgra_rgb(data@),
{
    let mut out: Vec<u8> = Vec::new();
    let n = data.len() / 4;
    assert(4 * n <= data@.len());
    let mut p: usize = 0;
    while p < n
        invariant
            n == data@.len() / 4,
            data@.len() <= usize::MAX,
            4 * n <= data@.len(),
            p <= n,
            out@.len() == 3 * p,
            forall|j: int| 0 <= j < 3 * p ==> out@[j] == bgra_byte(data@, j),
        decreases n - p,
    {
        assert(4 * p + 2 < data@.len());
        let b = data[4 * p];
        let g = data[4 * p + 1];
        let r = data[4 * p + 2];
        let ghost prev = out@;
        out.push(r);
        out.push(g);
        out.push(b);
        proof {
            assert(out@ =~= prev + seq![r, g, b]);
            assert forall|j: int| 3 * p <= j < 3 * p + 3 implies out@[j] == bgra_byte(
                data@,
                j,
            ) by {
                lemma_div_small(j, p as int, 3);
            }
        }
        p = p + 1;
    }
    assert(out@ =~= bgra_rgb(data@));
    out
}

/// The pixel layout a captured frame declares.
pub enum PixelLayout {
    /// A self-describing JPEG picture.
    Mjpeg,
    /// 4:2:2 packed luma-chroma, two bytes per pixel.
    Yuyv,
    /// Already R, G, B, three bytes per pixel.
    Rgb24,
    /// A raw framebuffer dump with this many bytes per pixel; only four
    /// (BGRA) is convertible.
    RawFb(u8),
}

/// What the normalizer produces for a frame of the given layout, or `None`
/// when the frame is rejected.
pub open spec fn spec_normalize(data: Seq<u8>, layout: PixelLayout) -> Option<FrameModel> {
    match layout {
        PixelLayout::Mjpeg => match jpeg_decode(data) {
            Some((w, h, raster)) => {
                if 0 < w <= 0xffff && 0 < h <= 0xffff {
                    Some(FrameModel { width: w as u16, height: h as u16, data: raster })
                } else {
                    None
                }
            },
            None => None,
        },
        PixelLayout::Yuyv => {
            if data.len() % 4 == 0 && candidate_dims((data.len() / 2) as int) is Some {
                let (w, h) = candidate_dims((data.len() / 2) as int)->Some_0;
                Some(FrameModel { width: w, height: h, data: yuyv_rgb(data) })
            } else {
                None
            }
        },
        PixelLayout::Rgb24 => {
            if data.len() % 3 == 0 && candidate_dims((data.len() / 3) as int) is Some {
                let (w, h) = candidate_dims((data.len() / 3) as int)->Some_0;
                Some(FrameModel { width: w, height: h, data: data })
            } else {
                None
            }
        },
        PixelLayout::RawFb(bpp) => {
            if bpp == 4 && data.len() % 4 == 0 && candidate_dims((data.len() / 4) as int) is Some {
                let (w, h) = candidate_dims((data.len() / 4) as int)->Some_0;
                Some(FrameModel { width: w, height: h, data: bgra_rgb(data) })
            } else {
                None
            }
        },
    }
}

/// Normalizes a frame of a declared layout to RGB24.  A rejected frame
/// (undecodable JPEG, oversized decoded dimensions, or a byte length that
/// matches no candidate dimensions) yields `None`; an accepted frame always
/// satisfies the raster-length invariant.
pub fn normalize_frame(data: &[u8], layout: &PixelLayout) -> (r: Option<NormalizedFrame>)
    ensures
        r matches Some(f) ==> spec_normalize(data@, *layout) == Some(f@) && f.wf(),
        r is None ==> spec_normalize(data@, *layout) is None,
{
    match layout {
        PixelLayout::Mjpeg => match decode_jpeg(data) {
            Some((w, h, raster)) => {
                if 0 < w && w <= 0xffff && 0 < h && h <= 0xffff {
                    let f = NormalizedFrame { width: w as u16, height: h as u16, data: raster };
                    assert(f.wf());
                    Some(f)
                } else {
                    None
                }
            },
            None => None,
        },
        PixelLayout::Yuyv => {
            if data.len() % 4 == 0 {
                match match_dims(data.len() / 2) {
                    Some((w, h)) => {
                        let f = NormalizedFrame { width: w, height: h, data: convert_yuyv(data) };
                        proof {
                            lemma_candidate_yuyv_wf(data@);
                        }
                        Some(f)
                    },
                    None => None,
                }
            } else {
                None
            }
        },
        PixelLayout::Rgb24 => {
            if data.len() % 3 == 0 {
                match match_dims(data.len() / 3) {
                    Some((w, h)) => {
                        let f = NormalizedFrame { width: w, height: h, data: copy_bytes(data) };
                        Some(f)
                    },
                    None => None,
                }
            } else {
                None
            }
        },
        PixelLayout::RawFb(bpp) => {
            if *bpp == 4 && data.len() % 4 == 0 {
                match match_dims(data.len() / 4) {
                    Some((w, h)) => {
                        let f = NormalizedFrame { width: w, height: h, data: convert_bgra(data) };
                        proof {
                            lemma_candidate_bgra_wf(data@);
                        }
                        Some(f)
                    },
                    None => None,
                }
            } else {
                None
            }
        },
    }
}

/// For every candidate match of a YUYV length, the expanded raster has
/// exactly `width * height * 3` bytes.
proof fn lemma_candidate_yuyv_wf(s: Seq<u8>)
    requires
        s.len() % 4 == 0,
        candidate_dims((s.len() / 2) as int) is Some,
    ensures
        ({
            let (w, h) = candidate_dims((s.len() / 2) as int)->Some_0;
            yuyv_rgb(s).len() == w * h * 3
        }),
{
}

/// For every candidate match of a BGRA length, the reordered raster has
/// exactly `width * height * 3` bytes.
proof fn lemma_candidate_bgra_wf(s: Seq<u8>)
    requires
        s.len() % 4 == 0,
        candidate_dims((s.len() / 4) as int) is Some,
    ensures
        ({
            let (w, h) = candidate_dims((s.len() / 4) as int)->Some_0;
            bgra_rgb(s).len() == w * h * 3
        }),
{
}

/// The layout the classifier assigns to a frame whose source declared
/// none: the JPEG start-of-image marker wins, then a YUYV-sized length,
/// then an RGB24-sized length.
pub open spec fn spec_auto_layout(data: Seq<u8>) -> Option<PixelLayout> {
    if data.len() > 2 && data[0] == 0xff && data[1] == 0xd8 {
        Some(PixelLayout::Mjpeg)
    } else if data.len() % 4 == 0 && candidate_dims((data.len() / 2) as int) is Some {
        Some(PixelLayout::Yuyv)
    } else if data.len() % 3 == 0 && candidate_dims((data.len() / 3) as int) is Some {
        Some(PixelLayout::Rgb24)
    } else {
        None
    }
}

/// Classifies a frame of unknown layout.
pub fn classify_frame(data: &[u8]) -> (r: Option<PixelLayout>)
    ensures
        ({
            let s = spec_auto_layout(data@);
            match r {
                Some(l) => s == Some(l),
                None => s is None,
            }
        }),
{
    if data.len() > 2 && data[0] == 0xff && data[1] == 0xd8 {
        Some(PixelLayout::Mjpeg)
    } else if data.len() % 4 == 0 && match_dims(data.len() / 2).is_some() {
        Some(PixelLayout::Yuyv)
    } else if data.len() % 3 == 0 && match_dims(data.len() / 3).is_some() {
        Some(PixelLayout::Rgb24)
    } else {
        None
    }
}

/// Classifies and normalizes a frame of unknown layout in one step.
pub fn normalize_auto(data: &[u8]) -> (r: Option<NormalizedFrame>)
    ensures
        spec_auto_layout(data@) matches Some(l) ==> {
            &&& r matches Some(f) ==> spec_normalize(data@, l) == Some(f@) && f.wf()
            &&& r is None ==> spec_normalize(data@, l) is None
        },
        spec_auto_layout(data@) is None ==> r is None,
{
    match classify_frame(data) {
        Some(layout) => normalize_frame(data, &layout),
        None => None,
    }
}

} // verus!
