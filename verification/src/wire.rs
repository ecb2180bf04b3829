//! Byte-exact layout of the server-to-client RFB messages.
//!
//! Every multi-byte integer on the RFB wire is big-endian.  The spec
//! functions here are the single source of truth for the wire layout; the
//! executable encoders are proved to produce exactly those bytes.

use vstd::prelude::*;

verus! {

/// Big-endian encoding of a 16-bit value.
pub open spec fn be16(v: u16) -> Seq<u8> {
    seq![(v / 256) as u8, (v % 256) as u8]
}

/// Big-endian encoding of a 32-bit value.
pub open spec fn be32(v: u32) -> Seq<u8> {
    seq![
        (v / 0x1000000) as u8,
        ((v / 0x10000) % 256) as u8,
        ((v / 256) % 256) as u8,
        (v % 256) as u8,
    ]
}

/// The value carried by two big-endian bytes.
pub open spec fn be16_val(b0: u8, b1: u8) -> u16 {
    (b0 * 256 + b1) as u16
}

/// The value carried by four big-endian bytes.
pub open spec fn be32_val(b0: u8, b1: u8, b2: u8, b3: u8) -> u32 {
    (b0 * 0x1000000 + b1 * 0x10000 + b2 * 256 + b3) as u32
}

/// Appends the big-endian encoding of `v` to `out`.
pub fn push_be16(out: &mut Vec<u8>, v: u16)
    ensures
        final(out)@ == old(out)@ + be16(v),
{
    out.push((v / 256) as u8);
    out.push((v % 256) as u8);
    assert(out@ =~= old(out)@ + be16(v));
}

/// Appends the big-endian encoding of `v` to `out`.
pub fn push_be32(out: &mut Vec<u8>, v: u32)
    ensures
        final(out)@ == old(out)@ + be32(v),
{
    out.push((v / 0x1000000) as u8);
    out.push(((v / 0x10000) % 256) as u8);
    out.push(((v / 256) % 256) as u8);
    out.push((v % 256) as u8);
    assert(out@ =~= old(out)@ + be32(v));
}

/// Reads the 16-bit value carried by two big-endian bytes.
pub fn read_be16(b0: u8, b1: u8) -> (v: u16)
    ensures
        v == be16_val(b0, b1),
{
    (b0 as u16) * 256 + (b1 as u16)
}

/// Reads the 32-bit value carried by four big-endian bytes.
pub fn read_be32(b0: u8, b1: u8, b2: u8, b3: u8) -> (v: u32)
    ensures
        v == be32_val(b0, b1, b2, b3),
{
    (b0 as u32) * 0x1000000 + (b1 as u32) * 0x10000 + (b2 as u32) * 256 + (b3 as u32)
}

/// Reading back the two bytes of a big-endian encoding yields the value
/// encoded: what the server writes, the parser's reader agrees on.
pub proof fn lemma_be16_roundtrip(v: u16)
    ensures
        be16_val(be16(v)[0], be16(v)[1]) == v,
{
}

/// Reading back the four bytes of a big-endian encoding yields the value
/// encoded.
pub proof fn lemma_be32_roundtrip(v: u32)
    ensures
        be32_val(be32(v)[0], be32(v)[1], be32(v)[2], be32(v)[3]) == v,
{
    assert(((v / 0x1000000) * 0x1000000 + ((v / 0x10000) % 256) * 0x10000 + ((v / 256) % 256)
        * 256 + v % 256) == v) by (bit_vector);
}

/// The 12 ASCII bytes of the server's protocol-version greeting,
/// `"RFB 003.008\n"`.
pub open spec fn protocol_version_bytes() -> Seq<u8> {
    seq![0x52u8, 0x46, 0x42, 0x20, 0x30, 0x30, 0x33, 0x2e, 0x30, 0x30, 0x38, 0x0a]
}

/// Builds the server's protocol-version greeting.
pub fn version_greeting() -> (v: Vec<u8>)
    ensures
        v@ == protocol_version_bytes(),
{
    let mut out: Vec<u8> = Vec::new();
    out.push(0x52);
    out.push(0x46);
    out.push(0x42);
    out.push(0x20);
    out.push(0x30);
    out.push(0x30);
    out.push(0x33);
    out.push(0x2e);
    out.push(0x30);
    out.push(0x30);
    out.push(0x38);
    out.push(0x0a);
    assert(out@ =~= protocol_version_bytes());
    out
}

/// The canonical 16-byte RFB pixel format the server always serves: 24 bits
/// per pixel, depth 24, little-endian, true color, 255 per channel, shifts
/// R=16 G=8 B=0, then three bytes of padding.
pub open spec fn pixel_format_bytes() -> Seq<u8> {
    seq![24u8, 24, 0, 1] + be16(255) + be16(255) + be16(255) + seq![16u8, 8, 0, 0, 0, 0]
}

/// The desktop name sent in ServerInit, the ASCII bytes of `"KVM-RS"`.
pub open spec fn desktop_name_bytes() -> Seq<u8> {
    seq![0x4bu8, 0x56, 0x4d, 0x2d, 0x52, 0x53]
}

/// The ServerInit message: width, height, the canonical pixel format, then
/// the length-prefixed desktop name.
pub open spec fn server_init_bytes(width: u16, height: u16) -> Seq<u8> {
    be16(width) + be16(height) + pixel_format_bytes() + be32(6) + desktop_name_bytes()
}

/// Builds the ServerInit message for the given framebuffer size.
pub fn create_server_init(width: u16, height: u16) -> (r: Vec<u8>)
    ensures
        r@ == server_init_bytes(width, height),
{
    let mut out: Vec<u8> = Vec::new();
    push_be16(&mut out, width);
    push_be16(&mut out, height);
    out.push(24);
    out.push(24);
    out.push(0);
    out.push(1);
    push_be16(&mut out, 255);
    push_be16(&mut out, 255);
    push_be16(&mut out, 255);
    out.push(16);
    out.push(8);
    out.push(0);
    out.push(0);
    out.push(0);
    out.push(0);
    push_be32(&mut out, 6);
    out.push(0x4b);
    out.push(0x56);
    out.push(0x4d);
    out.push(0x2d);
    out.push(0x52);
    out.push(0x53);
    assert(out@ =~= server_init_bytes(width, height));
    out
}

/// A ServerInit message is 24 bytes plus the desktop name, and opens with
/// the big-endian width and height.
pub proof fn lemma_server_init_layout(width: u16, height: u16)
    ensures
        server_init_bytes(width, height).len() == 24 + desktop_name_bytes().len(),
        server_init_bytes(width, height).subrange(0, 2) == be16(width),
        server_init_bytes(width, height).subrange(2, 4) == be16(height),
{
    assert(server_init_bytes(width, height).subrange(0, 2) =~= be16(width));
    assert(server_init_bytes(width, height).subrange(2, 4) =~= be16(height));
}

/// One Raw-encoded rectangle: x=0, y=0, the full width and height, the Raw
/// encoding number, then the pixel bytes.
pub open spec fn update_rect_bytes(width: u16, height: u16, pixels: Seq<u8>) -> Seq<u8> {
    be16(0) + be16(0) + be16(width) + be16(height) + be32(0) + pixels
}

/// A FramebufferUpdate message with a single Raw rectangle covering the
/// whole framebuffer.
pub open spec fn framebuffer_update_bytes(width: u16, height: u16, pixels: Seq<u8>) -> Seq<u8> {
    seq![0u8, 0u8] + be16(1) + update_rect_bytes(width, height, pixels)
}

/// Builds a FramebufferUpdate message carrying `pixels` as one Raw
/// rectangle of the given size.
pub fn encode_framebuffer_update(width: u16, height: u16, pixels: &[u8]) -> (r: Vec<u8>)
    ensures
        r@ == framebuffer_update_bytes(width, height, pixels@),
{
    let mut out: Vec<u8> = Vec::new();
    out.push(0);
    out.push(0);
    push_be16(&mut out, 1);
    push_be16(&mut out, 0);
    push_be16(&mut out, 0);
    push_be16(&mut out, width);
    push_be16(&mut out, height);
    push_be32(&mut out, 0);
    let ghost header = out@;
    let mut i: usize = 0;
    while i < pixels.len()
        invariant
            i <= pixels@.len(),
            out@ == header + pixels@.take(i as int),
        decreases pixels@.len() - i,
    {
        out.push(pixels[i]);
        i = i + 1;
        assert(out@ =~= header + pixels@.take(i as int));
    }
    assert(pixels@.take(pixels@.len() as int) =~= pixels@);
    assert(out@ =~= framebuffer_update_bytes(width, height, pixels@));
    out
}

/// At 24 bits per pixel a Raw rectangle of w by h pixels is its 12-byte
/// header plus `w * h * 3` pixel bytes, and the whole single-rectangle
/// update message adds the 4-byte message header on top.
pub proof fn lemma_update_length(width: u16, height: u16, pixels: Seq<u8>)
    requires
        pixels.len() == width * height * 3,
    ensures
        update_rect_bytes(width, height, pixels).len() == 12 + width * height * 3,
        framebuffer_update_bytes(width, height, pixels).len() == 16 + width * height * 3,
        framebuffer_update_bytes(width, height, pixels).subrange(
            4,
            framebuffer_update_bytes(width, height, pixels).len() as int,
        ) == update_rect_bytes(width, height, pixels),
{
    assert(framebuffer_update_bytes(width, height, pixels).subrange(
        4,
        framebuffer_update_bytes(width, height, pixels).len() as int,
    ) =~= update_rect_bytes(width, height, pixels));
}

/// The two-byte security handshake offer: one security type, which is
/// TLS (18) when the transport is tunneled and None (1) otherwise.
pub open spec fn security_offer_bytes(tls: bool) -> Seq<u8> {
    seq![1u8, if tls { 18u8 } else { 1u8 }]
}

/// The SecurityResult word reporting success.
pub open spec fn security_ok_bytes() -> Seq<u8> {
    seq![0u8, 0, 0, 0]
}

/// The SecurityResult word reporting failure, followed by the
/// length-prefixed reason string.
pub open spec fn security_failure_bytes(reason: Seq<u8>) -> Seq<u8> {
    seq![0u8, 0, 0, 1] + be32(reason.len() as u32) + reason
}

} // verus!
