//! Translation of RFB input events into USB HID gadget reports.
//!
//! Keyboard reports are 8 bytes: modifier mask, a reserved byte, then six
//! key slots.  Mouse reports are 4 bytes: button mask, signed dx, signed
//! dy, wheel.  The keysym table covers the editing and arrow keys, space,
//! letters and digits; unknown keysyms produce no report.

use vstd::prelude::*;

verus! {

/// The HID usage for an X11 keysym, or `None` when the key is not mapped.
///
/// Letters map to `0x04..=0x1d`, digit '0' to `0x27` and '1'..'9' to
/// `0x1e..=0x26`.
pub open spec fn key_usage_spec(keysym: u32) -> Option<u8> {
    if keysym == 0xff08 {
        Some(0x2au8)  // Backspace
    } else if keysym == 0xff09 {
        Some(0x2bu8)  // Tab
    } else if keysym == 0xff0d {
        Some(0x28u8)  // Enter
    } else if keysym == 0xff1b {
        Some(0x29u8)  // Escape
    } else if keysym == 0xff50 {
        Some(0x4au8)  // Home
    } else if keysym == 0xff51 {
        Some(0x50u8)  // Left arrow
    } else if keysym == 0xff52 {
        Some(0x52u8)  // Up arrow
    } else if keysym == 0xff53 {
        Some(0x4fu8)  // Right arrow
    } else if keysym == 0xff54 {
        Some(0x51u8)  // Down arrow
    } else if keysym == 0x20 {
        Some(0x2cu8)  // Space
    } else if 0x41 <= keysym <= 0x5a {
        Some((keysym - 0x41 + 0x04) as u8)  // 'A'..'Z'
    } else if 0x61 <= keysym <= 0x7a {
        Some((keysym - 0x61 + 0x04) as u8)  // 'a'..'z'
    } else if keysym == 0x30 {
        Some(0x27u8)  // '0'
    } else if 0x31 <= keysym <= 0x39 {
        Some((keysym - 0x31 + 0x1e) as u8)  // '1'..'9'
    } else {
        None
    }
}

/// Looks up the HID usage for a keysym.
pub fn key_usage(keysym: u32) -> (r: Option<u8>)
    ensures
        r == key_usage_spec(keysym),
{
    if keysym == 0xff08 {
        Some(0x2a)
    } else if keysym == 0xff09 {
        Some(0x2b)
    } else if keysym == 0xff0d {
        Some(0x28)
    } else if keysym == 0xff1b {
        Some(0x29)
    } else if keysym == 0xff50 {
        Some(0x4a)
    } else if keysym == 0xff51 {
        Some(0x50)
    } else if keysym == 0xff52 {
        Some(0x52)
    } else if keysym == 0xff53 {
        Some(0x4f)
    } else if keysym == 0xff54 {
        Some(0x51)
    } else if 0x41 <= keysym && keysym <= 0x5a {
        Some((keysym - 0x41 + 0x04) as u8)
    } else if 0x61 <= keysym && keysym <= 0x7a {
        Some((keysym - 0x61 + 0x04) as u8)
    } else if keysym == 0x30 {
        Some(0x27)
    } else if 0x31 <= keysym && keysym <= 0x39 {
        Some((keysym - 0x31 + 0x1e) as u8)
    } else if keysym == 0x20 {
        Some(0x2c)
    } else {
        None
    }
}

/// The 8-byte keyboard report pressing exactly one key.
pub open spec fn key_down_report(usage: u8) -> Seq<u8> {
    seq![0u8, 0, usage, 0, 0, 0, 0, 0]
}

/// The 8-byte keyboard report releasing all keys.
pub open spec fn key_up_report() -> Seq<u8> {
    seq![0u8, 0, 0, 0, 0, 0, 0, 0]
}

/// Builds the keyboard report for a key event: `usage` in the first key
/// slot on press, all zeros on release.
pub fn key_report(down: bool, usage: u8) -> (r: [u8; 8])
    ensures
        down ==> r@ == key_down_report(usage),
        !down ==> r@ == key_up_report(),
{
    if down {
        let r = [0u8, 0, usage, 0, 0, 0, 0, 0];
        assert(r@ =~= key_down_report(usage));
        r
    } else {
        let r = [0u8, 0, 0, 0, 0, 0, 0, 0];
        assert(r@ =~= key_up_report());
        r
    }
}

/// Translates one key event.  A mapped keysym yields a report: its usage on
/// press, the all-zero release report on release.  Unmapped keysyms yield
/// nothing.
pub fn key_event_report(keysym: u32, down: bool) -> (r: Option<[u8; 8]>)
    ensures
        r is Some <==> key_usage_spec(keysym) is Some,
        r matches Some(rep) ==> {
            &&& down ==> rep@ == key_down_report(key_usage_spec(keysym)->Some_0)
            &&& !down ==> rep@ == key_up_report()
        },
{
    match key_usage(keysym) {
        Some(usage) => Some(key_report(down, usage)),
        None => None,
    }
}

/// Every mapped keysym has a non-zero usage, so a "down" report carries
/// exactly one non-zero byte among its six key slots (bytes 2 through 7),
/// and the paired "up" report is all zeros.
pub proof fn lemma_key_report_slots(keysym: u32, usage: u8)
    requires
        key_usage_spec(keysym) == Some(usage),
    ensures
        usage != 0,
        key_down_report(usage)[2] == usage,
        forall|i: int| 3 <= i < 8 ==> key_down_report(usage)[i] == 0,
        forall|i: int| 0 <= i < 8 ==> key_up_report()[i] == 0,
{
}

/// A pointer delta clamped to the range a signed HID byte can carry.
pub open spec fn clamp_delta(d: int) -> int {
    if d < -127 {
        -127
    } else if d > 127 {
        127
    } else {
        d
    }
}

/// The two's-complement byte encoding the clamped movement from `prev` to
/// `cur`.
pub open spec fn delta_byte(prev: u16, cur: u16) -> u8 {
    let d = clamp_delta(cur - prev);
    if d >= 0 {
        d as u8
    } else {
        (d + 256) as u8
    }
}

/// Computes the signed movement byte from `prev` to `cur`, clamped to
/// [-127, 127] and encoded in two's complement.
pub fn pointer_delta(prev: u16, cur: u16) -> (b: u8)
    ensures
        b == delta_byte(prev, cur),
{
    if cur >= prev {
        let d = cur - prev;
        if d > 127 {
            127
        } else {
            d as u8
        }
    } else {
        let d = prev - cur;
        if d > 127 {
            129
        } else {
            (256 - d as u32) as u8
        }
    }
}

/// The 4-byte mouse report: the low three button bits, the two movement
/// bytes, and a zero wheel byte.
pub open spec fn mouse_report_bytes(buttons: u8, dx: u8, dy: u8) -> Seq<u8> {
    seq![buttons & 7, dx, dy, 0u8]
}

/// Builds the mouse report for a pointer event whose movement bytes were
/// already computed.
pub fn mouse_report(buttons: u8, dx: u8, dy: u8) -> (r: [u8; 4])
    ensures
        r@ == mouse_report_bytes(buttons, dx, dy),
{
    let r = [buttons & 7, dx, dy, 0u8];
    assert(r@ =~= mouse_report_bytes(buttons, dx, dy));
    r
}

/// Emitted movement always lies in [-127, 127], and whenever the true
/// movement itself fits that range the new absolute position is exactly the
/// previous position plus the emitted delta.
pub proof fn lemma_pointer_delta(prev: u16, cur: u16)
    ensures
        -127 <= clamp_delta(cur - prev) <= 127,
        -127 <= cur - prev <= 127 ==> prev + clamp_delta(cur - prev) == cur,
{
}

} // verus!
