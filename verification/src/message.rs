//! Parsing of client-to-server RFB messages.
//!
//! A message is dispatched on its first byte.  The parser is incremental:
//! fed the bytes buffered so far, it either asks for more or returns one
//! parsed message together with the number of bytes it consumed.

use vstd::prelude::*;

use crate::wire::{be16_val, be32_val};

verus! {

/// A client's pixel format, as declared in SetPixelFormat.
#[derive(Clone, Copy, PartialEq, Eq, Structural)]
pub struct PixelFormat {
    pub bits_per_pixel: u8,
    pub depth: u8,
    pub big_endian: bool,
    pub true_color: bool,
    pub red_max: u16,
    pub green_max: u16,
    pub blue_max: u16,
    pub red_shift: u8,
    pub green_shift: u8,
    pub blue_shift: u8,
}

/// The pixel format carried by a 16-byte wire block: bits per pixel, depth,
/// the two flag bytes, three big-endian channel maxima, three shifts, and
/// three bytes of padding.
pub open spec fn pixel_format_of(s: Seq<u8>) -> PixelFormat
    recommends
        s.len() == 16,
{
    PixelFormat {
        bits_per_pixel: s[0],
        depth: s[1],
        big_endian: s[2] != 0,
        true_color: s[3] != 0,
        red_max: be16_val(s[4], s[5]),
        green_max: be16_val(s[6], s[7]),
        blue_max: be16_val(s[8], s[9]),
        red_shift: s[10],
        green_shift: s[11],
        blue_shift: s[12],
    }
}

/// One parsed client-to-server message.
///
/// Encodings are recorded as their raw big-endian 32-bit words; the server
/// only ever emits Raw (0).  A ClientCutText payload is discarded, so only
/// its length is kept.
pub enum ClientMessage {
    SetPixelFormat(PixelFormat),
    SetEncodings(Vec<u32>),
    FramebufferUpdateRequest { incremental: bool, x: u16, y: u16, width: u16, height: u16 },
    KeyEvent { down: bool, key: u32 },
    PointerEvent { buttons: u8, x: u16, y: u16 },
    ClientCutText { length: u32 },
    Unknown(u8),
}

/// The mathematical model of a [`ClientMessage`].
pub enum MessageModel {
    SetPixelFormat(PixelFormat),
    SetEncodings(Seq<u32>),
    FramebufferUpdateRequest { incremental: bool, x: u16, y: u16, width: u16, height: u16 },
    KeyEvent { down: bool, key: u32 },
    PointerEvent { buttons: u8, x: u16, y: u16 },
    ClientCutText { length: u32 },
    Unknown(u8),
}

impl View for ClientMessage {
    type V = MessageModel;

    open spec fn view(&self) -> MessageModel {
        match self {
            ClientMessage::SetPixelFormat(pf) => MessageModel::SetPixelFormat(*pf),
            ClientMessage::SetEncodings(encs) => MessageModel::SetEncodings(encs@),
            ClientMessage::FramebufferUpdateRequest { incremental, x, y, width, height } => {
                MessageModel::FramebufferUpdateRequest {
                    incremental: *incremental,
                    x: *x,
                    y: *y,
                    width: *width,
                    height: *height,
                }
            },
            ClientMessage::KeyEvent { down, key } => {
                MessageModel::KeyEvent { down: *down, key: *key }
            },
            ClientMessage::PointerEvent { buttons, x, y } => {
                MessageModel::PointerEvent { buttons: *buttons, x: *x, y: *y }
            },
            ClientMessage::ClientCutText { length } => {
                MessageModel::ClientCutText { length: *length }
            },
            ClientMessage::Unknown(b) => MessageModel::Unknown(*b),
        }
    }
}

/// What the parser did with the buffered bytes.
pub enum ParseOutcome {
    /// The buffer does not yet hold a complete message.
    Incomplete,
    /// One message was parsed from this many leading bytes.
    Parsed(ClientMessage, usize),
}

/// The mathematical model of a [`ParseOutcome`].
pub enum ParseModel {
    Incomplete,
    Parsed(MessageModel, int),
}

impl View for ParseOutcome {
    type V = ParseModel;

    open spec fn view(&self) -> ParseModel {
        match self {
            ParseOutcome::Incomplete => ParseModel::Incomplete,
            ParseOutcome::Parsed(m, n) => ParseModel::Parsed(m@, *n as int),
        }
    }
}

/// The list of `n` big-endian encoding words starting at byte 4.
pub open spec fn encodings_of(s: Seq<u8>, n: int) -> Seq<u32>
    recommends
        0 <= n,
        s.len() >= 4 + 4 * n,
{
    Seq::new(n as nat, |i: int| be32_val(s[4 + 4 * i], s[5 + 4 * i], s[6 + 4 * i], s[7 + 4 * i]))
}

/// Complete definition of the incremental parse.  Message lengths follow
/// RFC 6143: SetPixelFormat is 20 bytes, SetEncodings `4 + 4n`,
/// FramebufferUpdateRequest 10, KeyEvent 8, PointerEvent 6, ClientCutText
/// `8 + n`.  A message with an unknown first byte consumes the whole
/// buffer, which drops the unreadable bytes and keeps the session alive.
pub open spec fn spec_parse(s: Seq<u8>) -> ParseModel {
    if s.len() == 0 {
        ParseModel::Incomplete
    } else if s[0] == 0 {
        if s.len() < 20 {
            ParseModel::Incomplete
        } else {
            ParseModel::Parsed(
                MessageModel::SetPixelFormat(pixel_format_of(s.subrange(4, 20))),
                20,
            )
        }
    } else if s[0] == 2 {
        if s.len() < 4 {
            ParseModel::Incomplete
        } else {
            let n = be16_val(s[2], s[3]) as int;
            if s.len() < 4 + 4 * n {
                ParseModel::Incomplete
            } else {
                ParseModel::Parsed(MessageModel::SetEncodings(encodings_of(s, n)), 4 + 4 * n)
            }
        }
    } else if s[0] == 3 {
        if s.len() < 10 {
            ParseModel::Incomplete
        } else {
            ParseModel::Parsed(
                MessageModel::FramebufferUpdateRequest {
                    incremental: s[1] != 0,
                    x: be16_val(s[2], s[3]),
                    y: be16_val(s[4], s[5]),
                    width: be16_val(s[6], s[7]),
                    height: be16_val(s[8], s[9]),
                },
                10,
            )
        }
    } else if s[0] == 4 {
        if s.len() < 8 {
            ParseModel::Incomplete
        } else {
            ParseModel::Parsed(
                MessageModel::KeyEvent { down: s[1] != 0, key: be32_val(s[4], s[5], s[6], s[7]) },
                8,
            )
        }
    } else if s[0] == 5 {
        if s.len() < 6 {
            ParseModel::Incomplete
        } else {
            ParseModel::Parsed(
                MessageModel::PointerEvent {
                    buttons: s[1],
                    x: be16_val(s[2], s[3]),
                    y: be16_val(s[4], s[5]),
                },
                6,
            )
        }
    } else if s[0] == 6 {
        if s.len() < 8 {
            ParseModel::Incomplete
        } else {
            let n = be32_val(s[4], s[5], s[6], s[7]) as int;
            if s.len() < 8 + n {
                ParseModel::Incomplete
            } else {
                ParseModel::Parsed(MessageModel::ClientCutText { length: n as u32 }, 8 + n)
            }
        }
    } else {
        ParseModel::Parsed(MessageModel::Unknown(s[0]), s.len() as int)
    }
}

/// Parses one client message from the front of `data`.
pub fn parse_client_message(data: &[u8]) -> (r: ParseOutcome)
    ensures
        r@ == spec_parse(data@),
{
    let len = data.len();
    if len == 0 {
        return ParseOutcome::Incomplete;
    }
    let kind = data[0];
    if kind == 0 {
        if len < 20 {
            ParseOutcome::Incomplete
        } else {
            let pf = PixelFormat {
                bits_per_pixel: data[4],
                depth: data[5],
                big_endian: data[6] != 0,
                true_color: data[7] != 0,
                red_max: read_be16_at(data, 8),
                green_max: read_be16_at(data, 10),
                blue_max: read_be16_at(data, 12),
                red_shift: data[14],
                green_shift: data[15],
                blue_shift: data[16],
            };
            assert(pf == pixel_format_of(data@.subrange(4, 20)));
            ParseOutcome::Parsed(ClientMessage::SetPixelFormat(pf), 20)
        }
    } else if kind == 2 {
        if len < 4 {
            ParseOutcome::Incomplete
        } else {
            let n = crate::wire::read_be16(data[2], data[3]) as usize;
            if (len - 4) / 4 < n {
                assert(data@.len() < 4 + 4 * (be16_val(data@[2], data@[3]) as int));
                ParseOutcome::Incomplete
            } else {
                let mut encs: Vec<u32> = Vec::new();
                let mut i: usize = 0;
                while i < n
                    invariant
                        i <= n,
                        n <= 0xffff,
                        data@.len() >= 4 + 4 * n,
                        encs@.len() == i,
                        forall|j: int|
                            0 <= j < i ==> encs@[j] == be32_val(
                                data@[4 + 4 * j],
                                data@[5 + 4 * j],
                                data@[6 + 4 * j],
                                data@[7 + 4 * j],
                            ),
                    decreases n - i,
                {
                    let w = crate::wire::read_be32(
                        data[4 + 4 * i],
                        data[5 + 4 * i],
                        data[6 + 4 * i],
                        data[7 + 4 * i],
                    );
                    encs.push(w);
                    i = i + 1;
                }
                assert(encs@ =~= encodings_of(data@, n as int));
                ParseOutcome::Parsed(ClientMessage::SetEncodings(encs), 4 + 4 * n)
            }
        }
    } else if kind == 3 {
        if len < 10 {
            ParseOutcome::Incomplete
        } else {
            ParseOutcome::Parsed(
                ClientMessage::FramebufferUpdateRequest {
                    incremental: data[1] != 0,
                    x: read_be16_at(data, 2),
                    y: read_be16_at(data, 4),
                    width: read_be16_at(data, 6),
                    height: read_be16_at(data, 8),
                },
                10,
            )
        }
    } else if kind == 4 {
        if len < 8 {
            ParseOutcome::Incomplete
        } else {
            ParseOutcome::Parsed(
                ClientMessage::KeyEvent {
                    down: data[1] != 0,
                    key: crate::wire::read_be32(data[4], data[5], data[6], data[7]),
                },
                8,
            )
        }
    } else if kind == 5 {
        if len < 6 {
            ParseOutcome::Incomplete
        } else {
            ParseOutcome::Parsed(
                ClientMessage::PointerEvent {
                    buttons: data[1],
                    x: read_be16_at(data, 2),
                    y: read_be16_at(data, 4),
                },
                6,
            )
        }
    } else if kind == 6 {
        if len < 8 {
            ParseOutcome::Incomplete
        } else {
            let n = crate::wire::read_be32(data[4], data[5], data[6], data[7]);
            if ((len - 8) as u64) < (n as u64) {
                ParseOutcome::Incomplete
            } else {
                ParseOutcome::Parsed(
                    ClientMessage::ClientCutText { length: n },
                    8 + (n as usize),
                )
            }
        }
    } else {
        ParseOutcome::Parsed(ClientMessage::Unknown(kind), len)
    }
}

/// Reads the big-endian 16-bit value at offset `at`.
fn read_be16_at(data: &[u8], at: usize) -> (v: u16)
    requires
        at + 2 <= data@.len(),
    ensures
        v == be16_val(data@[at as int], data@[at as int + 1]),
{
    crate::wire::read_be16(data[at], data[at + 1])
}

} // verus!
