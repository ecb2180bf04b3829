//! The per-client RFB session state machine.
//!
//! A session walks through version exchange, security negotiation, client
//! init and then serving.  Each step takes the bytes or the parsed message
//! the client sent and returns the bytes the server must write back, or
//! the input action to perform.  The surrounding program owns the socket;
//! the machine never blocks and never does I/O.

use vstd::prelude::*;

use crate::input::{
    delta_byte, key_down_report, key_report, key_up_report, key_usage, key_usage_spec,
    mouse_report, mouse_report_bytes, pointer_delta,
};
use crate::message::{ClientMessage, MessageModel, PixelFormat};
use crate::pixel::NormalizedFrame;
use crate::wire::{
    create_server_init, framebuffer_update_bytes, protocol_version_bytes, security_failure_bytes,
    security_offer_bytes, security_ok_bytes, server_init_bytes, version_greeting,
};

verus! {

/// Where in its lifecycle a session stands.
#[derive(Clone, Copy, Debug, PartialEq, Eq, Structural)]
pub enum SessionPhase {
    /// The greeting was sent; the client's 12 version bytes are awaited.
    VersionExchange,
    /// The security-type offer was sent; the client's choice is awaited.
    SecurityWait,
    /// SecurityResult was sent; the ClientInit byte is awaited.
    InitWait,
    /// ServerInit was sent; client messages and frames are served.
    Serving,
    /// The session ended; no further bytes are exchanged.
    Closed,
}

/// The protocol versions the server accepts.
#[derive(Clone, Copy, Debug, PartialEq, Eq, Structural)]
pub enum ProtoVersion {
    V33,
    V37,
    V38,
}

/// The first ten bytes every RFB 3.x version message shares,
/// `"RFB 003.00"`.
pub open spec fn rfb_prefix() -> Seq<u8> {
    seq![0x52u8, 0x46, 0x42, 0x20, 0x30, 0x30, 0x33, 0x2e, 0x30, 0x30]
}

/// The version a client's 12-byte message announces, when it is one the
/// server accepts: 3.3, 3.7 or 3.8.
pub open spec fn version_of(s: Seq<u8>) -> Option<ProtoVersion> {
    if s.len() == 12 && s.subrange(0, 10) == rfb_prefix() && s[11] == 0x0a {
        if s[10] == 0x33 {
            Some(ProtoVersion::V33)
        } else if s[10] == 0x37 {
            Some(ProtoVersion::V37)
        } else if s[10] == 0x38 {
            Some(ProtoVersion::V38)
        } else {
            None
        }
    } else {
        None
    }
}

/// Parses a client version message.
pub fn parse_version(data: &[u8]) -> (r: Option<ProtoVersion>)
    ensures
        r == version_of(data@),
{
    if data.len() != 12 {
        return None;
    }
    if data[0] == 0x52 && data[1] == 0x46 && data[2] == 0x42 && data[3] == 0x20 && data[4] == 0x30
        && data[5] == 0x30 && data[6] == 0x33 && data[7] == 0x2e && data[8] == 0x30
        && data[9] == 0x30 && data[11] == 0x0a {
        assert(data@.subrange(0, 10) =~= rfb_prefix());
        if data[10] == 0x33 {
            Some(ProtoVersion::V33)
        } else if data[10] == 0x37 {
            Some(ProtoVersion::V37)
        } else if data[10] == 0x38 {
            Some(ProtoVersion::V38)
        } else {
            None
        }
    } else {
        assert(version_of(data@) is None) by {
            if data@.subrange(0, 10) == rfb_prefix() {
                assert(data@[0] == rfb_prefix()[0]);
                assert(data@[1] == rfb_prefix()[1]);
                assert(data@[2] == rfb_prefix()[2]);
                assert(data@[3] == rfb_prefix()[3]);
                assert(data@[4] == rfb_prefix()[4]);
                assert(data@[5] == rfb_prefix()[5]);
                assert(data@[6] == rfb_prefix()[6]);
                assert(data@[7] == rfb_prefix()[7]);
                assert(data@[8] == rfb_prefix()[8]);
                assert(data@[9] == rfb_prefix()[9]);
            }
        }
        None
    }
}

/// Why a session was closed by the protocol engine.
#[derive(Clone, Copy, Debug, PartialEq, Eq, Structural)]
pub enum ProtocolError {
    /// The client announced a version other than 3.3, 3.7 or 3.8.
    BadVersion,
    /// The client chose a security type the server did not offer.
    BadSecurityType,
}

/// The reason string sent with a failed SecurityResult, the ASCII bytes of
/// `"unsupported security type"`.
pub open spec fn security_reason_bytes() -> Seq<u8> {
    seq![
        0x75u8, 0x6e, 0x73, 0x75, 0x70, 0x70, 0x6f, 0x72, 0x74, 0x65, 0x64, 0x20, 0x73, 0x65,
        0x63, 0x75, 0x72, 0x69, 0x74, 0x79, 0x20, 0x74, 0x79, 0x70, 0x65,
    ]
}

/// The server's answer to the client's security-type choice.
pub enum SecurityOutcome {
    /// The choice matched the offer: these bytes acknowledge it.
    Accepted(Vec<u8>),
    /// The choice did not match: these bytes report the failure, and the
    /// session closes after they are written.
    Rejected(Vec<u8>),
}

/// What the serving loop must do after a client message.
pub enum Action {
    /// Nothing to do; the message only updated session state.
    Idle,
    /// The client asked for a framebuffer update.
    UpdateRequested,
    /// Write this report to the keyboard gadget.
    Keyboard([u8; 8]),
    /// Write this report to the mouse gadget.
    Mouse([u8; 4]),
}

/// The mathematical model of an [`Action`].
pub enum ActionModel {
    Idle,
    UpdateRequested,
    Keyboard(Seq<u8>),
    Mouse(Seq<u8>),
}

impl View for Action {
    type V = ActionModel;

    open spec fn view(&self) -> ActionModel {
        match self {
            Action::Idle => ActionModel::Idle,
            Action::UpdateRequested => ActionModel::UpdateRequested,
            Action::Keyboard(r) => ActionModel::Keyboard(r@),
            Action::Mouse(r) => ActionModel::Mouse(r@),
        }
    }
}

/// Copies a slice of encoding words into a fresh vector.
fn copy_words(src: &[u32]) -> (r: Vec<u32>)
    ensures
        r@ == src@,
{
    let mut out: Vec<u32> = Vec::new();
    let mut i: usize = 0;
    while i < src.len()
        invariant
            i <= src@.len(),
            out@ == src@.take(i as int),
        decreases src@.len() - i,
    {
        out.push(src[i]);
        i = i + 1;
        assert(out@ =~= src@.take(i as int));
    }
    assert(out@ =~= src@);
    out
}

/// Per-client session state.
pub struct Session {
    pub phase: SessionPhase,
    /// Whether the transport is tunneled; decides the offered security type.
    pub tls: bool,
    /// The version the client announced.
    pub version: Option<ProtoVersion>,
    /// The client's declared pixel format, once it sent SetPixelFormat.
    pub pixel_format: Option<PixelFormat>,
    /// The encodings the client listed, as raw big-endian words.
    pub encodings: Vec<u32>,
    /// Set by FramebufferUpdateRequest, cleared by sending an update.
    pub update_pending: bool,
    /// The last absolute pointer position, for delta computation.
    pub pointer: Option<(u16, u16)>,
    /// Modifier-key shadow state; the key table maps no modifiers, so the
    /// reports always carry a zero mask.
    pub modifiers: u8,
}

/// The mathematical model of a [`Session`].
pub struct SessionModel {
    pub phase: SessionPhase,
    pub tls: bool,
    pub version: Option<ProtoVersion>,
    pub pixel_format: Option<PixelFormat>,
    pub encodings: Seq<u32>,
    pub update_pending: bool,
    pub pointer: Option<(u16, u16)>,
    pub modifiers: u8,
}

impl View for Session {
    type V = SessionModel;

    open spec fn view(&self) -> SessionModel {
        SessionModel {
            phase: self.phase,
            tls: self.tls,
            version: self.version,
            pixel_format: self.pixel_format,
            encodings: self.encodings@,
            update_pending: self.update_pending,
            pointer: self.pointer,
            modifiers: self.modifiers,
        }
    }
}

/// The state and action one serving-phase message produces: the message
/// updates the session and tells the loop what to do.
pub open spec fn spec_step(s: SessionModel, m: MessageModel) -> (SessionModel, ActionModel) {
    match m {
        MessageModel::SetPixelFormat(pf) => {
            (SessionModel { pixel_format: Some(pf), ..s }, ActionModel::Idle)
        },
        MessageModel::SetEncodings(e) => (SessionModel { encodings: e, ..s }, ActionModel::Idle),
        MessageModel::FramebufferUpdateRequest { .. } => {
            (SessionModel { update_pending: true, ..s }, ActionModel::UpdateRequested)
        },
        MessageModel::KeyEvent { down, key } => {
            let a = match key_usage_spec(key) {
                Some(u) => ActionModel::Keyboard(
                    if down {
                        key_down_report(u)
                    } else {
                        key_up_report()
                    },
                ),
                None => ActionModel::Idle,
            };
            (s, a)
        },
        MessageModel::PointerEvent { buttons, x, y } => {
            let (px, py) = match s.pointer {
                Some(p) => p,
                None => (x, y),
            };
            (
                SessionModel { pointer: Some((x, y)), ..s },
                ActionModel::Mouse(mouse_report_bytes(buttons, delta_byte(px, x), delta_byte(py, y))),
            )
        },
        MessageModel::ClientCutText { .. } => (s, ActionModel::Idle),
        MessageModel::Unknown(_) => (s, ActionModel::Idle),
    }
}

impl Session {
    /// Creates the session for a freshly accepted client.
    pub fn new(tls: bool) -> (s: Session)
        ensures
            s@ == (SessionModel {
                phase: SessionPhase::VersionExchange,
                tls: tls,
                version: None,
                pixel_format: None,
                encodings: Seq::<u32>::empty(),
                update_pending: false,
                pointer: None,
                modifiers: 0u8,
            }),
    {
        let s = Session {
            phase: SessionPhase::VersionExchange,
            tls,
            version: None,
            pixel_format: None,
            encodings: Vec::new(),
            update_pending: false,
            pointer: None,
            modifiers: 0,
        };
        assert(s@.encodings =~= Seq::<u32>::empty());
        s
    }

    /// The 12-byte greeting the server writes on entry to version exchange.
    pub fn greeting(&self) -> (v: Vec<u8>)
        ensures
            v@ == protocol_version_bytes(),
    {
        version_greeting()
    }

    /// Consumes the client's 12 version bytes.  An accepted version moves
    /// the session to the security step and yields the security-type offer
    /// to write; anything else closes the session.
    pub fn on_version(&mut self, data: &[u8]) -> (r: Result<Vec<u8>, ProtocolError>)
        requires
            old(self).phase is VersionExchange,
        ensures
            version_of(data@) is Some ==> {
                &&& r matches Ok(out) && out@ == security_offer_bytes(old(self).tls)
                &&& final(self)@ == (SessionModel {
                    phase: SessionPhase::SecurityWait,
                    version: version_of(data@),
                    ..old(self)@
                })
            },
            version_of(data@) is None ==> {
                &&& r matches Err(e) && e == ProtocolError::BadVersion
                &&& final(self)@ == (SessionModel { phase: SessionPhase::Closed, ..old(self)@ })
            },
    {
        match parse_version(data) {
            Some(v) => {
                self.phase = SessionPhase::SecurityWait;
                self.version = Some(v);
                let mut out: Vec<u8> = Vec::new();
                out.push(1);
                out.push(if self.tls { 18 } else { 1 });
                assert(out@ =~= security_offer_bytes(self.tls));
                Ok(out)
            },
            None => {
                self.phase = SessionPhase::Closed;
                Err(ProtocolError::BadVersion)
            },
        }
    }

    /// The security type the session offers: TLS (18) on a tunneled
    /// transport, None (1) otherwise.
    pub open spec fn offered_security_type(&self) -> u8 {
        if self.tls {
            18u8
        } else {
            1u8
        }
    }

    /// Consumes the client's security-type choice.  A choice equal to the
    /// offered type is acknowledged with the success SecurityResult and the
    /// session awaits ClientInit; any other choice yields the failure
    /// SecurityResult with its reason string and closes the session.
    pub fn on_security_choice(&mut self, choice: u8) -> (r: SecurityOutcome)
        requires
            old(self).phase is SecurityWait,
        ensures
            choice == old(self).offered_security_type() ==> {
                &&& r matches SecurityOutcome::Accepted(out) && out@ == security_ok_bytes()
                &&& final(self)@ == (SessionModel { phase: SessionPhase::InitWait, ..old(self)@ })
            },
            choice != old(self).offered_security_type() ==> {
                &&& r matches SecurityOutcome::Rejected(out) && out@ == security_failure_bytes(
                    security_reason_bytes(),
                )
                &&& final(self)@ == (SessionModel { phase: SessionPhase::Closed, ..old(self)@ })
            },
    {
        let offered: u8 = if self.tls {
            18
        } else {
            1
        };
        if choice == offered {
            self.phase = SessionPhase::InitWait;
            let mut out: Vec<u8> = Vec::new();
            out.push(0);
            out.push(0);
            out.push(0);
            out.push(0);
            assert(out@ =~= security_ok_bytes());
            SecurityOutcome::Accepted(out)
        } else {
            self.phase = SessionPhase::Closed;
            let mut out: Vec<u8> = Vec::new();
            out.push(0);
            out.push(0);
            out.push(0);
            out.push(1);
            crate::wire::push_be32(&mut out, 25);
            out.push(0x75);
            out.push(0x6e);
            out.push(0x73);
            out.push(0x75);
            out.push(0x70);
            out.push(0x70);
            out.push(0x6f);
            out.push(0x72);
            out.push(0x74);
            out.push(0x65);
            out.push(0x64);
            out.push(0x20);
            out.push(0x73);
            out.push(0x65);
            out.push(0x63);
            out.push(0x75);
            out.push(0x72);
            out.push(0x69);
            out.push(0x74);
            out.push(0x79);
            out.push(0x20);
            out.push(0x74);
            out.push(0x79);
            out.push(0x70);
            out.push(0x65);
            assert(out@ =~= security_failure_bytes(security_reason_bytes()));
            SecurityOutcome::Rejected(out)
        }
    }

    /// Consumes the ClientInit byte and yields the ServerInit message for
    /// the current framebuffer size.  The shared flag is read and
    /// deliberately ignored: all sessions stay independent.
    pub fn on_client_init(&mut self, _shared: u8, width: u16, height: u16) -> (out: Vec<u8>)
        requires
            old(self).phase is InitWait,
        ensures
            out@ == server_init_bytes(width, height),
            final(self)@ == (SessionModel { phase: SessionPhase::Serving, ..old(self)@ }),
    {
        self.phase = SessionPhase::Serving;
        create_server_init(width, height)
    }

    /// Consumes one parsed client message during serving and returns the
    /// action the loop must perform.
    pub fn on_message(&mut self, msg: &ClientMessage) -> (a: Action)
        requires
            old(self).phase is Serving,
        ensures
            (final(self)@, a@) == spec_step(old(self)@, msg@),
    {
        match msg {
            ClientMessage::SetPixelFormat(pf) => {
                self.pixel_format = Some(*pf);
                Action::Idle
            },
            ClientMessage::SetEncodings(e) => {
                self.encodings = copy_words(e.as_slice());
                Action::Idle
            },
            ClientMessage::FramebufferUpdateRequest { .. } => {
                self.update_pending = true;
                Action::UpdateRequested
            },
            ClientMessage::KeyEvent { down, key } => {
                match key_usage(*key) {
                    Some(u) => Action::Keyboard(key_report(*down, u)),
                    None => Action::Idle,
                }
            },
            ClientMessage::PointerEvent { buttons, x, y } => {
                let (px, py) = match self.pointer {
                    Some(p) => p,
                    None => (*x, *y),
                };
                let dx = pointer_delta(px, *x);
                let dy = pointer_delta(py, *y);
                self.pointer = Some((*x, *y));
                Action::Mouse(mouse_report(*buttons, dx, dy))
            },
            ClientMessage::ClientCutText { .. } => Action::Idle,
            ClientMessage::Unknown(_) => Action::Idle,
        }
    }

    /// Emits the pending framebuffer update for `frame`, if one was
    /// requested: the update bytes are returned and the pending flag is
    /// cleared.  Without a pending request nothing is sent.
    pub fn take_update(&mut self, frame: &NormalizedFrame) -> (r: Option<Vec<u8>>)
        requires
            old(self).phase is Serving,
            frame.wf(),
        ensures
            old(self).update_pending ==> {
                &&& r matches Some(out) && out@ == framebuffer_update_bytes(
                    frame.width,
                    frame.height,
                    frame.data@,
                )
                &&& final(self)@ == (SessionModel { update_pending: false, ..old(self)@ })
            },
            !old(self).update_pending ==> r is None && final(self)@ == old(self)@,
    {
        if self.update_pending {
            self.update_pending = false;
            Some(crate::wire::encode_framebuffer_update(
                frame.width,
                frame.height,
                frame.data.as_slice(),
            ))
        } else {
            None
        }
    }
}

} // verus!
