//! HID gadget device management: which device files receive the reports,
//! and the validation every report must pass before it is written.
//!
//! The writes themselves are I/O and live outside the library; callers
//! first hold a report against `check_keyboard_report` or
//! `check_mouse_report` and only write what passes.

use vstd::prelude::*;

verus! {

/// Why a HID report was rejected instead of written.
#[derive(Clone, Copy, Debug, PartialEq, Eq, Structural)]
pub enum HidError {
    /// A keyboard report must be at least 8 bytes.
    KeyboardReportTooShort,
    /// A mouse report must be at least 4 bytes.
    MouseReportTooShort,
}

impl HidError {
    /// A human-readable description of the error.
    pub fn message(&self) -> (r: &'static str)
        ensures
            *self is KeyboardReportTooShort ==> r@ == "Keyboard HID report must be at least 8 bytes"@,
            *self is MouseReportTooShort ==> r@ == "Mouse HID report must be at least 4 bytes"@,
    {
        match self {
            HidError::KeyboardReportTooShort => "Keyboard HID report must be at least 8 bytes",
            HidError::MouseReportTooShort => "Mouse HID report must be at least 4 bytes",
        }
    }
}

/// The device paths of the keyboard and mouse HID gadgets.
#[derive(Clone)]
pub struct HidManager {
    keyboard_device: String,
    mouse_device: String,
}

impl HidManager {
    /// The configured keyboard device path.
    pub closed spec fn keyboard_device_spec(&self) -> Seq<char> {
        self.keyboard_device@
    }

    /// The configured mouse device path.
    pub closed spec fn mouse_device_spec(&self) -> Seq<char> {
        self.mouse_device@
    }

    /// Creates a manager for the two gadget device paths.
    pub fn new(keyboard_device: String, mouse_device: String) -> (m: HidManager)
        ensures
            m.keyboard_device_spec() == keyboard_device@,
            m.mouse_device_spec() == mouse_device@,
    {
        HidManager { keyboard_device, mouse_device }
    }

    /// The keyboard device path, for the caller that opens it.
    pub fn keyboard_device(&self) -> (r: &String)
        ensures
            r@ == self.keyboard_device_spec(),
    {
        &self.keyboard_device
    }

    /// The mouse device path, for the caller that opens it.
    pub fn mouse_device(&self) -> (r: &String)
        ensures
            r@ == self.mouse_device_spec(),
    {
        &self.mouse_device
    }

    /// Validates a keyboard report: accepted exactly when it carries at
    /// least the 8 bytes of a whole report.
    pub fn check_keyboard_report(&self, data: &[u8]) -> (r: Result<(), HidError>)
        ensures
            r is Ok <==> data@.len() >= 8,
            r matches Err(e) ==> e == HidError::KeyboardReportTooShort,
    {
        if data.len() < 8 {
            Err(HidError::KeyboardReportTooShort)
        } else {
            Ok(())
        }
    }

    /// Validates a mouse report: accepted exactly when it carries at least
    /// the 4 bytes of a whole report.
    pub fn check_mouse_report(&self, data: &[u8]) -> (r: Result<(), HidError>)
        ensures
            r is Ok <==> data@.len() >= 4,
            r matches Err(e) ==> e == HidError::MouseReportTooShort,
    {
        if data.len() < 4 {
            Err(HidError::MouseReportTooShort)
        } else {
            Ok(())
        }
    }
}

/// How a browser-channel input event is routed: the first byte selects the
/// device, the rest is the report.
pub enum WsInput {
    /// The payload goes to the keyboard gadget.
    Keyboard,
    /// The payload goes to the mouse gadget.
    Mouse,
    /// An unrecognized selector; the event is dropped.
    Unknown(u8),
    /// An empty message; nothing to do.
    Empty,
}

/// Classifies one browser-channel input message by its first byte:
/// 1 selects the keyboard, 2 the mouse.
pub fn classify_ws_input(data: &[u8]) -> (r: WsInput)
    ensures
        data@.len() == 0 ==> r is Empty,
        data@.len() > 0 && data@[0] == 1 ==> r is Keyboard,
        data@.len() > 0 && data@[0] == 2 ==> r is Mouse,
        data@.len() > 0 && data@[0] != 1 && data@[0] != 2 ==> (r matches WsInput::Unknown(b) && b
            == data@[0]),
{
    if data.len() == 0 {
        WsInput::Empty
    } else if data[0] == 1 {
        WsInput::Keyboard
    } else if data[0] == 2 {
        WsInput::Mouse
    } else {
        WsInput::Unknown(data[0])
    }
}

} // verus!
