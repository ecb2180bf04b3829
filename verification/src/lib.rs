//! Core of a KVM-over-IP server: the RFB (remote framebuffer) wire protocol,
//! the pixel-format pipeline that normalizes captured frames to an RGB24
//! raster, the bounded frame fan-out hub, and the translation of client
//! input events into USB HID gadget reports.
//!
//! Everything here is pure computation on plain values; reading devices and
//! sockets is left to the surrounding program, which feeds bytes in and
//! writes bytes out.

pub mod args;
pub mod capture;
pub mod hid;
pub mod hub;
pub mod input;
pub mod jpeg;
pub mod message;
pub mod pixel;
pub mod session;
pub mod wire;
