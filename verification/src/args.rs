//! Server configuration: device paths, ports and the transport-encryption
//! choice.  Parsing the command line happens outside the library; this
//! holds the validated plain values and the configuration decisions.

use vstd::prelude::*;

verus! {

/// The server's configuration.
pub struct Args {
    /// Video source path, a V4L2 device or a framebuffer.
    pub video_device: String,
    /// Use the framebuffer reader even for a V4L2-looking path.
    pub force_framebuffer: bool,
    /// HID gadget device for keyboard reports.
    pub keyboard_hid: String,
    /// HID gadget device for mouse reports.
    pub mouse_hid: String,
    /// Browser-channel listening port.
    pub port: u16,
    /// RFB listening port.
    pub vnc_port: u16,
    /// Address both listeners bind to.
    pub bind_address: String,
    /// Tunnel the RFB stream in transport encryption.
    pub vnc_tls: bool,
    /// PEM certificate path, when one is provided.
    pub vnc_cert: Option<String>,
    /// PEM private-key path, when one is provided.
    pub vnc_key: Option<String>,
}

impl Args {
    /// Builds a configuration from its parts.
    pub fn new(
        video_device: String,
        force_framebuffer: bool,
        keyboard_hid: String,
        mouse_hid: String,
        port: u16,
        vnc_port: u16,
        bind_address: String,
        vnc_tls: bool,
        vnc_cert: Option<String>,
        vnc_key: Option<String>,
    ) -> (a: Args)
        ensures
            a.video_device@ == video_device@,
            a.force_framebuffer == force_framebuffer,
            a.keyboard_hid@ == keyboard_hid@,
            a.mouse_hid@ == mouse_hid@,
            a.port == port,
            a.vnc_port == vnc_port,
            a.bind_address@ == bind_address@,
            a.vnc_tls == vnc_tls,
            a.vnc_cert == vnc_cert,
            a.vnc_key == vnc_key,
    {
        Args {
            video_device,
            force_framebuffer,
            keyboard_hid,
            mouse_hid,
            port,
            vnc_port,
            bind_address,
            vnc_tls,
            vnc_cert,
            vnc_key,
        }
    }

    /// The default configuration: capture from `/dev/video0`, gadgets on
    /// `/dev/hidg0` and `/dev/hidg1`, browser channel on 8443, RFB on
    /// 5900, bound to all interfaces, no transport encryption.
    pub fn defaults() -> (a: Args)
        ensures
            a.video_device@ == "/dev/video0"@,
            !a.force_framebuffer,
            a.keyboard_hid@ == "/dev/hidg0"@,
            a.mouse_hid@ == "/dev/hidg1"@,
            a.port == 8443,
            a.vnc_port == 5900,
            a.bind_address@ == "0.0.0.0"@,
            !a.vnc_tls,
            a.vnc_cert is None,
            a.vnc_key is None,
    {
        Args {
            video_device: "/dev/video0".to_owned(),
            force_framebuffer: false,
            keyboard_hid: "/dev/hidg0".to_owned(),
            mouse_hid: "/dev/hidg1".to_owned(),
            port: 8443,
            vnc_port: 5900,
            bind_address: "0.0.0.0".to_owned(),
            vnc_tls: false,
            vnc_cert: None,
            vnc_key: None,
        }
    }
}

/// Where the transport-encryption certificate comes from.
pub enum CertSource {
    /// Load the PEM certificate chain and private key from these paths.
    Files(String, String),
    /// Generate a self-signed certificate at startup.
    SelfSigned,
}

/// Decides the certificate source: configured paths are used only when
/// both the certificate and the key path are present; otherwise a
/// self-signed certificate is generated.
pub fn choose_cert_source(cert: Option<String>, key: Option<String>) -> (r: CertSource)
    ensures
        cert is Some && key is Some ==> (r matches CertSource::Files(c, k) && c@ == cert->0@ && k@
            == key->0@),
        !(cert is Some && key is Some) ==> r is SelfSigned,
{
    match (cert, key) {
        (Some(c), Some(k)) => CertSource::Files(c, k),
        _ => CertSource::SelfSigned,
    }
}

} // verus!
