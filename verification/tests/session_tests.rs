use kvm_rs::message::{parse_client_message, ClientMessage, ParseOutcome};
use kvm_rs::pixel::NormalizedFrame;
use kvm_rs::session::{Action, SecurityOutcome, Session, SessionPhase};

fn parsed(bytes: &[u8]) -> (ClientMessage, usize) {
    match parse_client_message(bytes) {
        ParseOutcome::Parsed(m, n) => (m, n),
        ParseOutcome::Incomplete => panic!("expected a complete message"),
    }
}

fn serving_session() -> Session {
    let mut s = Session::new(false);
    s.on_version(b"RFB 003.008\n").unwrap();
    match s.on_security_choice(1) {
        SecurityOutcome::Accepted(_) => {}
        SecurityOutcome::Rejected(_) => panic!("security choice 1 must be accepted"),
    }
    s.on_client_init(1, 1920, 1080);
    assert_eq!(s.phase, SessionPhase::Serving);
    s
}

#[test]
fn s1_handshake_without_encryption() {
    let mut s = Session::new(false);
    assert_eq!(
        s.greeting(),
        vec![0x52, 0x46, 0x42, 0x20, 0x30, 0x30, 0x33, 0x2e, 0x30, 0x30, 0x38, 0x0a]
    );
    let offer = s.on_version(b"RFB 003.008\n").unwrap();
    assert_eq!(offer, vec![0x01, 0x01]);
    match s.on_security_choice(0x01) {
        SecurityOutcome::Accepted(ok) => assert_eq!(ok, vec![0x00, 0x00, 0x00, 0x00]),
        SecurityOutcome::Rejected(_) => panic!("expected acceptance"),
    }
    let init = s.on_client_init(0x01, 1920, 1080);
    assert_eq!(&init[0..2], &[0x07, 0x80]);
    assert_eq!(&init[2..4], &[0x04, 0x38]);
    assert_eq!(&init[24..], b"KVM-RS");
    assert_eq!(s.phase, SessionPhase::Serving);
}

#[test]
fn handshake_accepts_older_versions() {
    for minor in [b'3', b'7', b'8'] {
        let mut s = Session::new(false);
        let mut msg = b"RFB 003.00".to_vec();
        msg.push(minor);
        msg.push(b'\n');
        assert!(s.on_version(&msg).is_ok());
        assert_eq!(s.phase, SessionPhase::SecurityWait);
    }
}

#[test]
fn handshake_rejects_other_versions() {
    let mut s = Session::new(false);
    assert!(s.on_version(b"RFB 003.005\n").is_err());
    assert_eq!(s.phase, SessionPhase::Closed);

    let mut s = Session::new(false);
    assert!(s.on_version(b"HTTP/1.1 200").is_err());
    assert_eq!(s.phase, SessionPhase::Closed);
}

#[test]
fn tls_session_offers_type_18() {
    let mut s = Session::new(true);
    let offer = s.on_version(b"RFB 003.008\n").unwrap();
    assert_eq!(offer, vec![0x01, 0x12]);
    match s.on_security_choice(18) {
        SecurityOutcome::Accepted(ok) => assert_eq!(ok, vec![0, 0, 0, 0]),
        SecurityOutcome::Rejected(_) => panic!("expected acceptance"),
    }
}

#[test]
fn wrong_security_choice_is_rejected_with_reason() {
    let mut s = Session::new(false);
    s.on_version(b"RFB 003.008\n").unwrap();
    match s.on_security_choice(18) {
        SecurityOutcome::Accepted(_) => panic!("expected rejection"),
        SecurityOutcome::Rejected(bytes) => {
            let reason = b"unsupported security type";
            let mut expected = vec![0u8, 0, 0, 1, 0, 0, 0, reason.len() as u8];
            expected.extend_from_slice(reason);
            assert_eq!(bytes, expected);
        }
    }
    assert_eq!(s.phase, SessionPhase::Closed);
}

#[test]
fn s2_update_on_request() {
    let mut s = serving_session();
    let (msg, consumed) = parsed(&[0x03, 0x01, 0x00, 0x00, 0x00, 0x00, 0x07, 0x80, 0x04, 0x38]);
    assert_eq!(consumed, 10);
    match &msg {
        ClientMessage::FramebufferUpdateRequest {
            incremental,
            x,
            y,
            width,
            height,
        } => {
            assert!(*incremental);
            assert_eq!((*x, *y), (0, 0));
            assert_eq!((*width, *height), (1920, 1080));
        }
        _ => panic!("expected an update request"),
    }
    match s.on_message(&msg) {
        Action::UpdateRequested => {}
        _ => panic!("expected an update action"),
    }
    assert!(s.update_pending);

    let frame = NormalizedFrame {
        width: 1920,
        height: 1080,
        data: vec![0xab; 1920 * 1080 * 3],
    };
    let update = s.take_update(&frame).expect("an update was pending");
    assert_eq!(&update[0..4], &[0x00, 0x00, 0x00, 0x01]);
    assert_eq!(
        &update[4..16],
        &[0x00, 0x00, 0x00, 0x00, 0x07, 0x80, 0x04, 0x38, 0x00, 0x00, 0x00, 0x00]
    );
    assert_eq!(update.len(), 16 + 1920 * 1080 * 3);
    assert!(update[16..].iter().all(|&b| b == 0xab));
    assert!(!s.update_pending);
    // the flag was cleared: no second update without a new request
    assert!(s.take_update(&frame).is_none());
}

#[test]
fn s3_key_event_to_hid() {
    let mut s = serving_session();
    let (down, _) = parsed(&[0x04, 0x01, 0x00, 0x00, 0x00, 0x00, 0x00, 0x41]);
    match s.on_message(&down) {
        Action::Keyboard(r) => assert_eq!(r, [0x00, 0x00, 0x04, 0x00, 0x00, 0x00, 0x00, 0x00]),
        _ => panic!("expected a keyboard action"),
    }
    let (up, _) = parsed(&[0x04, 0x00, 0x00, 0x00, 0x00, 0x00, 0x00, 0x41]);
    match s.on_message(&up) {
        Action::Keyboard(r) => assert_eq!(r, [0u8; 8]),
        _ => panic!("expected a keyboard action"),
    }
}

#[test]
fn unmapped_key_produces_no_report() {
    let mut s = serving_session();
    // F1 (0xffbe) is not in the table
    let (msg, _) = parsed(&[0x04, 0x01, 0x00, 0x00, 0x00, 0x00, 0xff, 0xbe]);
    match s.on_message(&msg) {
        Action::Idle => {}
        _ => panic!("expected no action"),
    }
}

#[test]
fn s4_pointer_event_deltas() {
    let mut s = serving_session();
    // prime the pointer at the origin; the first event itself moves nothing
    let (origin, _) = parsed(&[0x05, 0x01, 0x00, 0x00, 0x00, 0x00]);
    match s.on_message(&origin) {
        Action::Mouse(r) => assert_eq!(r, [0x01, 0x00, 0x00, 0x00]),
        _ => panic!("expected a mouse action"),
    }
    // from (0,0) to (10,5)
    let (first, consumed) = parsed(&[0x05, 0x01, 0x00, 0x0a, 0x00, 0x05]);
    assert_eq!(consumed, 6);
    match s.on_message(&first) {
        Action::Mouse(r) => assert_eq!(r, [0x01, 0x0a, 0x05, 0x00]),
        _ => panic!("expected a mouse action"),
    }
    // from (10,5) to (12,5)
    let (second, _) = parsed(&[0x05, 0x01, 0x00, 0x0c, 0x00, 0x05]);
    match s.on_message(&second) {
        Action::Mouse(r) => assert_eq!(r, [0x01, 0x02, 0x00, 0x00]),
        _ => panic!("expected a mouse action"),
    }
    assert_eq!(s.pointer, Some((12, 5)));
}

#[test]
fn pointer_deltas_clamp_and_encode_negatives() {
    let mut s = serving_session();
    let (origin, _) = parsed(&[0x05, 0x00, 0x00, 0x00, 0x00, 0x00]);
    s.on_message(&origin);
    // a jump of 500 clamps to 127
    let (jump, _) = parsed(&[0x05, 0x00, 0x01, 0xf4, 0x00, 0x00]);
    match s.on_message(&jump) {
        Action::Mouse(r) => assert_eq!(r, [0x00, 0x7f, 0x00, 0x00]),
        _ => panic!("expected a mouse action"),
    }
    // moving back two pixels gives -2 in two's complement
    let (back, _) = parsed(&[0x05, 0x00, 0x01, 0xf2, 0x00, 0x00]);
    match s.on_message(&back) {
        Action::Mouse(r) => assert_eq!(r, [0x00, 0xfe, 0x00, 0x00]),
        _ => panic!("expected a mouse action"),
    }
    // a jump back of 500 clamps to -127, encoded 0x81
    let (far_back, _) = parsed(&[0x05, 0x00, 0x00, 0x00, 0x00, 0x00]);
    match s.on_message(&far_back) {
        Action::Mouse(r) => assert_eq!(r, [0x00, 0x81, 0x00, 0x00]),
        _ => panic!("expected a mouse action"),
    }
}

#[test]
fn set_pixel_format_and_encodings_are_recorded() {
    let mut s = serving_session();
    let mut spf = vec![0u8, 0, 0, 0];
    spf.extend_from_slice(&[32, 24, 1, 1, 0, 255, 0, 255, 0, 255, 16, 8, 0, 0, 0, 0]);
    let (msg, consumed) = parsed(&spf);
    assert_eq!(consumed, 20);
    match s.on_message(&msg) {
        Action::Idle => {}
        _ => panic!("expected no action"),
    }
    let pf = s.pixel_format.expect("the format was stored");
    assert_eq!(pf.bits_per_pixel, 32);
    assert_eq!(pf.depth, 24);
    assert!(pf.big_endian);
    assert!(pf.true_color);
    assert_eq!((pf.red_max, pf.green_max, pf.blue_max), (255, 255, 255));
    assert_eq!((pf.red_shift, pf.green_shift, pf.blue_shift), (16, 8, 0));

    // SetEncodings with Raw (0) and a pseudo-encoding (-223 as raw word)
    let enc = vec![
        0x02, 0x00, 0x00, 0x02, 0x00, 0x00, 0x00, 0x00, 0xff, 0xff, 0xff, 0x21,
    ];
    let (msg, consumed) = parsed(&enc);
    assert_eq!(consumed, 12);
    s.on_message(&msg);
    assert_eq!(s.encodings, vec![0u32, 0xffffff21]);
}

#[test]
fn cut_text_is_discarded() {
    let mut s = serving_session();
    let msg = vec![0x06, 0, 0, 0, 0x00, 0x00, 0x00, 0x03, b'a', b'b', b'c'];
    let (parsed_msg, consumed) = parsed(&msg);
    assert_eq!(consumed, 11);
    match parsed_msg {
        ClientMessage::ClientCutText { length } => assert_eq!(length, 3),
        _ => panic!("expected cut text"),
    }
    match s.on_message(&parsed_msg) {
        Action::Idle => {}
        _ => panic!("expected no action"),
    }
}
