use kvm_rs::args::{choose_cert_source, Args, CertSource};
use kvm_rs::hid::{classify_ws_input, HidError, HidManager, WsInput};
use kvm_rs::input::{key_event_report, key_usage, mouse_report, pointer_delta};
use kvm_rs::message::{parse_client_message, ClientMessage, ParseOutcome};

#[test]
fn keysym_table_maps_the_editing_keys() {
    assert_eq!(key_usage(0xff08), Some(0x2a)); // Backspace
    assert_eq!(key_usage(0xff09), Some(0x2b)); // Tab
    assert_eq!(key_usage(0xff0d), Some(0x28)); // Enter
    assert_eq!(key_usage(0xff1b), Some(0x29)); // Escape
    assert_eq!(key_usage(0xff50), Some(0x4a)); // Home
    assert_eq!(key_usage(0xff51), Some(0x50)); // Left
    assert_eq!(key_usage(0xff52), Some(0x52)); // Up
    assert_eq!(key_usage(0xff53), Some(0x4f)); // Right
    assert_eq!(key_usage(0xff54), Some(0x51)); // Down
    assert_eq!(key_usage(0x20), Some(0x2c)); // Space
}

#[test]
fn keysym_table_maps_letters_and_digits() {
    assert_eq!(key_usage(0x41), Some(0x04)); // 'A'
    assert_eq!(key_usage(0x5a), Some(0x1d)); // 'Z'
    assert_eq!(key_usage(0x61), Some(0x04)); // 'a'
    assert_eq!(key_usage(0x7a), Some(0x1d)); // 'z'
    // digit '0' sits apart from '1'..'9' in the HID usage table
    assert_eq!(key_usage(0x30), Some(0x27)); // '0'
    assert_eq!(key_usage(0x31), Some(0x1e)); // '1'
    assert_eq!(key_usage(0x32), Some(0x1f)); // '2'
    assert_eq!(key_usage(0x39), Some(0x26)); // '9'
    assert_eq!(key_usage(0xffbe), None); // F1 is unmapped
    assert_eq!(key_usage(0x2f), None);
}

#[test]
fn down_reports_carry_one_usage_up_reports_none() {
    let down = key_event_report(0x41, true).unwrap();
    assert_eq!(down, [0, 0, 0x04, 0, 0, 0, 0, 0]);
    // exactly one non-zero byte in the six key slots
    assert_eq!(down[2..].iter().filter(|&&b| b != 0).count(), 1);
    let up = key_event_report(0x41, false).unwrap();
    assert_eq!(up, [0u8; 8]);
    assert!(key_event_report(0xffbe, true).is_none());
}

#[test]
fn pointer_delta_clamps_and_encodes() {
    assert_eq!(pointer_delta(0, 10), 10);
    assert_eq!(pointer_delta(10, 10), 0);
    assert_eq!(pointer_delta(0, 500), 127);
    assert_eq!(pointer_delta(500, 0), 0x81); // -127
    assert_eq!(pointer_delta(10, 8), 0xfe); // -2
    assert_eq!(pointer_delta(65535, 0), 0x81);
    assert_eq!(pointer_delta(0, 65535), 127);
}

#[test]
fn mouse_report_masks_the_buttons() {
    assert_eq!(mouse_report(0xff, 1, 2), [0x07, 1, 2, 0]);
    assert_eq!(mouse_report(0x01, 0, 0), [0x01, 0, 0, 0]);
}

#[test]
fn hid_reports_are_validated_by_length() {
    let m = HidManager::new("/dev/hidg0".to_owned(), "/dev/hidg1".to_owned());
    assert_eq!(m.keyboard_device().as_str(), "/dev/hidg0");
    assert_eq!(m.mouse_device().as_str(), "/dev/hidg1");
    assert!(m.check_keyboard_report(&[0u8; 8]).is_ok());
    assert!(m.check_keyboard_report(&[0u8; 9]).is_ok());
    assert_eq!(
        m.check_keyboard_report(&[0u8; 7]),
        Err(HidError::KeyboardReportTooShort)
    );
    assert!(m.check_mouse_report(&[0u8; 4]).is_ok());
    assert_eq!(
        m.check_mouse_report(&[0u8; 3]),
        Err(HidError::MouseReportTooShort)
    );
    assert_eq!(
        HidError::KeyboardReportTooShort.message(),
        "Keyboard HID report must be at least 8 bytes"
    );
    assert_eq!(
        HidError::MouseReportTooShort.message(),
        "Mouse HID report must be at least 4 bytes"
    );
}

#[test]
fn ws_input_routes_by_first_byte() {
    assert!(matches!(classify_ws_input(&[]), WsInput::Empty));
    assert!(matches!(classify_ws_input(&[1, 9, 9]), WsInput::Keyboard));
    assert!(matches!(classify_ws_input(&[2, 9]), WsInput::Mouse));
    assert!(matches!(classify_ws_input(&[3, 9]), WsInput::Unknown(3)));
}

#[test]
fn parser_reports_incomplete_messages() {
    assert!(matches!(parse_client_message(&[]), ParseOutcome::Incomplete));
    // SetPixelFormat needs 20 bytes
    assert!(matches!(
        parse_client_message(&[0u8; 19]),
        ParseOutcome::Incomplete
    ));
    // KeyEvent needs 8
    assert!(matches!(
        parse_client_message(&[4, 1, 0, 0, 0]),
        ParseOutcome::Incomplete
    ));
    // SetEncodings needs its full list
    assert!(matches!(
        parse_client_message(&[2, 0, 0, 2, 0, 0, 0, 0]),
        ParseOutcome::Incomplete
    ));
    // ClientCutText needs its payload
    assert!(matches!(
        parse_client_message(&[6, 0, 0, 0, 0, 0, 0, 5, b'a']),
        ParseOutcome::Incomplete
    ));
}

#[test]
fn parser_consumes_unknown_messages_whole() {
    match parse_client_message(&[0x77, 1, 2, 3]) {
        ParseOutcome::Parsed(ClientMessage::Unknown(b), n) => {
            assert_eq!(b, 0x77);
            assert_eq!(n, 4);
        }
        _ => panic!("expected an unknown message"),
    }
}

#[test]
fn parser_reads_pointer_and_key_fields_big_endian() {
    match parse_client_message(&[5, 0x07, 0x01, 0x02, 0x03, 0x04, 0xaa]) {
        ParseOutcome::Parsed(ClientMessage::PointerEvent { buttons, x, y }, n) => {
            assert_eq!(buttons, 7);
            assert_eq!(x, 0x0102);
            assert_eq!(y, 0x0304);
            assert_eq!(n, 6); // one trailing byte stays in the buffer
        }
        _ => panic!("expected a pointer event"),
    }
    match parse_client_message(&[4, 2, 0, 0, 0xde, 0xad, 0xbe, 0xef]) {
        ParseOutcome::Parsed(ClientMessage::KeyEvent { down, key }, n) => {
            assert!(down);
            assert_eq!(key, 0xdeadbeef);
            assert_eq!(n, 8);
        }
        _ => panic!("expected a key event"),
    }
}

#[test]
fn default_configuration_matches_the_served_interfaces() {
    let a = Args::defaults();
    assert_eq!(a.video_device, "/dev/video0");
    assert!(!a.force_framebuffer);
    assert_eq!(a.keyboard_hid, "/dev/hidg0");
    assert_eq!(a.mouse_hid, "/dev/hidg1");
    assert_eq!(a.port, 8443);
    assert_eq!(a.vnc_port, 5900);
    assert_eq!(a.bind_address, "0.0.0.0");
    assert!(!a.vnc_tls);
    assert!(a.vnc_cert.is_none() && a.vnc_key.is_none());
}

#[test]
fn cert_source_needs_both_paths() {
    match choose_cert_source(Some("c.pem".to_owned()), Some("k.pem".to_owned())) {
        CertSource::Files(c, k) => {
            assert_eq!(c, "c.pem");
            assert_eq!(k, "k.pem");
        }
        CertSource::SelfSigned => panic!("both paths were given"),
    }
    assert!(matches!(
        choose_cert_source(Some("c.pem".to_owned()), None),
        CertSource::SelfSigned
    ));
    assert!(matches!(
        choose_cert_source(None, None),
        CertSource::SelfSigned
    ));
}
