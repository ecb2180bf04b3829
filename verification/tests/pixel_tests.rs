use kvm_rs::pixel::{
    convert_bgra, convert_yuyv, match_dims, normalize_auto, normalize_frame, PixelLayout,
};

#[test]
fn s5_yuyv_neutral_gray() {
    // Y=127 U=128 Y=127 V=128: zero chroma leaves both pixels gray
    let out = convert_yuyv(&[0x7f, 0x80, 0x7f, 0x80]);
    assert_eq!(out, vec![0x7f, 0x7f, 0x7f, 0x7f, 0x7f, 0x7f]);
}

#[test]
fn yuyv_chroma_terms_are_exact() {
    // Y0=255 U=0 Y1=255 V=255:
    //   R = clip(255 + 1402*127/1000)        = clip(255 + 178) = 255
    //   G = clip(255 - (-44) - 90)           = 209
    //   B = clip(255 + (-(1772*128/1000)))   = clip(255 - 226) = 29
    let out = convert_yuyv(&[255, 0, 255, 255]);
    assert_eq!(out, vec![255, 209, 29, 255, 209, 29]);
}

#[test]
fn yuyv_clips_to_zero() {
    // Y=0 with extreme chroma clips negative channels to 0
    let out = convert_yuyv(&[0, 0, 0, 0]);
    //   R = clip(0 + 1402*(-128)/1000) = clip(-179) = 0
    //   G = clip(0 + 44 + 91) = 135
    //   B = clip(0 - 226) = 0
    assert_eq!(out, vec![0, 135, 0, 0, 135, 0]);
}

#[test]
fn yuyv_length_is_six_bytes_per_macropixel() {
    for k in [0usize, 1, 7, 160] {
        let input = vec![0x80u8; 4 * k];
        assert_eq!(convert_yuyv(&input).len(), 6 * k);
    }
    // a trailing partial macropixel is ignored
    assert_eq!(convert_yuyv(&[1, 2, 3]).len(), 0);
    assert_eq!(convert_yuyv(&[1, 2, 3, 4, 5]).len(), 6);
}

#[test]
fn normalize_yuyv_by_length() {
    let input = vec![0x7fu8; 640 * 480 * 2];
    // neutral chroma requires U=V=128; build proper macropixels
    let input: Vec<u8> = input
        .chunks(4)
        .flat_map(|_| [0x7f, 0x80, 0x7f, 0x80])
        .collect();
    let f = normalize_frame(&input, &PixelLayout::Yuyv).expect("a candidate size");
    assert_eq!((f.width, f.height), (640, 480));
    assert_eq!(f.data.len(), 640 * 480 * 3);
    assert!(f.data.iter().all(|&b| b == 0x7f));
}

#[test]
fn normalize_rgb24_passthrough() {
    let input = vec![9u8; 320 * 240 * 3];
    let f = normalize_frame(&input, &PixelLayout::Rgb24).expect("a candidate size");
    assert_eq!((f.width, f.height), (320, 240));
    assert_eq!(f.data, input);
}

#[test]
fn normalize_bgra_reorders_and_drops_alpha() {
    let mut input = Vec::new();
    for _ in 0..320 * 240 {
        input.extend_from_slice(&[1u8, 2, 3, 4]); // B G R A
    }
    let f = normalize_frame(&input, &PixelLayout::RawFb(4)).expect("a candidate size");
    assert_eq!((f.width, f.height), (320, 240));
    assert_eq!(f.data.len(), 320 * 240 * 3);
    assert_eq!(&f.data[0..6], &[3, 2, 1, 3, 2, 1]);
}

#[test]
fn bgra_small_input() {
    assert_eq!(convert_bgra(&[10, 20, 30, 40]), vec![30, 20, 10]);
}

#[test]
fn normalize_rejects_unmatched_lengths() {
    assert!(normalize_frame(&[0u8; 100], &PixelLayout::Yuyv).is_none());
    assert!(normalize_frame(&[0u8; 100], &PixelLayout::Rgb24).is_none());
    assert!(normalize_frame(&[0u8; 100], &PixelLayout::RawFb(4)).is_none());
    assert!(normalize_frame(&[0u8; 640 * 480 * 4], &PixelLayout::RawFb(2)).is_none());
    assert!(normalize_frame(b"not a jpeg", &PixelLayout::Mjpeg).is_none());
}

#[test]
fn candidate_dimension_set() {
    assert_eq!(match_dims(1920 * 1080), Some((1920, 1080)));
    assert_eq!(match_dims(1280 * 720), Some((1280, 720)));
    assert_eq!(match_dims(640 * 480), Some((640, 480)));
    assert_eq!(match_dims(320 * 240), Some((320, 240)));
    assert_eq!(match_dims(800 * 600), None);
    assert_eq!(match_dims(0), None);
}

#[test]
fn normalize_auto_classifies_by_marker_and_length() {
    // an RGB24-sized buffer without the JPEG marker passes through
    let rgb = vec![7u8; 320 * 240 * 3];
    let f = normalize_auto(&rgb).expect("classified as RGB24");
    assert_eq!((f.width, f.height), (320, 240));
    // a YUYV-sized buffer converts (length check: 2 bytes in, 3 out per pixel)
    let yuyv = vec![0x80u8; 320 * 240 * 2];
    let f = normalize_auto(&yuyv).expect("classified as YUYV");
    assert_eq!((f.width, f.height), (320, 240));
    assert_eq!(f.data.len(), 320 * 240 * 3);
    // garbage of no candidate size is rejected
    assert!(normalize_auto(&[1u8, 2, 3, 4, 5]).is_none());
}

#[test]
fn mjpeg_decodes_through_the_image_crate() {
    // encode a small picture to JPEG, then normalize it back
    let img = image::RgbImage::from_fn(16, 8, |x, _| image::Rgb([(x * 16) as u8, 0x40, 0x80]));
    let mut jpeg: Vec<u8> = Vec::new();
    let mut cursor = std::io::Cursor::new(&mut jpeg);
    img.write_to(&mut cursor, image::ImageFormat::Jpeg)
        .expect("encoding succeeds");
    assert_eq!(&jpeg[0..2], &[0xff, 0xd8]);

    let f = normalize_auto(&jpeg).expect("decodable JPEG");
    assert_eq!((f.width, f.height), (16, 8));
    assert_eq!(f.data.len(), 16 * 8 * 3);
    // the decoder really ran: the raster differs in shape from the input bytes
    assert_ne!(f.data.len(), jpeg.len());

    let f2 = normalize_frame(&jpeg, &PixelLayout::Mjpeg).expect("decodable JPEG");
    assert_eq!((f2.width, f2.height), (16, 8));
}
