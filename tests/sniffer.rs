use image_convert::{get_image_format, WasmImageError, WasmImageFormat};

fn padded(prefix: &[u8], len: usize) -> Vec<u8> {
    let mut b = prefix.to_vec();
    b.resize(len, 0x11);
    b
}

#[test]
fn short_buffers_are_corrupted() {
    for len in 0..12 {
        let b = padded(&[0x89, 0x50, 0x4e, 0x47], len.max(4));
        let b = &b[..len];
        let e = get_image_format(b).unwrap_err();
        assert_eq!(e, WasmImageError::BinaryDataError("binary data corrupted"));
        assert_eq!(e.message(), "binary data corrupted");
    }
}

#[test]
fn avif_brand_precedes_prefix_table() {
    let mut b = vec![0x89, 0x50, 0x4e, 0x47];
    b.extend_from_slice(&[0x66, 0x74, 0x79, 0x70, 0x61, 0x76, 0x69, 0x66]);
    assert_eq!(get_image_format(&b), Ok(WasmImageFormat::Avif));
    let mut c = vec![0x00, 0x00, 0x00, 0x1c];
    c.extend_from_slice(&[0x66, 0x74, 0x79, 0x70, 0x6d, 0x69, 0x66, 0x31]);
    c.extend_from_slice(&[0x00; 8]);
    assert_eq!(get_image_format(&c), Ok(WasmImageFormat::Avif));
}

#[test]
fn prefix_table() {
    let cases: [(&[u8], WasmImageFormat); 9] = [
        (&[0x89, 0x50, 0x4e, 0x47], WasmImageFormat::Png),
        (&[0xff, 0xd8, 0xff, 0xe0], WasmImageFormat::Jpeg),
        (&[0x47, 0x49, 0x46, 0x38], WasmImageFormat::Gif),
        (&[0x52, 0x49, 0x46, 0x46], WasmImageFormat::WebP),
        (&[0x4e, 0x4e, 0x00, 0xa2], WasmImageFormat::Tiff),
        (&[0x49, 0x49, 0x2a, 0x00], WasmImageFormat::Tiff),
        (&[0x42, 0x4d], WasmImageFormat::Bmp),
        (&[0x42, 0x4d, 0x36, 0x00], WasmImageFormat::Bmp),
        (&[0x00, 0x00, 0x01, 0x00], WasmImageFormat::Ico),
    ];
    for (prefix, format) in cases {
        assert_eq!(get_image_format(&padded(prefix, 12)), Ok(format));
        assert_eq!(get_image_format(&padded(prefix, 40)), Ok(format));
    }
}

#[test]
fn png_prefix_with_any_suffix() {
    for fill in [0x00u8, 0x7f, 0xff] {
        let mut b = vec![0x89, 0x50, 0x4e, 0x47];
        b.resize(20, fill);
        assert_eq!(get_image_format(&b), Ok(WasmImageFormat::Png));
    }
}

#[test]
fn unknown_signature() {
    let e = get_image_format(&[0u8; 16]).unwrap_err();
    assert_eq!(e, WasmImageError::UnknownFormatError("unable to determine image format"));
    assert_eq!(e.message(), "unable to determine image format");
    assert!(get_image_format(&padded(&[0x42, 0x4e], 12)).is_err());
    assert!(get_image_format(&padded(&[0x89, 0x50, 0x4e, 0x48], 12)).is_err());
}
