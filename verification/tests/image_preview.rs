use rataria::image_preview::image_ready;
use rataria::image_preview::{base64_encode, detect_format, has_image_extension, is_valid_image};

#[test]
fn test_is_valid_image_arquivo_inexistente() {
    assert!(!is_valid_image("/tmp/nao_existe_rataria_xyz.png"));
}

#[test]
fn test_base64_encode_vazio() {
    assert_eq!(base64_encode(b""), "");
}

#[test]
fn test_base64_encode_um_byte() {
    assert_eq!(base64_encode(b"M"), "TQ==");
}

#[test]
fn test_base64_encode_dois_bytes() {
    assert_eq!(base64_encode(b"Ma"), "TWE=");
}

#[test]
fn test_base64_encode_tres_bytes() {
    assert_eq!(base64_encode(b"Man"), "TWFu");
}

#[test]
fn test_base64_encode_string_conhecida() {
    assert_eq!(base64_encode(b"Hello"), "SGVsbG8=");
}

#[test]
fn test_detect_format_png() {
    let png_header = b"\x89PNG\r\n\x1a\n rest of data";
    assert_eq!(detect_format(png_header), 100);
}

#[test]
fn test_detect_format_jpeg() {
    let jpg_header = b"\xff\xd8\xff rest of data";
    assert_eq!(detect_format(jpg_header), 100);
}

#[test]
fn test_detect_format_fallback() {
    let unknown = b"unknown format";
    assert_eq!(detect_format(unknown), 100);
}

#[test]
fn base64_uses_the_whole_alphabet() {
    let bytes: Vec<u8> = vec![0x00, 0x10, 0x83, 0x10, 0x51, 0x87, 0x20, 0x92, 0x8b, 0x30, 0xd3, 0x8f,
        0x41, 0x14, 0x93, 0x51, 0x55, 0x97, 0x61, 0x96, 0x9b, 0x71, 0xd7, 0x9f, 0x82, 0x18, 0xa3,
        0x92, 0x59, 0xa7, 0xa2, 0x9a, 0xab, 0xb2, 0xdb, 0xaf, 0xc3, 0x1c, 0xb3, 0xd3, 0x5d, 0xb7,
        0xe3, 0x9e, 0xbb, 0xf3, 0xdf, 0xbf];
    assert_eq!(
        base64_encode(&bytes),
        "ABCDEFGHIJKLMNOPQRSTUVWXYZabcdefghijklmnopqrstuvwxyz0123456789+/"
    );
}

#[test]
fn base64_length_is_four_per_started_group() {
    for n in 0..20usize {
        let data = vec![0xabu8; n];
        assert_eq!(base64_encode(&data).len(), (n + 2) / 3 * 4);
    }
}

#[test]
fn image_extensions_in_any_case_are_accepted() {
    assert!(has_image_extension("/x/shot.PNG"));
    assert!(has_image_extension("a.Jpeg"));
    assert!(has_image_extension("b.webp"));
    assert!(has_image_extension("c.gif"));
    assert!(has_image_extension("d.jpg"));
    assert!(!has_image_extension("e.txt"));
    assert!(!has_image_extension("png"));
    assert!(!has_image_extension("/dir.png/file"));
}

#[test]
fn image_ready_needs_file_and_extension() {
    assert!(image_ready("/a/b.PNG", true));
    assert!(image_ready("x.webp", true));
    assert!(!image_ready("/a/b.png", false));
    assert!(!image_ready("/a/b.txt", true));
    assert!(!image_ready("/a/png", true));
}

#[test]
fn base64_of_whole_groups_then_rest_concatenates() {
    let a = b"Man";
    let b = b"Hello";
    let joined = [a.as_slice(), b.as_slice()].concat();
    assert_eq!(base64_encode(&joined), base64_encode(a) + &base64_encode(b));
}
