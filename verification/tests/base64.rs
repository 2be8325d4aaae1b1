use sui_data_provider::types::base64::Base64;

#[test]
fn encode_reference_vectors() {
    assert_eq!(Base64 { bytes: b"".to_vec() }.encode(), "");
    assert_eq!(Base64 { bytes: b"f".to_vec() }.encode(), "Zg==");
    assert_eq!(Base64 { bytes: b"fo".to_vec() }.encode(), "Zm8=");
    assert_eq!(Base64 { bytes: b"foo".to_vec() }.encode(), "Zm9v");
    assert_eq!(Base64 { bytes: b"foob".to_vec() }.encode(), "Zm9vYg==");
    assert_eq!(Base64 { bytes: b"fooba".to_vec() }.encode(), "Zm9vYmE=");
    assert_eq!(Base64 { bytes: b"foobar".to_vec() }.encode(), "Zm9vYmFy");
}

#[test]
fn encode_uses_every_symbol() {
    let bytes: Vec<u8> = vec![
        0x00, 0x10, 0x83, 0x10, 0x51, 0x87, 0x20, 0x92, 0x8b, 0x30, 0xd3, 0x8f, 0x41, 0x14, 0x93,
        0x51, 0x55, 0x97, 0x61, 0x96, 0x9b, 0x71, 0xd7, 0x9f, 0x82, 0x18, 0xa3, 0x92, 0x59, 0xa7,
        0xa2, 0x9a, 0xab, 0xb2, 0xdb, 0xaf, 0xc3, 0x1c, 0xb3, 0xd3, 0x5d, 0xb7, 0xe3, 0x9e, 0xbb,
        0xf3, 0xdf, 0xbf,
    ];
    assert_eq!(
        Base64 { bytes }.encode(),
        "ABCDEFGHIJKLMNOPQRSTUVWXYZabcdefghijklmnopqrstuvwxyz0123456789+/"
    );
}

#[test]
fn encode_high_bytes() {
    assert_eq!(Base64 { bytes: vec![0xff] }.encode(), "/w==");
    assert_eq!(Base64 { bytes: vec![0xff, 0xff] }.encode(), "//8=");
    assert_eq!(Base64 { bytes: vec![0xff, 0xfe, 0xfd] }.encode(), "//79");
    assert_eq!(Base64 { bytes: vec![0, 0, 0, 0] }.encode(), "AAAAAA==");
}

#[test]
fn encode_length_is_four_for_every_three() {
    for n in 0usize..40 {
        let bytes: Vec<u8> = (0..n).map(|i| (i * 7 + 3) as u8).collect();
        assert_eq!(Base64 { bytes }.encode().len(), 4 * ((n + 2) / 3));
    }
}

#[test]
fn from_bytes_keeps_them() {
    let b = Base64::from(vec![1u8, 2, 3]);
    assert_eq!(b.bytes, vec![1u8, 2, 3]);
    assert_eq!(b, Base64 { bytes: vec![1, 2, 3] });
}
