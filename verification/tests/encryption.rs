use kayleeping::content::ImageHandle;
use kayleeping::encryption::{
    content_from_plaintext, decrypt, decrypt_payload, encoding_error, derive_key, encrypt, encrypt_with,
    plan_save, png_pixel_size, DecryptFault, HEADER_LEN, NONCE_LEN, SALT_LEN,
};
use kayleeping::error::AppError;

/// A PNG signature followed by an IHDR chunk for a 3 x 7 RGBA image.
const FIXTURE_PNG: &[u8] = &[
    0x89, 0x50, 0x4e, 0x47, 0x0d, 0x0a, 0x1a, 0x0a, 0x00, 0x00, 0x00, 0x0d, 0x49, 0x48, 0x44, 0x52,
    0x00, 0x00, 0x00, 0x03, 0x00, 0x00, 0x00, 0x07, 0x08, 0x06, 0x00, 0x00, 0x00, 0x3a, 0x2e, 0x5b,
    0x7f, 0x00, 0x00, 0x00, 0x00, 0x49, 0x45, 0x4e, 0x44, 0xae, 0x42, 0x60, 0x82,
];

#[test]
fn png_pixel_size_reads_ihdr() {
    assert_eq!(png_pixel_size(FIXTURE_PNG), Some((3, 7)));
}

#[test]
fn png_pixel_size_rejects_non_png() {
    assert!(png_pixel_size(b"not a png").is_none());
    assert!(png_pixel_size(&FIXTURE_PNG[..20]).is_none());
}

#[test]
fn derive_key_is_deterministic() {
    let salt = [1u8; 16];
    let a = derive_key("pw", &salt);
    let b = derive_key("pw", &salt);
    assert_eq!(a, b);
    assert_ne!(derive_key("other", &salt), a);
}

#[test]
fn encrypt_decrypt_roundtrip() {
    let plaintext = b"payload bytes \xff";
    let enc = encrypt(plaintext, "secret");
    let out = decrypt(&enc, "secret").unwrap();
    assert_eq!(out.as_slice(), plaintext);
}

#[test]
fn decrypt_wrong_password_fails() {
    let enc = encrypt(b"x", "good");
    assert!(decrypt(&enc, "bad").is_err());
}

#[test]
fn decrypt_truncated_returns_error() {
    let short = vec![0u8; 10];
    assert!(decrypt(&short, "pw").is_err());
}

#[test]
fn content_from_plaintext_uses_png_dimensions() {
    let c = content_from_plaintext(FIXTURE_PNG, "hi".into());
    assert_eq!(c.image_size, (3, 7));
    assert_eq!(c.text, "hi");
}

#[test]
fn content_from_plaintext_non_png_fallback_size() {
    let c = content_from_plaintext(b"jpeg-ish", "".into());
    assert_eq!(c.image_size, (256, 256));
}

#[test]
fn roundtrip_decrypt_rebuilds_content() {
    let pwd = "integration-pw";
    let img = FIXTURE_PNG;
    let enc_img = encrypt(img, pwd);
    let enc_txt = encrypt(b"caption", pwd);
    let plain_img = decrypt(&enc_img, pwd).unwrap();
    assert_eq!(plain_img.as_slice(), img);
    let plain_txt = decrypt(&enc_txt, pwd).unwrap();
    let rebuilt = content_from_plaintext(&plain_img, String::from_utf8(plain_txt).unwrap());
    assert_eq!(rebuilt.image_size, (3, 7));
    assert_eq!(rebuilt.text, "caption");
}

#[test]
fn ciphertext_layout_is_salt_nonce_body() {
    let salt = [7u8; 16];
    let nonce = [9u8; 12];
    let blob = encrypt_with(b"hello", "pw", &salt, &nonce);
    assert_eq!(blob.len(), 5 + HEADER_LEN + 16);
    assert_eq!(&blob[..SALT_LEN], &salt);
    assert_eq!(&blob[SALT_LEN..SALT_LEN + NONCE_LEN], &nonce);
    assert_ne!(&blob[HEADER_LEN..HEADER_LEN + 5], b"hello");
    assert_eq!(decrypt(&blob, "pw").unwrap(), b"hello".to_vec());
}

#[test]
fn encrypt_with_is_deterministic_and_encrypt_is_not() {
    let salt = [3u8; 16];
    let nonce = [4u8; 12];
    assert_eq!(encrypt_with(b"m", "pw", &salt, &nonce), encrypt_with(b"m", "pw", &salt, &nonce));
    assert_ne!(encrypt(b"m", "pw"), encrypt(b"m", "pw"));
}

#[test]
fn encrypt_of_empty_content_roundtrips() {
    let enc = encrypt(b"", "pw");
    assert_eq!(enc.len(), HEADER_LEN + 16);
    assert_eq!(decrypt(&enc, "pw").unwrap(), Vec::<u8>::new());
}

#[test]
fn derive_key_depends_on_salt() {
    let k1 = derive_key("pw", &[0u8; 16]);
    let k2 = derive_key("pw", &[1u8; 16]);
    assert_ne!(k1, k2);
    assert_ne!(k1, [0u8; 32]);
}

#[test]
fn decrypt_truncated_reports_sizes() {
    match decrypt(&[0u8; 27], "pw") {
        Err(AppError::InvalidCiphertext { details }) => assert_eq!(
            details,
            "Truncated ciphertext: got 27 bytes, need at least 28 (wrong URL/file, plaintext 404/HTML, or not our binary format)"
        ),
        other => panic!("unexpected {:?}", other),
    }
}

#[test]
fn decrypt_header_only_is_rejected() {
    match decrypt(&[0u8; 28], "pw") {
        Err(AppError::DecryptionError { details }) => {
            assert_eq!(details, "Decryption failed - wrong PASSWORD or corrupt ciphertext")
        },
        other => panic!("unexpected {:?}", other),
    }
}

#[test]
fn decrypt_tampered_ciphertext_is_rejected() {
    let mut enc = encrypt(b"data", "pw");
    let last: usize = enc.len() - 1;
    enc[last] ^= 1;
    assert!(matches!(decrypt(&enc, "pw"), Err(AppError::DecryptionError { .. })));
}

#[test]
fn decrypt_payload_succeeds() {
    let img = encrypt(FIXTURE_PNG, "pw");
    let txt = encrypt("caption é".as_bytes(), "pw");
    let (i, t) = decrypt_payload(&img, &txt, "pw").unwrap();
    assert_eq!(i.as_slice(), FIXTURE_PNG);
    assert_eq!(t, "caption é");
}

#[test]
fn decrypt_payload_reports_image_failure() {
    let txt = encrypt(b"caption", "pw");
    match decrypt_payload(&[1u8; 5], &txt, "pass") {
        Err(AppError::DecryptionError { details }) => assert_eq!(
            details,
            "Failed to decrypt image (size: 5 bytes, password length: 4): Invalid Data Format\n\nThe encrypted data appears to be corrupted or in an unexpected format.\n\nDetails: Truncated ciphertext: got 5 bytes, need at least 28 (wrong URL/file, plaintext 404/HTML, or not our binary format)"
        ),
        other => panic!("unexpected {:?}", other),
    }
}

#[test]
fn decrypt_payload_reports_text_failure() {
    let img = encrypt(b"img", "pw");
    let txt = encrypt(b"caption", "other");
    match decrypt_payload(&img, &txt, "pw") {
        Err(AppError::DecryptionError { details }) => assert_eq!(
            details,
            format!(
                "Failed to decrypt text (size: {} bytes, password length: 2): Decryption Failed\n\nCould not decrypt the content. This usually means the password is incorrect or the data is corrupted.\n\nDetails: Decryption failed - wrong PASSWORD or corrupt ciphertext",
                txt.len()
            )
        ),
        other => panic!("unexpected {:?}", other),
    }
}

#[test]
fn decrypt_payload_reports_invalid_utf8() {
    let img = encrypt(b"img", "pw");
    let txt = encrypt(&[0xff, 0xfe], "pw");
    match decrypt_payload(&img, &txt, "pw") {
        Err(AppError::EncodingError { details }) => {
            let reason = String::from_utf8(vec![0xff, 0xfe]).unwrap_err().to_string();
            assert_eq!(details, format!("Decrypted text is not valid UTF-8: {}", reason));
        },
        other => panic!("unexpected {:?}", other),
    }
}

#[test]
fn plan_save_writes_only_changes() {
    let p = plan_save(b"", b"", b"img", b"txt");
    assert!(p.write_image && p.write_text && p.is_new());
    let p = plan_save(b"img", b"txt", b"img", b"txt");
    assert!(!p.write_image && !p.write_text && !p.is_new());
    let p = plan_save(b"img", b"old", b"img", b"txt");
    assert!(!p.write_image && p.write_text && p.is_new());
}

#[test]
fn png_pixel_size_edge_cases() {
    let mut zero_w = FIXTURE_PNG.to_vec();
    zero_w[16..20].copy_from_slice(&[0, 0, 0, 0]);
    assert_eq!(png_pixel_size(&zero_w), None);
    let mut big = FIXTURE_PNG.to_vec();
    big[16..20].copy_from_slice(&[0x01, 0x02, 0x03, 0x04]);
    big[20..24].copy_from_slice(&[0xff, 0xff, 0xff, 0xff]);
    assert_eq!(png_pixel_size(&big), Some((0x01020304, 0xffff_ffff)));
    let mut bad_sig = FIXTURE_PNG.to_vec();
    bad_sig[0] = 0x88;
    assert_eq!(png_pixel_size(&bad_sig), None);
    assert_eq!(png_pixel_size(&FIXTURE_PNG[..24]), Some((3, 7)));
    assert_eq!(png_pixel_size(&FIXTURE_PNG[..23]), None);
}

#[test]
fn content_from_plaintext_keeps_bytes() {
    let c = content_from_plaintext(b"abc", "t".into());
    match c.image_handle {
        ImageHandle::Bytes(b) => assert_eq!(b, b"abc".to_vec()),
        other => panic!("unexpected {:?}", other),
    }
}

#[test]
fn decrypt_fault_values_are_distinct() {
    assert_ne!(DecryptFault::Truncated, DecryptFault::Rejected);
}

#[test]
fn decrypt_body_shorter_than_tag_is_rejected() {
    for len in [28usize, 35, 43] {
        match decrypt(&vec![5u8; len], "pw") {
            Err(AppError::DecryptionError { details }) => {
                assert_eq!(details, "Decryption failed - wrong PASSWORD or corrupt ciphertext")
            },
            other => panic!("unexpected {:?}", other),
        }
    }
}

#[test]
fn encoding_error_prefixes_reason() {
    match encoding_error("bad byte") {
        AppError::EncodingError { details } => {
            assert_eq!(details, "Decrypted text is not valid UTF-8: bad byte")
        },
        other => panic!("unexpected {:?}", other),
    }
}
