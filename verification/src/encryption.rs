//! The ciphertext format shared by image and caption, and the PNG header
//! reader used to size the window.
//!
//! A ciphertext is laid out as: 16-byte PBKDF2 salt, 12-byte AES-GCM nonce,
//! then the AES-256-GCM ciphertext with its tag appended. The AES key is
//! PBKDF2-HMAC-SHA256 of the password and salt, with 100 000 iterations.

use vstd::prelude::*;
use vstd::slice::{slice_subrange, slice_to_vec};
use vstd::utf8::{encode_utf8, valid_utf8};
use crate::content::{Content, ImageHandle};
use crate::error::AppError;
use crate::primitives::{
    aes256gcm_open, aes256gcm_opened, aes256gcm_seal, aes256gcm_sealed, pbkdf2_hmac_sha256,
    pbkdf2_sha256, random_bytes, AES_GCM_MAX_PLAINTEXT, AES_GCM_TAG_LEN,
};
use crate::text::{bytes_equal, decimal, decimal_string, string_from_utf8, utf8_error_text};

verus! {

/// Length of the PBKDF2 salt at the front of a ciphertext.
pub const SALT_LEN: usize = 16;

/// Length of the AES-GCM nonce that follows the salt.
pub const NONCE_LEN: usize = 12;

/// Length of salt and nonce together: no ciphertext is shorter.
pub const HEADER_LEN: usize = 28;

/// PBKDF2 iterations used to derive the AES key.
pub const PBKDF2_ROUNDS: u32 = 100000;

/// The AES-256 key derived from `password` and `salt`.
pub open spec fn derived_key(password: Seq<char>, salt: Seq<u8>) -> Seq<u8> {
    pbkdf2_hmac_sha256(password, salt, PBKDF2_ROUNDS)
}

/// The ciphertext of `content` under `password`, with the given salt and nonce.
pub open spec fn frame(salt: Seq<u8>, nonce: Seq<u8>, password: Seq<char>, content: Seq<u8>) -> Seq<u8> {
    salt + nonce + aes256gcm_sealed(derived_key(password, salt), nonce, content)
}

/// The salt of a ciphertext.
pub open spec fn frame_salt(blob: Seq<u8>) -> Seq<u8> {
    blob.subrange(0, SALT_LEN as int)
}

/// The nonce of a ciphertext.
pub open spec fn frame_nonce(blob: Seq<u8>) -> Seq<u8> {
    blob.subrange(SALT_LEN as int, HEADER_LEN as int)
}

/// The AES-GCM part of a ciphertext.
pub open spec fn frame_body(blob: Seq<u8>) -> Seq<u8> {
    blob.subrange(HEADER_LEN as int, blob.len() as int)
}

/// `blob` is a ciphertext of `content` under `password`, for the salt and
/// nonce it carries.
pub open spec fn seals(blob: Seq<u8>, password: Seq<char>, content: Seq<u8>) -> bool {
    &&& blob.len() >= HEADER_LEN
    &&& frame_body(blob) == aes256gcm_sealed(
        derived_key(password, frame_salt(blob)),
        frame_nonce(blob),
        content,
    )
}

/// Why a ciphertext was refused.
#[derive(Clone, Copy, Debug, PartialEq, Eq, Structural)]
pub enum DecryptFault {
    /// Shorter than salt and nonce.
    Truncated,
    /// Authentication failed: wrong password or corrupt ciphertext.
    Rejected,
}

/// What decrypting `blob` with `password` gives. A ciphertext too short to
/// hold salt and nonce is truncated; one whose AES-GCM part is shorter than
/// the tag can never authenticate.
pub open spec fn decrypt_outcome(blob: Seq<u8>, password: Seq<char>) -> Result<Seq<u8>, DecryptFault> {
    if blob.len() < HEADER_LEN {
        Err(DecryptFault::Truncated)
    } else if blob.len() < HEADER_LEN + AES_GCM_TAG_LEN {
        Err(DecryptFault::Rejected)
    } else {
        match aes256gcm_opened(
            derived_key(password, frame_salt(blob)),
            frame_nonce(blob),
            frame_body(blob),
        ) {
            Some(p) => Ok(p),
            None => Err(DecryptFault::Rejected),
        }
    }
}

/// Details reported for a ciphertext of `len` bytes that is too short.
pub open spec fn truncated_details(len: nat) -> Seq<char> {
    "Truncated ciphertext: got "@ + decimal(len) + " bytes, need at least "@ + decimal(
        HEADER_LEN as nat,
    ) + " (wrong URL/file, plaintext 404/HTML, or not our binary format)"@
}

/// Details reported for a ciphertext that fails authentication.
pub open spec fn rejected_details() -> Seq<char> {
    "Decryption failed - wrong PASSWORD or corrupt ciphertext"@
}

/// The user message of the error `decrypt` reports for a fault on a
/// ciphertext of `len` bytes.
pub open spec fn fault_message(fault: DecryptFault, len: nat) -> Seq<char> {
    match fault {
        DecryptFault::Truncated =>
            "Invalid Data Format\n\nThe encrypted data appears to be corrupted or in an unexpected format.\n\nDetails: "@
                + truncated_details(len),
        DecryptFault::Rejected =>
            "Decryption Failed\n\nCould not decrypt the content. This usually means the password is incorrect or the data is corrupted.\n\nDetails: "@
                + rejected_details(),
    }
}

/// A frame built from a 16-byte salt and a 12-byte nonce seals its content.
pub proof fn lemma_frame_seals(salt: Seq<u8>, nonce: Seq<u8>, password: Seq<char>, content: Seq<u8>)
    requires
        salt.len() == SALT_LEN,
        nonce.len() == NONCE_LEN,
    ensures
        seals(frame(salt, nonce, password, content), password, content),
        frame_salt(frame(salt, nonce, password, content)) == salt,
        frame_nonce(frame(salt, nonce, password, content)) == nonce,
{
    let blob = frame(salt, nonce, password, content);
    assert(frame_salt(blob) =~= salt);
    assert(frame_nonce(blob) =~= nonce);
    assert(frame_body(blob) =~= aes256gcm_sealed(derived_key(password, salt), nonce, content));
}

/// The key is PBKDF2-HMAC-SHA256 of the password and salt with 100 000
/// iterations: keys derived with any other iteration count are other keys.
pub proof fn lemma_derived_key_is_pbkdf2_100000(password: Seq<char>, salt: Seq<u8>)
    ensures
        derived_key(password, salt) == pbkdf2_hmac_sha256(password, salt, 100000),
{
}

/// Decryption only ever yields authenticated plaintext: a successful outcome
/// is what AES-256-GCM authenticates for the key derived from the password
/// and the blob's salt, under the blob's nonce; and whenever AES-256-GCM
/// refuses the blob's body, the outcome is a rejection, whatever the length.
pub proof fn lemma_decrypt_outcome_is_authenticated(blob: Seq<u8>, password: Seq<char>)
    ensures
        decrypt_outcome(blob, password) matches Ok(v) ==> blob.len() >= 28 && aes256gcm_opened(
            pbkdf2_hmac_sha256(password, blob.subrange(0, 16), 100000),
            blob.subrange(16, 28),
            blob.subrange(28, blob.len() as int),
        ) == Some(v),
        blob.len() >= 28 && aes256gcm_opened(
            pbkdf2_hmac_sha256(password, blob.subrange(0, 16), 100000),
            blob.subrange(16, 28),
            blob.subrange(28, blob.len() as int),
        ) is None ==> decrypt_outcome(blob, password) == Err::<Seq<u8>, DecryptFault>(
            DecryptFault::Rejected,
        ),
        blob.len() < 28 ==> decrypt_outcome(blob, password) == Err::<Seq<u8>, DecryptFault>(
            DecryptFault::Truncated,
        ),
{
}

/// Derives the 32-byte AES key from `password` and `salt` (PBKDF2-HMAC-SHA256,
/// 100 000 iterations). Deterministic.
pub fn derive_key(password: &str, salt: &[u8]) -> (key: [u8; 32])
    ensures
        key@ == derived_key(password@, salt@),
        key@ == pbkdf2_hmac_sha256(password@, salt@, 100000),
{
    pbkdf2_sha256(password, salt, PBKDF2_ROUNDS)
}

/// Encrypts `content` under `password` with the given salt and nonce.
pub fn encrypt_with(content: &[u8], password: &str, salt: &[u8; 16], nonce: &[u8; 12]) -> (blob: Vec<u8>)
    requires
        content@.len() <= AES_GCM_MAX_PLAINTEXT,
    ensures
        blob@ == frame(salt@, nonce@, password@, content@),
        seals(blob@, password@, content@),
        blob@.len() == content@.len() + HEADER_LEN + 16,
{
    let key = derive_key(password, salt.as_slice());
    let mut body = aes256gcm_seal(&key, nonce.as_slice(), content).unwrap();
    let mut blob = slice_to_vec(salt.as_slice());
    let mut n = slice_to_vec(nonce.as_slice());
    blob.append(&mut n);
    blob.append(&mut body);
    proof {
        lemma_frame_seals(salt@, nonce@, password@, content@);
    }
    blob
}

/// Encrypts `content` under `password` with a fresh random salt and nonce:
/// salt, then nonce, then the AES-256-GCM ciphertext and tag. The output
/// differs from call to call even for the same input.
pub fn encrypt(content: &[u8], password: &str) -> (blob: Vec<u8>)
    requires
        content@.len() <= AES_GCM_MAX_PLAINTEXT,
    ensures
        exists|salt: Seq<u8>, nonce: Seq<u8>|
            salt.len() == SALT_LEN && nonce.len() == NONCE_LEN && blob@ == #[trigger] frame(
                salt,
                nonce,
                password@,
                content@,
            ),
        seals(blob@, password@, content@),
        blob@.len() == content@.len() + HEADER_LEN + 16,
{
    let salt: [u8; 16] = random_bytes();
    let nonce: [u8; 12] = random_bytes();
    encrypt_with(content, password, &salt, &nonce)
}

/// Splits `blob` into salt, nonce and AES-GCM part, derives the key from
/// `password` and the salt, and authenticates and decrypts.
///
/// Whatever `encrypt` produced from some content under the same password
/// decrypts back to that content.
pub fn decrypt(blob: &[u8], password: &str) -> (r: Result<Vec<u8>, AppError>)
    ensures
        match decrypt_outcome(blob@, password@) {
            Ok(p) => r matches Ok(v) && v@ == p,
            Err(DecryptFault::Truncated) => r matches Err(AppError::InvalidCiphertext { details })
                && details@ == truncated_details(blob@.len()),
            Err(DecryptFault::Rejected) => r matches Err(AppError::DecryptionError { details })
                && details@ == rejected_details(),
        },
        forall|m: Seq<u8>|
            m.len() <= AES_GCM_MAX_PLAINTEXT && #[trigger] seals(blob@, password@, m) ==> (r matches Ok(
                v,
            ) && v@ == m),
        r matches Ok(v) ==> blob@.len() >= 28 && aes256gcm_opened(
            pbkdf2_hmac_sha256(password@, blob@.subrange(0, 16), 100000),
            blob@.subrange(16, 28),
            blob@.subrange(28, blob@.len() as int),
        ) == Some(v@),
        blob@.len() >= 28 && aes256gcm_opened(
            pbkdf2_hmac_sha256(password@, blob@.subrange(0, 16), 100000),
            blob@.subrange(16, 28),
            blob@.subrange(28, blob@.len() as int),
        ) is None ==> (r matches Err(AppError::DecryptionError { details }) && details@
            == "Decryption failed - wrong PASSWORD or corrupt ciphertext"@),
{
    if blob.len() < HEADER_LEN {
        let mut details = String::from_str("Truncated ciphertext: got ");
        details.append(decimal_string(blob.len()).as_str());
        details.append(" bytes, need at least ");
        details.append(decimal_string(HEADER_LEN).as_str());
        details.append(" (wrong URL/file, plaintext 404/HTML, or not our binary format)");
        return Err(AppError::InvalidCiphertext { details });
    }
    let salt = slice_subrange(blob, 0, SALT_LEN);
    let nonce = slice_subrange(blob, SALT_LEN, HEADER_LEN);
    let body = slice_subrange(blob, HEADER_LEN, blob.len());
    let key = derive_key(password, salt);
    match aes256gcm_open(&key, nonce, body) {
        Some(p) => Ok(p),
        None => Err(
            AppError::DecryptionError {
                details: String::from_str("Decryption failed - wrong PASSWORD or corrupt ciphertext"),
            },
        ),
    }
}

/// Details reported when the `what` ciphertext (of `len` bytes) cannot be
/// decrypted with a password of `password_len` bytes.
pub open spec fn payload_failure_details(
    what: Seq<char>,
    len: nat,
    password_len: nat,
    fault: DecryptFault,
) -> Seq<char> {
    "Failed to decrypt "@ + what + " (size: "@ + decimal(len) + " bytes, password length: "@
        + decimal(password_len) + "): "@ + fault_message(fault, len)
}

/// Prefix of the details reported when the decrypted caption is not UTF-8.
pub open spec fn encoding_failure_prefix() -> Seq<char> {
    "Decrypted text is not valid UTF-8: "@
}

/// The error reported when the decrypted caption is not UTF-8, given the
/// reason std's UTF-8 check gave.
pub fn encoding_error(reason: &str) -> (e: AppError)
    ensures
        e matches AppError::EncodingError { details } && details@ == encoding_failure_prefix()
            + reason@,
{
    let mut details = String::from_str("Decrypted text is not valid UTF-8: ");
    details.append(reason);
    AppError::EncodingError { details }
}

fn payload_failure(what: &str, blob: &[u8], password: &str, inner: AppError) -> (e: AppError)
    requires
        inner matches AppError::InvalidCiphertext { details } ==> details@ == truncated_details(
            blob@.len(),
        ),
        inner matches AppError::DecryptionError { details } ==> details@ == rejected_details(),
        inner is InvalidCiphertext || inner is DecryptionError,
    ensures
        e matches AppError::DecryptionError { details } && details@ == payload_failure_details(
            what@,
            blob@.len(),
            password.len() as nat,
            if inner is InvalidCiphertext {
                DecryptFault::Truncated
            } else {
                DecryptFault::Rejected
            },
        ),
{
    let mut details = String::from_str("Failed to decrypt ");
    details.append(what);
    details.append(" (size: ");
    details.append(decimal_string(blob.len()).as_str());
    details.append(" bytes, password length: ");
    details.append(decimal_string(password.len()).as_str());
    details.append("): ");
    details.append(inner.user_message().as_str());
    AppError::DecryptionError { details }
}

/// Decrypts a fetched image and caption with `password`; the caption must be
/// UTF-8. This is the computing part of saving fetched content: the caller
/// supplies the password and persists what comes back.
pub fn decrypt_payload(img_blob: &[u8], txt_blob: &[u8], password: &str) -> (r: Result<
    (Vec<u8>, String),
    AppError,
>)
    ensures
        decrypt_outcome(img_blob@, password@) matches Err(f) ==> (r matches Err(
            AppError::DecryptionError { details },
        ) && details@ == payload_failure_details(
            "image"@,
            img_blob@.len(),
            password.len() as nat,
            f,
        )),
        forall|mi: Seq<u8>, mt: Seq<u8>|
            mi.len() <= AES_GCM_MAX_PLAINTEXT && mt.len() <= AES_GCM_MAX_PLAINTEXT && #[trigger] seals(
                img_blob@,
                password@,
                mi,
            ) && #[trigger] seals(txt_blob@, password@, mt) && valid_utf8(mt) ==> (r matches Ok(
                (i, t),
            ) && i@ == mi && encode_utf8(t@) == mt),
        decrypt_outcome(img_blob@, password@) is Ok ==> (decrypt_outcome(txt_blob@, password@) matches Err(
            f,
        ) ==> (r matches Err(AppError::DecryptionError { details }) && details@
            == payload_failure_details("text"@, txt_blob@.len(), password.len() as nat, f))),
        decrypt_outcome(img_blob@, password@) is Ok ==> (decrypt_outcome(txt_blob@, password@) matches Ok(
            t,
        ) ==> (valid_utf8(t) <==> r is Ok)),
        decrypt_outcome(img_blob@, password@) is Ok ==> (decrypt_outcome(txt_blob@, password@) matches Ok(
            t,
        ) ==> (!valid_utf8(t) ==> (r matches Err(AppError::EncodingError { details }) && details@
            == encoding_failure_prefix() + utf8_error_text(t)))),
        r matches Ok((img, text)) ==> decrypt_outcome(img_blob@, password@) == Ok::<
            Seq<u8>,
            DecryptFault,
        >(img@) && decrypt_outcome(txt_blob@, password@) == Ok::<Seq<u8>, DecryptFault>(
            encode_utf8(text@),
        ),
{
    let img_bytes = match decrypt(img_blob, password) {
        Ok(v) => v,
        Err(e) => {
            proof {
                reveal_strlit("image");
            }
            return Err(payload_failure("image", img_blob, password, e));
        },
    };
    let txt_bytes = match decrypt(txt_blob, password) {
        Ok(v) => v,
        Err(e) => {
            proof {
                reveal_strlit("text");
            }
            return Err(payload_failure("text", txt_blob, password, e));
        },
    };
    let text = match string_from_utf8(txt_bytes) {
        Ok(s) => s,
        Err(reason) => {
            return Err(encoding_error(&reason));
        },
    };
    Ok((img_bytes, text))
}

/// Which decrypted files need writing: only those whose new content differs
/// from what is stored.
#[derive(Clone, Copy, Debug, PartialEq, Eq, Structural)]
pub struct SavePlan {
    pub write_image: bool,
    pub write_text: bool,
}

impl SavePlan {
    /// Whether the content is new: the image or the caption changed.
    pub fn is_new(&self) -> (b: bool)
        ensures
            b == (self.write_image || self.write_text),
    {
        self.write_image || self.write_text
    }
}

/// Compares freshly decrypted image and caption bytes with what is stored
/// (empty when nothing is stored yet).
pub fn plan_save(stored_img: &[u8], stored_txt: &[u8], img: &[u8], txt: &[u8]) -> (p: SavePlan)
    ensures
        p.write_image == (stored_img@ != img@),
        p.write_text == (stored_txt@ != txt@),
{
    SavePlan { write_image: !bytes_equal(stored_img, img), write_text: !bytes_equal(stored_txt, txt) }
}

/// The eight-byte PNG signature.
pub open spec fn png_signature() -> Seq<u8> {
    seq![0x89u8, 0x50u8, 0x4eu8, 0x47u8, 0x0du8, 0x0au8, 0x1au8, 0x0au8]
}

/// The big-endian 32-bit value of the four bytes of `b` from `i`.
pub open spec fn be_u32_at(b: Seq<u8>, i: int) -> int {
    b[i] * 16777216 + b[i + 1] * 65536 + b[i + 2] * 256 + b[i + 3]
}

/// Width and height of a PNG, read from the IHDR chunk that follows the
/// signature, when the signature matches, the header is complete and both
/// dimensions are positive.
pub open spec fn png_size(bytes: Seq<u8>) -> Option<(u32, u32)> {
    if bytes.len() < 24 || bytes.subrange(0, 8) != png_signature() {
        None
    } else if be_u32_at(bytes, 16) > 0 && be_u32_at(bytes, 20) > 0 {
        Some((be_u32_at(bytes, 16) as u32, be_u32_at(bytes, 20) as u32))
    } else {
        None
    }
}

/// The big-endian bytes of `v`.
pub open spec fn be_bytes(v: u32) -> Seq<u8> {
    seq![
        (v / 16777216) as u8,
        ((v / 65536) % 256) as u8,
        ((v / 256) % 256) as u8,
        (v % 256) as u8,
    ]
}

proof fn lemma_be_bytes_value(v: u32)
    ensures
        be_u32_at(be_bytes(v), 0) == v,
{
    let b = be_bytes(v);
    assert(b[0] == v / 16777216);
    assert(b[1] == (v / 65536) % 256);
    assert(b[2] == (v / 256) % 256);
    assert(b[3] == v % 256);
    assert((v / 16777216) * 16777216 + ((v / 65536) % 256) * 65536 + ((v / 256) % 256) * 256 + v % 256
        == v) by (nonlinear_arith);
}

/// A PNG whose IHDR chunk holds the big-endian encodings of a positive width
/// and height is sized by exactly that width and height, whatever the rest
/// of the file holds.
pub proof fn lemma_png_size_reads_ihdr(bytes: Seq<u8>, width: u32, height: u32)
    requires
        bytes.len() >= 24,
        bytes.subrange(0, 8) == png_signature(),
        bytes.subrange(16, 20) == be_bytes(width),
        bytes.subrange(20, 24) == be_bytes(height),
        width > 0,
        height > 0,
    ensures
        png_size(bytes) == Some((width, height)),
{
    lemma_be_bytes_value(width);
    lemma_be_bytes_value(height);
    assert(be_u32_at(bytes, 16) == be_u32_at(be_bytes(width), 0)) by {
        assert(bytes[16] == bytes.subrange(16, 20)[0]);
        assert(bytes[17] == bytes.subrange(16, 20)[1]);
        assert(bytes[18] == bytes.subrange(16, 20)[2]);
        assert(bytes[19] == bytes.subrange(16, 20)[3]);
    }
    assert(be_u32_at(bytes, 20) == be_u32_at(be_bytes(height), 0)) by {
        assert(bytes[20] == bytes.subrange(20, 24)[0]);
        assert(bytes[21] == bytes.subrange(20, 24)[1]);
        assert(bytes[22] == bytes.subrange(20, 24)[2]);
        assert(bytes[23] == bytes.subrange(20, 24)[3]);
    }
}

fn be_u32_from(bytes: &[u8], i: usize) -> (v: u32)
    requires
        i + 4 <= bytes@.len(),
    ensures
        v == be_u32_at(bytes@, i as int),
{
    (bytes[i] as u32) * 16777216 + (bytes[i + 1] as u32) * 65536 + (bytes[i + 2] as u32) * 256
        + (bytes[i + 3] as u32)
}

/// Reads the image dimensions from the IHDR chunk of an in-memory PNG,
/// without decoding it.
pub fn png_pixel_size(bytes: &[u8]) -> (r: Option<(u32, u32)>)
    ensures
        r == png_size(bytes@),
{
    if bytes.len() < 24 {
        return None;
    }
    if !(bytes[0] == 0x89 && bytes[1] == 0x50 && bytes[2] == 0x4e && bytes[3] == 0x47 && bytes[4]
        == 0x0d && bytes[5] == 0x0a && bytes[6] == 0x1a && bytes[7] == 0x0a) {
        assert(bytes@.subrange(0, 8) != png_signature()) by {
            if bytes@.subrange(0, 8) == png_signature() {
                assert(bytes@.subrange(0, 8)[0] == bytes@[0]);
            }
        }
        return None;
    }
    assert(bytes@.subrange(0, 8) =~= png_signature());
    let w: u32 = be_u32_from(bytes, 16);
    let h: u32 = be_u32_from(bytes, 20);
    if w > 0 && h > 0 {
        Some((w, h))
    } else {
        None
    }
}

/// Builds [`Content`] from decrypted image bytes and caption. The image size
/// comes from the PNG header; anything that is not a readable PNG is sized
/// 256 x 256.
pub fn content_from_plaintext(img_plain: &[u8], text: String) -> (c: Content)
    ensures
        c.image_handle matches ImageHandle::Bytes(b) && b@ == img_plain@,
        c.image_size == (match png_size(img_plain@) {
            Some(s) => s,
            None => (256u32, 256u32),
        }),
        c.text == text,
{
    let image_size: (u32, u32) = match png_pixel_size(img_plain) {
        Some(s) => s,
        None => (256, 256),
    };
    Content::new(ImageHandle::from_bytes(slice_to_vec(img_plain)), image_size, text)
}

} // verus!
