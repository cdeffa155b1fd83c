//! Remote ciphertext locations and the [`Content`] bundle shown by the GUI.

use vstd::prelude::*;
use vstd::slice::slice_to_vec;

verus! {

/// Where the encrypted image is published.
pub const REMOTE_IMG_URL: &'static str =
    "https://raw.githubusercontent.com/CFdefense/kayleedrop/main/data/source/img.enc";

/// Where the encrypted caption is published (`txt.enc`).
pub const REMOTE_TEXT_URL: &'static str =
    "https://raw.githubusercontent.com/CFdefense/kayleedrop/main/data/source/txt.enc";

/// The image to render: encoded bytes (typically a PNG) to be decoded by the
/// GUI, or raw RGBA pixels of a given size.
#[derive(Debug)]
pub enum ImageHandle {
    Bytes(Vec<u8>),
    Rgba { width: u32, height: u32, pixels: Vec<u8> },
}

impl ImageHandle {
    /// A handle over encoded image bytes.
    pub fn from_bytes(bytes: Vec<u8>) -> (h: ImageHandle)
        ensures
            h == ImageHandle::Bytes(bytes),
    {
        ImageHandle::Bytes(bytes)
    }

    /// A handle over `width` x `height` RGBA pixels.
    pub fn from_rgba(width: u32, height: u32, pixels: Vec<u8>) -> (h: ImageHandle)
        ensures
            h == (ImageHandle::Rgba { width, height, pixels }),
    {
        ImageHandle::Rgba { width, height, pixels }
    }
}

/// `a` and `b` describe the same image.
pub open spec fn same_image(a: ImageHandle, b: ImageHandle) -> bool {
    match (a, b) {
        (ImageHandle::Bytes(x), ImageHandle::Bytes(y)) => x@ == y@,
        (
            ImageHandle::Rgba { width: w1, height: h1, pixels: p1 },
            ImageHandle::Rgba { width: w2, height: h2, pixels: p2 },
        ) => w1 == w2 && h1 == h2 && p1@ == p2@,
        _ => false,
    }
}

impl Clone for ImageHandle {
    fn clone(&self) -> (h: Self)
        ensures
            same_image(h, *self),
    {
        match self {
            ImageHandle::Bytes(b) => ImageHandle::Bytes(slice_to_vec(b.as_slice())),
            ImageHandle::Rgba { width, height, pixels } => ImageHandle::Rgba {
                width: *width,
                height: *height,
                pixels: slice_to_vec(pixels.as_slice()),
            },
        }
    }
}

/// Decrypted image, its intrinsic size (when known) and its caption.
#[derive(Debug)]
pub struct Content {
    pub image_handle: ImageHandle,
    pub image_size: (u32, u32),
    pub text: String,
}

impl Clone for Content {
    fn clone(&self) -> (c: Self)
        ensures
            same_image(c.image_handle, self.image_handle),
            c.image_size == self.image_size,
            c.text@ == self.text@,
    {
        Content {
            image_handle: self.image_handle.clone(),
            image_size: self.image_size,
            text: self.text.clone(),
        }
    }
}

impl Content {
    /// Wraps decrypted assets for rendering and window sizing.
    pub fn new(image_handle: ImageHandle, image_size: (u32, u32), text: String) -> (c: Content)
        ensures
            c.image_handle == image_handle,
            c.image_size == image_size,
            c.text == text,
    {
        Content { image_handle, image_size, text }
    }
}

impl Default for Content {
    /// A single transparent pixel and an empty caption.
    fn default() -> (c: Content)
        ensures
            c.image_handle matches ImageHandle::Rgba { width, height, pixels }
                && width == 1 && height == 1 && pixels@ == seq![0u8, 0u8, 0u8, 0u8],
            c.image_size == (1u32, 1u32),
            c.text@ == Seq::<char>::empty(),
    {
        let pixels: Vec<u8> = vec![0u8, 0u8, 0u8, 0u8];
        Content::new(ImageHandle::from_rgba(1, 1, pixels), (1, 1), String::new())
    }
}

/// Refuses a fetched pair of ciphertexts when either body is empty.
pub fn check_payloads(img_body: &[u8], txt_body: &[u8]) -> (r: Result<(), String>)
    ensures
        r is Ok <==> (img_body@.len() > 0 && txt_body@.len() > 0),
        r matches Err(m) ==> m@ == "remote returned empty encrypted payload"@,
{
    if img_body.len() == 0 || txt_body.len() == 0 {
        Err(String::from_str("remote returned empty encrypted payload"))
    } else {
        Ok(())
    }
}

} // verus!
