//! A scheduled, one-way encrypted content drop: ciphertext framing and
//! authenticated decryption, PNG header sizing, path layout, error reporting
//! and the GUI's state, each stated and proved.

pub mod app;
pub mod config;
pub mod content;
pub mod encryption;
pub mod error;
pub mod primitives;
pub mod text;
