//! Where ciphertext and plaintext live.
//!
//! Paths are handled as `/`-separated text, joined as `Path::join` joins
//! them on Unix (Linux, macOS). On Windows `Path::join` would use `\`; these
//! functions always use `/`.

use vstd::prelude::*;
use crate::text::chars_of;

verus! {

/// Name of the application's directory inside the platform's local data directory.
pub const APP_DIR_NAME: &'static str = "kayleeping";

/// `name` joined onto `base` as `Path::join` does on Unix: an absolute
/// `name` replaces `base`; otherwise a separator is added unless `base` is
/// empty or already ends in one.
pub open spec fn joined_path(base: Seq<char>, name: Seq<char>) -> Seq<char> {
    if name.len() > 0 && name[0] == '/' {
        name
    } else if base.len() == 0 {
        name
    } else if base.last() == '/' {
        base + name
    } else {
        base + seq!['/'] + name
    }
}

/// Joins the path `name` onto `base`, with the Unix separator `/`.
pub fn join_path(base: &str, name: &str) -> (p: String)
    ensures
        p@ == joined_path(base@, name@),
{
    let name_chars = chars_of(name);
    if name_chars.len() > 0 && name_chars[0] == '/' {
        return String::from_str(name);
    }
    let chars = chars_of(base);
    let n: usize = chars.len();
    if n == 0 {
        String::from_str(name)
    } else if chars[n - 1] == '/' {
        let mut p = String::from_str(base);
        p.append(name);
        p
    } else {
        proof {
            reveal_strlit("/");
        }
        let mut p = String::from_str(base);
        p.append("/");
        p.append(name);
        p
    }
}

/// The application's data directory inside the platform's local data directory.
pub fn app_dir_under(local_data_dir: &str) -> (p: String)
    ensures
        p@ == joined_path(local_data_dir@, APP_DIR_NAME@),
{
    proof {
        reveal_strlit("kayleeping");
    }
    join_path(local_data_dir, APP_DIR_NAME)
}

/// The path the encrypted image is written to, relative to the working directory.
pub fn encrypted_img_path() -> (p: String)
    ensures
        p@ == "data/source/img.enc"@,
{
    String::from_str("data/source/img.enc")
}

/// The path the encrypted caption is written to, relative to the working directory.
pub fn encrypted_txt_path() -> (p: String)
    ensures
        p@ == "data/source/txt.enc"@,
{
    String::from_str("data/source/txt.enc")
}

/// The path of the decrypted image inside the application's data directory `app_dir`.
pub fn decrypted_img_path(app_dir: &str) -> (p: String)
    ensures
        p@ == joined_path(app_dir@, "img.png"@),
{
    proof {
        reveal_strlit("img.png");
    }
    join_path(app_dir, "img.png")
}

/// The path of the decrypted caption inside the application's data directory `app_dir`.
pub fn decrypted_txt_path(app_dir: &str) -> (p: String)
    ensures
        p@ == joined_path(app_dir@, "txt.out"@),
{
    proof {
        reveal_strlit("txt.out");
    }
    join_path(app_dir, "txt.out")
}

} // verus!
