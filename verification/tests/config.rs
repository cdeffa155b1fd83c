use kayleeping::config::{
    app_dir_under, decrypted_img_path, decrypted_txt_path, encrypted_img_path, encrypted_txt_path,
    join_path,
};
use kayleeping::text::{decimal_string, text_contains};

#[test]
fn encrypted_paths_are_fixed() {
    assert_eq!(encrypted_img_path(), "data/source/img.enc");
    assert_eq!(encrypted_txt_path(), "data/source/txt.enc");
}

#[test]
fn decrypted_paths_live_in_app_dir() {
    assert_eq!(decrypted_img_path("/d/kayleeping"), "/d/kayleeping/img.png");
    assert_eq!(decrypted_txt_path("/d/kayleeping/"), "/d/kayleeping/txt.out");
    assert_eq!(decrypted_txt_path(""), "txt.out");
    assert_eq!(app_dir_under("/home/a/.local/share"), "/home/a/.local/share/kayleeping");
}

#[test]
fn join_path_adds_one_separator() {
    assert_eq!(join_path("a", "b"), "a/b");
    assert_eq!(join_path("a/", "b"), "a/b");
    assert_eq!(join_path("", "b"), "b");
    assert_eq!(join_path("a", "/abs"), "/abs");
    assert_eq!(join_path("a", ""), "a/");
}

#[test]
fn decimal_rendering() {
    assert_eq!(decimal_string(0), "0");
    assert_eq!(decimal_string(7), "7");
    assert_eq!(decimal_string(28), "28");
    assert_eq!(decimal_string(100200), "100200");
    assert_eq!(decimal_string(usize::MAX), usize::MAX.to_string());
}

#[test]
fn substring_search() {
    assert!(text_contains("abc", ""));
    assert!(text_contains("abc", "bc"));
    assert!(!text_contains("abc", "cb"));
    assert!(!text_contains("ab", "abc"));
    assert!(text_contains("é-network", "network"));
}

#[test]
fn app_directory_is_named_kayleeping() {
    assert_eq!(kayleeping::config::APP_DIR_NAME, "kayleeping");
    assert_eq!(app_dir_under("/Users/a/Library/Application Support"), "/Users/a/Library/Application Support/kayleeping");
}
