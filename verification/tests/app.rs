use kayleeping::app::{
    classify_load_failure, command_for, encrypt_usage, numbered_lines, password_load_failure,
    program_name, AppState, Command, MyApp, TITLE, USAGE_EXIT_CODE,
};
use kayleeping::content::{Content, REMOTE_IMG_URL};
use kayleeping::error::AppError;

#[test]
fn new_sets_title_constant() {
    let c = Content::default();
    let app = MyApp::new(c.clone());
    assert_eq!(app.title, TITLE);
    match &app.state {
        AppState::Content(content) => assert_eq!(content.text, c.text),
        _ => panic!("Expected Content state"),
    }
}

#[test]
fn new_with_error_sets_error_state() {
    let error = AppError::PasswordMissing;
    let app = MyApp::new_with_error(error.clone());
    assert!(app.title.contains("Error"));
    match &app.state {
        AppState::Error(_) => {},
        _ => panic!("Expected Error state"),
    }
}

#[test]
fn error_title_is_exact() {
    let app = MyApp::new_with_error(AppError::PasswordMissing);
    assert_eq!(app.title, "kayleeping - Error");
}

#[test]
fn update_changes_nothing() {
    let mut app = MyApp::new(Content::default());
    app.update(());
    assert_eq!(app.title, "kayleeping");
    assert!(matches!(app.state, AppState::Content(_)));
}

#[test]
fn numbered_lines_count_from_one() {
    let items: Vec<String> = (0..11).map(|i| format!("s{}", i)).collect();
    let lines = numbered_lines(&items);
    assert_eq!(lines.len(), 11);
    assert_eq!(lines[0], "1. s0");
    assert_eq!(lines[9], "10. s9");
    assert_eq!(lines[10], "11. s10");
    assert!(numbered_lines(&Vec::new()).is_empty());
}

#[test]
fn usage_message_names_program() {
    assert_eq!(
        encrypt_usage("kp"),
        "Usage:\n  kp\n      Run the GUI (remote fetch/decrypt gates apply).\n\n  kp <IMAGE_PATH> <TEXT>\n      Read the image from disk and encrypt it with TEXT; write ciphertext to bundled paths (requires PASSWORD in the environment or a `.env` file).\n"
    );
}

#[test]
fn program_name_defaults() {
    assert_eq!(program_name(&vec!["/bin/x".to_string(), "a".to_string()]), "/bin/x");
    assert_eq!(program_name(&Vec::new()), "kayleeping");
}

#[test]
fn command_routing_by_argument_count() {
    assert_eq!(command_for(1), Command::Gui);
    assert_eq!(command_for(3), Command::Encrypt);
    assert_eq!(command_for(0), Command::Usage);
    assert_eq!(command_for(2), Command::Usage);
    assert_eq!(command_for(4), Command::Usage);
    assert_eq!(USAGE_EXIT_CODE, 64);
}

#[test]
fn load_failure_mentioning_decryption() {
    match classify_load_failure("Decryption Failed\n\nCould not decrypt", &vec![]) {
        AppError::DecryptionError { details } => assert_eq!(details, "Decryption Failed\n\nCould not decrypt"),
        other => panic!("unexpected {:?}", other),
    }
    assert!(matches!(
        classify_load_failure("bad PASSWORD", &vec![]),
        AppError::DecryptionError { .. }
    ));
}

#[test]
fn load_failure_mentioning_network() {
    match classify_load_failure("error sending request for url", &vec![]) {
        AppError::NetworkError { url, details } => {
            assert_eq!(url, REMOTE_IMG_URL);
            assert_eq!(details, "error sending request for url");
        },
        other => panic!("unexpected {:?}", other),
    }
}

#[test]
fn load_failure_mentioning_format() {
    assert!(matches!(
        classify_load_failure("payload was truncated", &vec![]),
        AppError::InvalidCiphertext { .. }
    ));
    assert!(matches!(
        classify_load_failure("Truncated", &vec![]),
        AppError::Generic { .. }
    ));
}

#[test]
fn load_failure_otherwise_generic_with_trace() {
    match classify_load_failure("remote returned empty encrypted payload", &vec!["io".to_string(), "os".to_string()]) {
        AppError::Generic { message, trace } => {
            assert_eq!(message, "Failed to load content: remote returned empty encrypted payload");
            assert_eq!(trace, Some("\nCaused by: io\nCaused by: os".to_string()));
        },
        other => panic!("unexpected {:?}", other),
    }
}

#[test]
fn password_failure_is_generic() {
    match password_load_failure(false, "permission denied", &vec![]) {
        AppError::Generic { message, trace } => {
            assert_eq!(message, "Failed to load PASSWORD: permission denied");
            assert_eq!(trace, None);
        },
        other => panic!("unexpected {:?}", other),
    }
}

#[test]
fn missing_password_is_reported_as_such() {
    let e = password_load_failure(true, "environment variable not found", &vec![]);
    assert!(matches!(e, AppError::PasswordMissing));
    assert_eq!(
        e.user_message(),
        "Password Not Set\n\nThe PASSWORD environment variable is required but not found."
    );
}
