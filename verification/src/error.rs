//! Application errors: what each one tells the user, what the user can do
//! about it, and how an error with a chain of causes is summarised.

use vstd::prelude::*;
use crate::config::{app_dir_under, joined_path, APP_DIR_NAME};
use crate::text::contains_text;

verus! {

/// Application-specific error types with user-facing messages and recovery suggestions.
#[derive(Debug, Clone)]
pub enum AppError {
    /// The PASSWORD setting is not available.
    PasswordMissing,
    /// Remote content could not be fetched.
    NetworkError { url: String, details: String },
    /// Content could not be decrypted (wrong password or corrupt data).
    DecryptionError { details: String },
    /// A file could not be read or written.
    FileSystemError { path: String, details: String },
    /// The encrypted data is not in the expected format.
    InvalidCiphertext { details: String },
    /// Decrypted text is not valid UTF-8.
    EncodingError { details: String },
    /// Any other error, with an optional chain of causes.
    Generic { message: String, trace: Option<String> },
}

/// The text shown to the user for `e`.
pub open spec fn user_message_text(e: AppError) -> Seq<char> {
    match e {
        AppError::PasswordMissing =>
            "Password Not Set\n\nThe PASSWORD environment variable is required but not found."@,
        AppError::NetworkError { url, details } =>
            "Network Error\n\nFailed to fetch content from:\n"@ + url@ + "\n\nDetails: "@ + details@,
        AppError::DecryptionError { details } =>
            "Decryption Failed\n\nCould not decrypt the content. This usually means the password is incorrect or the data is corrupted.\n\nDetails: "@
                + details@,
        AppError::FileSystemError { path, details } =>
            "File System Error\n\nFailed to access:\n"@ + path@ + "\n\nDetails: "@ + details@,
        AppError::InvalidCiphertext { details } =>
            "Invalid Data Format\n\nThe encrypted data appears to be corrupted or in an unexpected format.\n\nDetails: "@
                + details@,
        AppError::EncodingError { details } =>
            "Text Encoding Error\n\nThe decrypted text contains invalid UTF-8 characters.\n\nDetails: "@
                + details@,
        AppError::Generic { message, trace } => match trace {
            Some(t) => "Error\n\n"@ + message@ + "\n\nTrace:\n"@ + t@,
            None => "Error\n\n"@ + message@,
        },
    }
}

/// The line that names the application's data directory, given the
/// platform's local data directory when there is one (joined with `/`).
pub open spec fn data_dir_line(local_data_dir: Option<Seq<char>>) -> Seq<char> {
    "App data directory: "@ + match local_data_dir {
        Some(d) => joined_path(d, APP_DIR_NAME@),
        None =>
            "~/.local/share/kayleeping (Linux) or ~/Library/Application Support/kayleeping (macOS)"@,
    }
}

/// The recovery suggestions for `e`, given the platform's local data directory.
pub open spec fn recovery_text(e: AppError, local_data_dir: Option<Seq<char>>) -> Seq<Seq<char>> {
    match e {
        AppError::PasswordMissing => seq![
            "Set the PASSWORD environment variable"@,
            "Create a .env file in your app data directory with PASSWORD=your_password"@,
            data_dir_line(local_data_dir),
        ],
        AppError::NetworkError { .. } => seq![
            "Check your internet connection"@,
            "Verify the remote URLs are accessible"@,
            "Try again in a few moments"@,
        ],
        AppError::DecryptionError { .. } => seq![
            "Verify your PASSWORD is correct"@,
            "Check if the encrypted files have been updated"@,
            "Ensure the data hasn't been corrupted during transfer"@,
        ],
        AppError::FileSystemError { .. } => seq![
            "Check file permissions"@,
            "Ensure the directory exists and is writable"@,
            "Verify you have sufficient disk space"@,
        ],
        AppError::InvalidCiphertext { .. } => seq![
            "Re-download the encrypted files"@,
            "Verify the source URLs are correct"@,
            "Check if the encryption format has changed"@,
        ],
        AppError::EncodingError { .. } => seq![
            "The encrypted text may be corrupted"@,
            "Try re-encrypting the content with valid UTF-8 text"@,
        ],
        AppError::Generic { .. } => seq![
            "Check the error details above"@,
            "Try restarting the application"@,
        ],
    }
}

/// Each error gets at least two suggestions, and the errors that a missing or
/// wrong password causes lead with a suggestion about the PASSWORD.
pub proof fn lemma_password_errors_suggest_password(e: AppError, local_data_dir: Option<Seq<char>>)
    ensures
        recovery_text(e, local_data_dir).len() >= 2,
        e is PasswordMissing || e is DecryptionError ==> contains_text(
            recovery_text(e, local_data_dir)[0],
            "PASSWORD"@,
        ),
{
    reveal_strlit("PASSWORD");
    reveal_strlit("Set the PASSWORD environment variable");
    reveal_strlit("Verify your PASSWORD is correct");
    if e is PasswordMissing {
        let first = "Set the PASSWORD environment variable"@;
        assert(first.subrange(8, 8 + "PASSWORD"@.len() as int) =~= "PASSWORD"@);
        assert(contains_text(first, "PASSWORD"@));
        assert(recovery_text(e, local_data_dir)[0] == first);
    }
    if e is DecryptionError {
        let first = "Verify your PASSWORD is correct"@;
        assert(first.subrange(12, 12 + "PASSWORD"@.len() as int) =~= "PASSWORD"@);
        assert(contains_text(first, "PASSWORD"@));
        assert(recovery_text(e, local_data_dir)[0] == first);
    }
}

/// The advice for each kind of error, whatever the platform's directory.
pub proof fn lemma_recovery_advice_per_error(e: AppError, local_data_dir: Option<Seq<char>>)
    ensures
        e is DecryptionError ==> recovery_text(e, local_data_dir) == seq![
            "Verify your PASSWORD is correct"@,
            "Check if the encrypted files have been updated"@,
            "Ensure the data hasn't been corrupted during transfer"@,
        ],
        e is InvalidCiphertext ==> recovery_text(e, local_data_dir) == seq![
            "Re-download the encrypted files"@,
            "Verify the source URLs are correct"@,
            "Check if the encryption format has changed"@,
        ],
        e is NetworkError ==> recovery_text(e, local_data_dir) == seq![
            "Check your internet connection"@,
            "Verify the remote URLs are accessible"@,
            "Try again in a few moments"@,
        ],
        e is FileSystemError ==> recovery_text(e, local_data_dir) == seq![
            "Check file permissions"@,
            "Ensure the directory exists and is writable"@,
            "Verify you have sufficient disk space"@,
        ],
        e is EncodingError ==> recovery_text(e, local_data_dir) == seq![
            "The encrypted text may be corrupted"@,
            "Try re-encrypting the content with valid UTF-8 text"@,
        ],
        e is Generic ==> recovery_text(e, local_data_dir) == seq![
            "Check the error details above"@,
            "Try restarting the application"@,
        ],
        e is PasswordMissing ==> recovery_text(e, local_data_dir) == seq![
            "Set the PASSWORD environment variable"@,
            "Create a .env file in your app data directory with PASSWORD=your_password"@,
            "App data directory: "@ + match local_data_dir {
                Some(d) => joined_path(d, "kayleeping"@),
                None =>
                    "~/.local/share/kayleeping (Linux) or ~/Library/Application Support/kayleeping (macOS)"@,
            },
        ],
{
}

/// The views of a list of strings.
pub open spec fn texts(v: Seq<String>) -> Seq<Seq<char>> {
    v.map_values(|s: String| s@)
}

/// The trace built from the messages of an error's causes, outermost first:
/// one `"\nCaused by: "` line per cause.
pub open spec fn trace_text(causes: Seq<Seq<char>>) -> Seq<char>
    decreases causes.len(),
{
    if causes.len() == 0 {
        Seq::empty()
    } else {
        trace_text(causes.drop_last()) + "\nCaused by: "@ + causes.last()
    }
}

/// The platform's local data directory, as text.
///
/// Calls `dirs::data_local_dir` and renders the path with `Path::display`.
/// The answer depends on the platform and the environment, so nothing is
/// stated of it.
#[verifier::external_body]
fn local_data_dir() -> (dir: Option<String>) {
    match dirs::data_local_dir() {
        Some(p) => Some(p.display().to_string()),
        None => None,
    }
}

impl AppError {
    /// Returns the user-facing message for this error.
    pub fn user_message(&self) -> (s: String)
        ensures
            s@ == user_message_text(*self),
    {
        match self {
            AppError::PasswordMissing => String::from_str(
                "Password Not Set\n\nThe PASSWORD environment variable is required but not found.",
            ),
            AppError::NetworkError { url, details } => {
                let mut s = String::from_str("Network Error\n\nFailed to fetch content from:\n");
                s.append(url.as_str());
                s.append("\n\nDetails: ");
                s.append(details.as_str());
                s
            },
            AppError::DecryptionError { details } => {
                let mut s = String::from_str(
                    "Decryption Failed\n\nCould not decrypt the content. This usually means the password is incorrect or the data is corrupted.\n\nDetails: ",
                );
                s.append(details.as_str());
                s
            },
            AppError::FileSystemError { path, details } => {
                let mut s = String::from_str("File System Error\n\nFailed to access:\n");
                s.append(path.as_str());
                s.append("\n\nDetails: ");
                s.append(details.as_str());
                s
            },
            AppError::InvalidCiphertext { details } => {
                let mut s = String::from_str(
                    "Invalid Data Format\n\nThe encrypted data appears to be corrupted or in an unexpected format.\n\nDetails: ",
                );
                s.append(details.as_str());
                s
            },
            AppError::EncodingError { details } => {
                let mut s = String::from_str(
                    "Text Encoding Error\n\nThe decrypted text contains invalid UTF-8 characters.\n\nDetails: ",
                );
                s.append(details.as_str());
                s
            },
            AppError::Generic { message, trace } => {
                let mut s = String::from_str("Error\n\n");
                s.append(message.as_str());
                match trace {
                    Some(t) => {
                        s.append("\n\nTrace:\n");
                        s.append(t.as_str());
                    },
                    None => {},
                }
                s
            },
        }
    }

    /// Returns the recovery suggestions for this error, given the platform's
    /// local data directory (when the platform has one).
    pub fn recovery_suggestions_in(&self, local_data_dir: Option<String>) -> (v: Vec<String>)
        ensures
            texts(v@) == recovery_text(*self, match local_data_dir {
                Some(d) => Some(d@),
                None => None,
            }),
    {
        let v = match self {
            AppError::PasswordMissing => {
                let mut line = String::from_str("App data directory: ");
                match &local_data_dir {
                    Some(d) => {
                        let dir = app_dir_under(d.as_str());
                        line.append(dir.as_str());
                    },
                    None => {
                        line.append(
                            "~/.local/share/kayleeping (Linux) or ~/Library/Application Support/kayleeping (macOS)",
                        );
                    },
                }
                vec![
                    String::from_str("Set the PASSWORD environment variable"),
                    String::from_str(
                        "Create a .env file in your app data directory with PASSWORD=your_password",
                    ),
                    line,
                ]
            },
            AppError::NetworkError { .. } => vec![
                String::from_str("Check your internet connection"),
                String::from_str("Verify the remote URLs are accessible"),
                String::from_str("Try again in a few moments"),
            ],
            AppError::DecryptionError { .. } => vec![
                String::from_str("Verify your PASSWORD is correct"),
                String::from_str("Check if the encrypted files have been updated"),
                String::from_str("Ensure the data hasn't been corrupted during transfer"),
            ],
            AppError::FileSystemError { .. } => vec![
                String::from_str("Check file permissions"),
                String::from_str("Ensure the directory exists and is writable"),
                String::from_str("Verify you have sufficient disk space"),
            ],
            AppError::InvalidCiphertext { .. } => vec![
                String::from_str("Re-download the encrypted files"),
                String::from_str("Verify the source URLs are correct"),
                String::from_str("Check if the encryption format has changed"),
            ],
            AppError::EncodingError { .. } => vec![
                String::from_str("The encrypted text may be corrupted"),
                String::from_str("Try re-encrypting the content with valid UTF-8 text"),
            ],
            AppError::Generic { .. } => vec![
                String::from_str("Check the error details above"),
                String::from_str("Try restarting the application"),
            ],
        };
        assert(texts(v@) =~= recovery_text(*self, match local_data_dir {
            Some(d) => Some(d@),
            None => None,
        }));
        v
    }

    /// Returns the recovery suggestions for this error, naming the
    /// application's data directory under the platform's local data directory.
    pub fn recovery_suggestions(&self) -> (v: Vec<String>)
        ensures
            exists|d: Option<Seq<char>>| texts(v@) == #[trigger] recovery_text(*self, d),
    {
        let dir = local_data_dir();
        let v = self.recovery_suggestions_in(dir);
        v
    }

    /// Summarises an error whose message is `error` and whose causes, outermost
    /// first, have the messages `causes`, under the heading `context`.
    pub fn from_error(error: &str, causes: &Vec<String>, context: &str) -> (e: AppError)
        ensures
            e matches AppError::Generic { message, trace } && message@ == context@ + ": "@ + error@
                && (trace is None <==> causes@.len() == 0)
                && (trace matches Some(t) ==> t@ == trace_text(texts(causes@))),
    {
        let mut message = String::from_str(context);
        message.append(": ");
        message.append(error);
        let mut trace = String::new();
        let n: usize = causes.len();
        let mut i: usize = 0;
        while i < n
            invariant
                n == causes@.len(),
                i <= n,
                trace@ == trace_text(texts(causes@.subrange(0, i as int))),
            decreases n - i,
        {
            trace.append("\nCaused by: ");
            trace.append(causes[i].as_str());
            proof {
                let prefix = texts(causes@.subrange(0, i + 1));
                assert(prefix.drop_last() =~= texts(causes@.subrange(0, i as int)));
            }
            i = i + 1;
        }
        assert(causes@.subrange(0, n as int) =~= causes@);
        proof {
            reveal_strlit("\nCaused by: ");
            if n > 0 {
                assert(trace@.len() > 0);
            }
        }
        let t = if trace.as_str().is_empty() {
            None
        } else {
            Some(trace)
        };
        AppError::Generic { message, trace: t }
    }
}

} // verus!
