//! The GUI's state and the decisions the program makes around it: which mode
//! the command line asks for, how a failed load is reported, and the text the
//! error screen and the usage message show.

use vstd::prelude::*;
use crate::content::{Content, REMOTE_IMG_URL};
use crate::error::{texts, trace_text, AppError};
use crate::text::{contains_text, decimal, decimal_string, text_contains};

verus! {

/// Window title.
pub const TITLE: &'static str = "kayleeping";

/// Exit status when the command line has the wrong number of arguments.
pub const USAGE_EXIT_CODE: i32 = 64;

/// What the GUI shows: decrypted content, or the error that prevented it.
#[derive(Clone, Debug)]
pub enum AppState {
    /// Successfully loaded and decrypted content.
    Content(Content),
    /// The error that occurred while loading or decrypting.
    Error(AppError),
}

/// The GUI's state: window title and what to show.
#[derive(Debug)]
pub struct MyApp {
    pub title: String,
    pub state: AppState,
}

impl MyApp {
    /// State showing decrypted content under the plain title.
    pub fn new(content: Content) -> (app: MyApp)
        ensures
            app.title@ == TITLE@,
            app.state == AppState::Content(content),
    {
        MyApp { title: String::from_str(TITLE), state: AppState::Content(content) }
    }

    /// State showing an error, under the title with `" - Error"` appended.
    pub fn new_with_error(error: AppError) -> (app: MyApp)
        ensures
            app.title@ == TITLE@ + " - Error"@,
            app.state == AppState::Error(error),
    {
        let mut title = String::from_str(TITLE);
        title.append(" - Error");
        MyApp { title, state: AppState::Error(error) }
    }

    /// The GUI is static: messages change nothing.
    pub fn update(&mut self, _message: ())
        ensures
            *final(self) == *old(self),
    {
    }
}

/// `items` numbered from 1, as the error screen lists recovery suggestions:
/// `"1. first"`, `"2. second"`, ...
pub open spec fn numbered_text(items: Seq<Seq<char>>) -> Seq<Seq<char>> {
    Seq::new(items.len(), |i: int| decimal((i + 1) as nat) + ". "@ + items[i])
}

/// Numbers `items` from 1 for display.
pub fn numbered_lines(items: &Vec<String>) -> (lines: Vec<String>)
    ensures
        texts(lines@) == numbered_text(texts(items@)),
{
    let n: usize = items.len();
    let mut lines: Vec<String> = Vec::new();
    let mut i: usize = 0;
    while i < n
        invariant
            n == items@.len(),
            i <= n,
            lines@.len() == i,
            forall|j: int|
                0 <= j < i ==> #[trigger] lines@[j]@ == decimal((j + 1) as nat) + ". "@ + items@[j]@,
        decreases n - i,
    {
        let mut line = decimal_string(i + 1);
        line.append(". ");
        line.append(items[i].as_str());
        lines.push(line);
        i = i + 1;
    }
    assert(texts(lines@) =~= numbered_text(texts(items@)));
    lines
}

/// The usage message for the program called `bin`.
pub open spec fn usage_text(bin: Seq<char>) -> Seq<char> {
    "Usage:\n  "@ + bin + "\n      Run the GUI (remote fetch/decrypt gates apply).\n\n  "@ + bin
        + " <IMAGE_PATH> <TEXT>\n      Read the image from disk and encrypt it with TEXT; write ciphertext to bundled paths (requires PASSWORD in the environment or a `.env` file).\n"@
}

/// Builds the usage message printed when the command line has the wrong
/// number of arguments.
pub fn encrypt_usage(bin: &str) -> (s: String)
    ensures
        s@ == usage_text(bin@),
{
    let mut s = String::from_str("Usage:\n  ");
    s.append(bin);
    s.append("\n      Run the GUI (remote fetch/decrypt gates apply).\n\n  ");
    s.append(bin);
    s.append(
        " <IMAGE_PATH> <TEXT>\n      Read the image from disk and encrypt it with TEXT; write ciphertext to bundled paths (requires PASSWORD in the environment or a `.env` file).\n",
    );
    s
}

/// The program's name as the usage message shows it: the first argument, or
/// `"kayleeping"` when there is none.
pub fn program_name(args: &Vec<String>) -> (name: String)
    ensures
        args@.len() > 0 ==> name@ == args@[0]@,
        args@.len() == 0 ==> name@ == "kayleeping"@,
{
    if args.len() > 0 {
        args[0].clone()
    } else {
        String::from_str("kayleeping")
    }
}

/// What the command line asks for.
#[derive(Clone, Copy, Debug, PartialEq, Eq, Structural)]
pub enum Command {
    /// No arguments: fetch, decrypt and show content.
    Gui,
    /// An image path and a caption: encrypt them.
    Encrypt,
    /// Anything else: print the usage message and exit with status 64.
    Usage,
}

/// Chooses the mode from the number of command-line arguments, the program
/// name included.
pub fn command_for(arg_count: usize) -> (c: Command)
    ensures
        c == (if arg_count == 1 {
            Command::Gui
        } else if arg_count == 3 {
            Command::Encrypt
        } else {
            Command::Usage
        }),
{
    if arg_count == 1 {
        Command::Gui
    } else if arg_count == 3 {
        Command::Encrypt
    } else {
        Command::Usage
    }
}

/// The message of a failed load points at decryption.
pub open spec fn mentions_decryption(message: Seq<char>) -> bool {
    contains_text(message, "PASSWORD"@) || contains_text(message, "decrypt"@)
}

/// The message of a failed load points at the network.
pub open spec fn mentions_network(message: Seq<char>) -> bool {
    contains_text(message, "network"@) || contains_text(message, "fetch"@) || contains_text(
        message,
        "request"@,
    )
}

/// The message of a failed load points at the data format.
pub open spec fn mentions_format(message: Seq<char>) -> bool {
    contains_text(message, "truncated"@) || contains_text(message, "invalid"@)
}

/// Turns a failed load of the remote content into the error the GUI shows,
/// by what its message mentions. `message` is the failure's text and
/// `causes` the texts of its chain of causes, outermost first.
pub fn classify_load_failure(message: &str, causes: &Vec<String>) -> (e: AppError)
    ensures
        mentions_decryption(message@) ==> (e matches AppError::DecryptionError { details }
            && details@ == message@),
        !mentions_decryption(message@) && mentions_network(message@) ==> (e matches AppError::NetworkError {
            url,
            details,
        } && url@ == REMOTE_IMG_URL@ && details@ == message@),
        !mentions_decryption(message@) && !mentions_network(message@) && mentions_format(message@)
            ==> (e matches AppError::InvalidCiphertext { details } && details@ == message@),
        !mentions_decryption(message@) && !mentions_network(message@) && !mentions_format(message@)
            ==> (e matches AppError::Generic { message: m, trace } && m@ == "Failed to load content"@
            + ": "@ + message@ && (trace is None <==> causes@.len() == 0) && (trace matches Some(t)
            ==> t@ == trace_text(texts(causes@)))),
{
    if text_contains(message, "PASSWORD") || text_contains(message, "decrypt") {
        AppError::DecryptionError { details: String::from_str(message) }
    } else if text_contains(message, "network") || text_contains(message, "fetch")
        || text_contains(message, "request") {
        AppError::NetworkError {
            url: String::from_str(REMOTE_IMG_URL),
            details: String::from_str(message),
        }
    } else if text_contains(message, "truncated") || text_contains(message, "invalid") {
        AppError::InvalidCiphertext { details: String::from_str(message) }
    } else {
        AppError::from_error(message, causes, "Failed to load content")
    }
}

/// Turns a failure to load the password into the error the GUI shows: the
/// password-missing error when the PASSWORD variable could not be read
/// (`missing`), otherwise a generic error carrying the failure's text and
/// causes.
pub fn password_load_failure(missing: bool, message: &str, causes: &Vec<String>) -> (e: AppError)
    ensures
        missing ==> e is PasswordMissing,
        !missing ==> (e matches AppError::Generic { message: m, trace } && m@
            == "Failed to load PASSWORD"@ + ": "@ + message@ && (trace is None <==> causes@.len()
            == 0) && (trace matches Some(t) ==> t@ == trace_text(texts(causes@)))),
{
    if missing {
        AppError::PasswordMissing
    } else {
        AppError::from_error(message, causes, "Failed to load PASSWORD")
    }
}

} // verus!
