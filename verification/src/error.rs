//! Error types: what went wrong inside the library, and what a command reports to its caller.

use vstd::prelude::*;

verus! {

/// Unified error type. The last three variants carry the text of a foreign error.
#[derive(Debug)]
pub enum AppError {
    Audio(String),
    Speech(String),
    Clipboard(String),
    Llm(String),
    Config(String),
    Hotkey(String),
    Crypto(String),
    Io(String),
    Json(String),
    Http(String),
}

impl AppError {
    /// The text that the variant carries.
    pub open spec fn detail(self) -> Seq<char> {
        match self {
            AppError::Audio(m) => m@,
            AppError::Speech(m) => m@,
            AppError::Clipboard(m) => m@,
            AppError::Llm(m) => m@,
            AppError::Config(m) => m@,
            AppError::Hotkey(m) => m@,
            AppError::Crypto(m) => m@,
            AppError::Io(m) => m@,
            AppError::Json(m) => m@,
            AppError::Http(m) => m@,
        }
    }

    /// What a rendered error begins with.
    pub open spec fn prefix(self) -> Seq<char> {
        match self {
            AppError::Audio(_) => "audio error: "@,
            AppError::Speech(_) => "speech recognition error: "@,
            AppError::Clipboard(_) => "clipboard error: "@,
            AppError::Llm(_) => "LLM error: "@,
            AppError::Config(_) => "config error: "@,
            AppError::Hotkey(_) => "hotkey error: "@,
            AppError::Crypto(_) => "crypto error: "@,
            AppError::Io(_) => "IO error: "@,
            AppError::Json(_) => "JSON error: "@,
            AppError::Http(_) => "HTTP error: "@,
        }
    }

    /// The category that a command reports for the variant.
    pub open spec fn category(self) -> Seq<char> {
        match self {
            AppError::Audio(_) => "AUDIO"@,
            AppError::Speech(_) => "SPEECH"@,
            AppError::Clipboard(_) => "CLIPBOARD"@,
            AppError::Llm(_) => "LLM"@,
            AppError::Config(_) => "CONFIG"@,
            AppError::Hotkey(_) => "HOTKEY"@,
            AppError::Crypto(_) => "CRYPTO"@,
            AppError::Io(_) => "IO"@,
            AppError::Json(_) => "JSON"@,
            AppError::Http(_) => "HTTP"@,
        }
    }

    /// The error as a line of text: the variant's prefix, then the text it carries.
    pub fn to_string(&self) -> (s: String)
        ensures
            s@ == self.prefix() + self.detail(),
    {
        match self {
            AppError::Audio(m) => "audio error: ".to_owned().concat(m.as_str()),
            AppError::Speech(m) => "speech recognition error: ".to_owned().concat(m.as_str()),
            AppError::Clipboard(m) => "clipboard error: ".to_owned().concat(m.as_str()),
            AppError::Llm(m) => "LLM error: ".to_owned().concat(m.as_str()),
            AppError::Config(m) => "config error: ".to_owned().concat(m.as_str()),
            AppError::Hotkey(m) => "hotkey error: ".to_owned().concat(m.as_str()),
            AppError::Crypto(m) => "crypto error: ".to_owned().concat(m.as_str()),
            AppError::Io(m) => "IO error: ".to_owned().concat(m.as_str()),
            AppError::Json(m) => "JSON error: ".to_owned().concat(m.as_str()),
            AppError::Http(m) => "HTTP error: ".to_owned().concat(m.as_str()),
        }
    }
}

/// `std::io::Error`, carried through to be rendered.
#[verifier::external_type_specification]
#[verifier::external_body]
pub struct ExIoError(std::io::Error);

/// `serde_json::Error`, carried through to be rendered.
#[verifier::external_type_specification]
#[verifier::external_body]
pub struct ExJsonError(serde_json::Error);

/// `reqwest::Error`, carried through to be rendered.
#[verifier::external_type_specification]
#[verifier::external_body]
pub struct ExHttpError(reqwest::Error);

impl vstd::std_specs::convert::FromSpecImpl<std::io::Error> for AppError {
    open spec fn obeys_from_spec() -> bool {
        false
    }

    open spec fn from_spec(e: std::io::Error) -> Self {
        arbitrary()
    }
}

impl From<std::io::Error> for AppError {
    /// The variant carries the rendered error.
    fn from(e: std::io::Error) -> (r: Self)
        ensures
            r matches AppError::Io(m) && vstd::string::to_string_from_display_ensures::<
                std::io::Error,
            >(&e, m),
    {
        AppError::Io(e.to_string())
    }
}

impl vstd::std_specs::convert::FromSpecImpl<serde_json::Error> for AppError {
    open spec fn obeys_from_spec() -> bool {
        false
    }

    open spec fn from_spec(e: serde_json::Error) -> Self {
        arbitrary()
    }
}

impl From<serde_json::Error> for AppError {
    /// The variant carries the rendered error.
    fn from(e: serde_json::Error) -> (r: Self)
        ensures
            r matches AppError::Json(m) && vstd::string::to_string_from_display_ensures::<
                serde_json::Error,
            >(&e, m),
    {
        AppError::Json(e.to_string())
    }
}

impl vstd::std_specs::convert::FromSpecImpl<reqwest::Error> for AppError {
    open spec fn obeys_from_spec() -> bool {
        false
    }

    open spec fn from_spec(e: reqwest::Error) -> Self {
        arbitrary()
    }
}

impl From<reqwest::Error> for AppError {
    /// The variant carries the rendered error.
    fn from(e: reqwest::Error) -> (r: Self)
        ensures
            r matches AppError::Http(m) && vstd::string::to_string_from_display_ensures::<
                reqwest::Error,
            >(&e, m),
    {
        AppError::Http(e.to_string())
    }
}

/// Error of a command, with a category that the caller can act on.
#[derive(Debug)]
pub struct CommandError {
    pub code: String,
    pub message: String,
}

impl CommandError {
    /// The error has this category and this message.
    pub open spec fn says(self, code: Seq<char>, message: Seq<char>) -> bool {
        self.code@ == code && self.message@ == message
    }

    /// Generic constructor for arbitrary error codes.
    pub fn new(code: &str, message: &str) -> (e: Self)
        ensures
            e.says(code@, message@),
    {
        CommandError { code: code.to_owned(), message: message.to_owned() }
    }

    /// State-machine violation (e.g. a review confirmed outside the reviewing state).
    pub fn state(message: &str) -> (e: Self)
        ensures
            e.says("STATE"@, message@),
    {
        Self::new("STATE", message)
    }

    /// Lock poisoning or contention; the message is the rendered cause.
    pub fn lock<E: std::fmt::Display>(e: E) -> (r: Self)
        ensures
            r.code@ == "LOCK"@,
            exists|s: String|
                #[trigger] vstd::string::to_string_from_display_ensures::<E>(&e, s) && r.message@ == s@,
    {
        let s = e.to_string();
        Self::new("LOCK", s.as_str())
    }

    /// I/O failure; the message is the context, a colon and the rendered cause.
    pub fn io<E: std::fmt::Display>(e: E, context: &str) -> (r: Self)
        ensures
            r.code@ == "IO"@,
            exists|s: String|
                #[trigger] vstd::string::to_string_from_display_ensures::<E>(&e, s) && r.message@ == context@
                    + ": "@ + s@,
    {
        let s = e.to_string();
        let message = context.to_owned().concat(": ").concat(s.as_str());
        Self::new("IO", message.as_str())
    }

    /// Input validation failure.
    pub fn validation(message: &str) -> (e: Self)
        ensures
            e.says("VALIDATION"@, message@),
    {
        Self::new("VALIDATION", message)
    }

    /// The error as a line of text: category, colon, message.
    pub fn to_string(&self) -> (s: String)
        ensures
            s@ == self.code@ + ": "@ + self.message@,
    {
        self.code.as_str().to_owned().concat(": ").concat(self.message.as_str())
    }
}

impl vstd::std_specs::convert::FromSpecImpl<AppError> for CommandError {
    open spec fn obeys_from_spec() -> bool {
        false
    }

    open spec fn from_spec(e: AppError) -> Self {
        arbitrary()
    }
}

impl From<AppError> for CommandError {
    /// A command reports the variant's category and the text it carries.
    fn from(e: AppError) -> (r: Self)
        ensures
            r.says(e.category(), e.detail()),
    {
        match e {
            AppError::Audio(m) => Self::new("AUDIO", m.as_str()),
            AppError::Speech(m) => Self::new("SPEECH", m.as_str()),
            AppError::Clipboard(m) => Self::new("CLIPBOARD", m.as_str()),
            AppError::Llm(m) => Self::new("LLM", m.as_str()),
            AppError::Config(m) => Self::new("CONFIG", m.as_str()),
            AppError::Hotkey(m) => Self::new("HOTKEY", m.as_str()),
            AppError::Crypto(m) => Self::new("CRYPTO", m.as_str()),
            AppError::Io(m) => Self::new("IO", m.as_str()),
            AppError::Json(m) => Self::new("JSON", m.as_str()),
            AppError::Http(m) => Self::new("HTTP", m.as_str()),
        }
    }
}

/// The command is refused with this category and this message.
pub open spec fn refused<T>(
    r: Result<T, CommandError>,
    code: Seq<char>,
    message: Seq<char>,
) -> bool {
    match r {
        Ok(_) => false,
        Err(e) => e.says(code, message),
    }
}

/// A command reports the text of an error under a category that is its kind in capitals, and the
/// error as a line begins with the kind in words.
pub proof fn errors_are_reported_by_kind(e: AppError, c: CommandError, line: String)
    requires
        call_ensures(<CommandError as From<AppError>>::from, (e,), c),
        call_ensures(AppError::to_string, (&e,), line),
    ensures
        c.message@ == e.detail(),
        e matches AppError::Audio(m) ==> c.code@ == "AUDIO"@ && line@ == "audio error: "@ + m@,
        e matches AppError::Speech(m) ==> c.code@ == "SPEECH"@ && line@
            == "speech recognition error: "@ + m@,
        e matches AppError::Clipboard(m) ==> c.code@ == "CLIPBOARD"@ && line@
            == "clipboard error: "@ + m@,
        e matches AppError::Llm(m) ==> c.code@ == "LLM"@ && line@ == "LLM error: "@ + m@,
        e matches AppError::Config(m) ==> c.code@ == "CONFIG"@ && line@ == "config error: "@ + m@,
        e matches AppError::Hotkey(m) ==> c.code@ == "HOTKEY"@ && line@ == "hotkey error: "@ + m@,
        e matches AppError::Crypto(m) ==> c.code@ == "CRYPTO"@ && line@ == "crypto error: "@ + m@,
        e matches AppError::Io(m) ==> c.code@ == "IO"@ && line@ == "IO error: "@ + m@,
        e matches AppError::Json(m) ==> c.code@ == "JSON"@ && line@ == "JSON error: "@ + m@,
        e matches AppError::Http(m) ==> c.code@ == "HTTP"@ && line@ == "HTTP error: "@ + m@,
{
}

/// An error of a command as a line is its category, a colon and its message.
pub proof fn command_errors_name_their_category(
    code: &str,
    message: &str,
    e: CommandError,
    line: String,
    state: CommandError,
    validation: CommandError,
)
    requires
        call_ensures(CommandError::new, (code, message), e),
        call_ensures(CommandError::to_string, (&e,), line),
        call_ensures(CommandError::state, (message,), state),
        call_ensures(CommandError::validation, (message,), validation),
    ensures
        e.code@ == code@ && e.message@ == message@,
        line@ == code@ + ": "@ + message@,
        state.code@ == "STATE"@ && state.message@ == message@,
        validation.code@ == "VALIDATION"@ && validation.message@ == message@,
{
}

} // verus!
