//! Error types for the player: one enum for every component, with a
//! human-readable message per variant, and helpers for wrapping foreign
//! errors with context.

use vstd::prelude::*;
use vstd::string::StringExecFns;

verus! {

/// Main error type for the player.
#[derive(Clone, Debug)]
pub enum CCPlayerError {
    /// Window-related errors.
    Window(String),
    /// Renderer errors.
    Renderer(String),
    /// Decoder errors.
    Decoder(String),
    /// Audio errors.
    Audio(String),
    /// Configuration errors.
    Config(String),
    /// File I/O errors, carrying the underlying error's message.
    FileIO(String),
    /// Invalid input errors.
    InvalidInput(String),
    /// Resource not found.
    NotFound(String),
    /// Unsupported format.
    UnsupportedFormat(String),
    /// Synchronization error.
    Sync(String),
    /// A bounded buffer refused an element because it was full.
    BufferFull(String),
    /// Generic error for unexpected situations.
    Internal(String),
}

/// Convenience type alias for results in the player.
pub type Result<T> = core::result::Result<T, CCPlayerError>;

/// The display prefix of each error variant.
pub open spec fn error_prefix(e: CCPlayerError) -> Seq<char> {
    match e {
        CCPlayerError::Window(_) => "Window error: "@,
        CCPlayerError::Renderer(_) => "Renderer error: "@,
        CCPlayerError::Decoder(_) => "Decoder error: "@,
        CCPlayerError::Audio(_) => "Audio error: "@,
        CCPlayerError::Config(_) => "Configuration error: "@,
        CCPlayerError::FileIO(_) => "File error: "@,
        CCPlayerError::InvalidInput(_) => "Invalid input: "@,
        CCPlayerError::NotFound(_) => "Resource not found: "@,
        CCPlayerError::UnsupportedFormat(_) => "Unsupported format: "@,
        CCPlayerError::Sync(_) => "Synchronization error: "@,
        CCPlayerError::BufferFull(_) => "Buffer full: "@,
        CCPlayerError::Internal(_) => "Internal error: "@,
    }
}

/// The message carried by an error.
pub open spec fn error_detail(e: CCPlayerError) -> Seq<char> {
    match e {
        CCPlayerError::Window(m) => m@,
        CCPlayerError::Renderer(m) => m@,
        CCPlayerError::Decoder(m) => m@,
        CCPlayerError::Audio(m) => m@,
        CCPlayerError::Config(m) => m@,
        CCPlayerError::FileIO(m) => m@,
        CCPlayerError::InvalidInput(m) => m@,
        CCPlayerError::NotFound(m) => m@,
        CCPlayerError::UnsupportedFormat(m) => m@,
        CCPlayerError::Sync(m) => m@,
        CCPlayerError::BufferFull(m) => m@,
        CCPlayerError::Internal(m) => m@,
    }
}

impl CCPlayerError {
    /// The human-readable form of the error: its variant's prefix
    /// followed by its message.
    pub fn message(&self) -> (r: String)
        ensures
            r@ == error_prefix(*self) + error_detail(*self),
    {
        match self {
            CCPlayerError::Window(m) => String::from_str("Window error: ").concat(m.as_str()),
            CCPlayerError::Renderer(m) => String::from_str("Renderer error: ").concat(m.as_str()),
            CCPlayerError::Decoder(m) => String::from_str("Decoder error: ").concat(m.as_str()),
            CCPlayerError::Audio(m) => String::from_str("Audio error: ").concat(m.as_str()),
            CCPlayerError::Config(m) => String::from_str("Configuration error: ").concat(
                m.as_str(),
            ),
            CCPlayerError::FileIO(m) => String::from_str("File error: ").concat(m.as_str()),
            CCPlayerError::InvalidInput(m) => String::from_str("Invalid input: ").concat(
                m.as_str(),
            ),
            CCPlayerError::NotFound(m) => String::from_str("Resource not found: ").concat(
                m.as_str(),
            ),
            CCPlayerError::UnsupportedFormat(m) => String::from_str("Unsupported format: ").concat(
                m.as_str(),
            ),
            CCPlayerError::Sync(m) => String::from_str("Synchronization error: ").concat(
                m.as_str(),
            ),
            CCPlayerError::BufferFull(m) => String::from_str("Buffer full: ").concat(m.as_str()),
            CCPlayerError::Internal(m) => String::from_str("Internal error: ").concat(m.as_str()),
        }
    }

    /// Create a decoder error from a message.
    pub fn decoder_error(msg: &str) -> (r: Self)
        ensures
            r matches CCPlayerError::Decoder(m) && m@ == msg@,
    {
        CCPlayerError::Decoder(String::from_str(msg))
    }
}

/// `context + ": " + detail`, the shape of every wrapped error message.
pub open spec fn with_context(context: Seq<char>, detail: Seq<char>) -> Seq<char> {
    context + ": "@ + detail
}

/// Build the message `context + ": " + detail`.
fn contextualize(context: &str, detail: &str) -> (r: String)
    ensures
        r@ == with_context(context@, detail@),
{
    String::from_str(context).concat(": ").concat(detail)
}

#[verifier::external_type_specification]
#[verifier::external_body]
pub struct ExIoError(std::io::Error);

/// Relies on the `Display` impl of `std::io::Error` for the error's
/// message text; nothing is assumed about its content.
#[verifier::external_body]
fn io_error_text(e: &std::io::Error) -> (r: String) {
    format!("{}", e)
}

impl From<std::io::Error> for CCPlayerError {
    /// A file I/O error, carrying the source error's message.
    fn from(e: std::io::Error) -> (r: Self)
        ensures
            r is FileIO,
    {
        CCPlayerError::FileIO(io_error_text(&e))
    }
}

impl vstd::std_specs::convert::FromSpecImpl<std::io::Error> for CCPlayerError {
    open spec fn obeys_from_spec() -> bool {
        false
    }

    open spec fn from_spec(e: std::io::Error) -> Self {
        arbitrary()
    }
}

/// Extension for converting other errors to `CCPlayerError` with a
/// context string; each method tags the error with one component's
/// variant and the message `context + ": " + error`.
pub trait IntoPlayerError<T>: Sized {
    /// The carried success value, if any.
    spec fn spec_ok(&self) -> Option<T>;

    /// The carried error's text, if any.
    spec fn spec_err_text(&self) -> Option<Seq<char>>;

    fn window_err(self, context: &str) -> (r: Result<T>)
        ensures
            self.spec_ok() matches Some(v) ==> r matches Ok(w) && w == v,
            self.spec_err_text() matches Some(t) ==> r matches Err(CCPlayerError::Window(m))
                && m@ == with_context(context@, t),
    ;

    fn renderer_err(self, context: &str) -> (r: Result<T>)
        ensures
            self.spec_ok() matches Some(v) ==> r matches Ok(w) && w == v,
            self.spec_err_text() matches Some(t) ==> r matches Err(CCPlayerError::Renderer(m))
                && m@ == with_context(context@, t),
    ;

    fn decoder_err(self, context: &str) -> (r: Result<T>)
        ensures
            self.spec_ok() matches Some(v) ==> r matches Ok(w) && w == v,
            self.spec_err_text() matches Some(t) ==> r matches Err(CCPlayerError::Decoder(m))
                && m@ == with_context(context@, t),
    ;

    fn audio_err(self, context: &str) -> (r: Result<T>)
        ensures
            self.spec_ok() matches Some(v) ==> r matches Ok(w) && w == v,
            self.spec_err_text() matches Some(t) ==> r matches Err(CCPlayerError::Audio(m))
                && m@ == with_context(context@, t),
    ;

    fn config_err(self, context: &str) -> (r: Result<T>)
        ensures
            self.spec_ok() matches Some(v) ==> r matches Ok(w) && w == v,
            self.spec_err_text() matches Some(t) ==> r matches Err(CCPlayerError::Config(m))
                && m@ == with_context(context@, t),
    ;
}

impl<T> IntoPlayerError<T> for core::result::Result<T, String> {
    open spec fn spec_ok(&self) -> Option<T> {
        match self {
            Ok(v) => Some(*v),
            Err(_) => None,
        }
    }

    open spec fn spec_err_text(&self) -> Option<Seq<char>> {
        match self {
            Ok(_) => None,
            Err(e) => Some(e@),
        }
    }

    fn window_err(self, context: &str) -> (r: Result<T>) {
        match self {
            Ok(v) => Ok(v),
            Err(e) => Err(CCPlayerError::Window(contextualize(context, e.as_str()))),
        }
    }

    fn renderer_err(self, context: &str) -> (r: Result<T>) {
        match self {
            Ok(v) => Ok(v),
            Err(e) => Err(CCPlayerError::Renderer(contextualize(context, e.as_str()))),
        }
    }

    fn decoder_err(self, context: &str) -> (r: Result<T>) {
        match self {
            Ok(v) => Ok(v),
            Err(e) => Err(CCPlayerError::Decoder(contextualize(context, e.as_str()))),
        }
    }

    fn audio_err(self, context: &str) -> (r: Result<T>) {
        match self {
            Ok(v) => Ok(v),
            Err(e) => Err(CCPlayerError::Audio(contextualize(context, e.as_str()))),
        }
    }

    fn config_err(self, context: &str) -> (r: Result<T>) {
        match self {
            Ok(v) => Ok(v),
            Err(e) => Err(CCPlayerError::Config(contextualize(context, e.as_str()))),
        }
    }
}

impl<'a, T> IntoPlayerError<T> for core::result::Result<T, &'a str> {
    open spec fn spec_ok(&self) -> Option<T> {
        match self {
            Ok(v) => Some(*v),
            Err(_) => None,
        }
    }

    open spec fn spec_err_text(&self) -> Option<Seq<char>> {
        match self {
            Ok(_) => None,
            Err(e) => Some(e@),
        }
    }

    fn window_err(self, context: &str) -> (r: Result<T>) {
        match self {
            Ok(v) => Ok(v),
            Err(e) => Err(CCPlayerError::Window(contextualize(context, e))),
        }
    }

    fn renderer_err(self, context: &str) -> (r: Result<T>) {
        match self {
            Ok(v) => Ok(v),
            Err(e) => Err(CCPlayerError::Renderer(contextualize(context, e))),
        }
    }

    fn decoder_err(self, context: &str) -> (r: Result<T>) {
        match self {
            Ok(v) => Ok(v),
            Err(e) => Err(CCPlayerError::Decoder(contextualize(context, e))),
        }
    }

    fn audio_err(self, context: &str) -> (r: Result<T>) {
        match self {
            Ok(v) => Ok(v),
            Err(e) => Err(CCPlayerError::Audio(contextualize(context, e))),
        }
    }

    fn config_err(self, context: &str) -> (r: Result<T>) {
        match self {
            Ok(v) => Ok(v),
            Err(e) => Err(CCPlayerError::Config(contextualize(context, e))),
        }
    }
}

/// Whether an error is worth retrying: decode, audio-device and file
/// errors are transient; everything else is not.
pub open spec fn retryable(e: CCPlayerError) -> bool {
    e is Decoder || e is Audio || e is FileIO
}

/// A recovery strategy for transient failures.
#[derive(Clone, Debug)]
pub enum RecoveryStrategy {
    /// Retry the failed operation a bounded number of times.
    Retry { max_attempts: u32, delay_ms: u64 },
    /// Tear the component down and initialize it again.
    Reinitialize,
    /// Fall back to a degraded mode.
    Fallback,
}

/// Error recovery handler: keeps a history of errors (as their messages,
/// stamped with the caller's clock) and decides whether an error is
/// retryable.
pub struct ErrorRecovery {
    /// Error history: (timestamp in microseconds, error).
    pub error_history: Vec<(i64, CCPlayerError)>,
    /// Recovery strategies, tried in order.
    pub strategies: Vec<RecoveryStrategy>,
}

impl ErrorRecovery {
    pub fn new() -> (r: Self)
        ensures
            r.error_history@.len() == 0,
            r.strategies@.len() == 1,
            r.strategies@[0] matches RecoveryStrategy::Retry { max_attempts, delay_ms }
                && max_attempts == 3 && delay_ms == 500,
    {
        let mut strategies: Vec<RecoveryStrategy> = Vec::new();
        strategies.push(RecoveryStrategy::Retry { max_attempts: 3, delay_ms: 500 });
        ErrorRecovery { error_history: Vec::new(), strategies }
    }

    /// Whether the error is of a kind worth retrying.
    pub fn should_retry(&self, error: &CCPlayerError) -> (r: bool)
        ensures
            r == retryable(*error),
    {
        match error {
            CCPlayerError::Decoder(_) => true,
            CCPlayerError::Audio(_) => true,
            CCPlayerError::FileIO(_) => true,
            _ => false,
        }
    }
}

} // verus!
