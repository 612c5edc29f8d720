//! What can go wrong, and how it is told to the user.
use crate::paths;
use crate::paths::OsPath;
use crate::tdjson::TdjsonSymbol;
use crate::text;
use crate::text::IntegerError;
use vstd::prelude::*;

verus! {

/// Why a command failed, over paths `P` and texts `T`.
#[derive(Debug, PartialEq, Eq)]
pub enum FailureOf<P, T> {
    /// The user has no home directory.
    HomeUnresolved,
    /// The config file is there and cannot be read.
    ConfigUnreadable { path: P, cause: T },
    /// The config file is no config.
    ConfigUnparsable { path: P, cause: T },
    /// The config cannot be written as a document.
    ConfigUnserializable(T),
    /// There is no API ID, or no API hash, or an empty one.
    MissingCredentials,
    /// What was typed is no API ID.
    InvalidApiId(IntegerError),
    /// An empty API hash was typed.
    ApiHashRequired,
    /// Only a user who answers can go on from here; the text says how.
    SetupNeeded(T),
    /// The database directory holds no session.
    MissingSession(P),
    /// Nothing is at the path.
    Missing(P),
    /// What is at the path is no socket.
    NotASocket(P),
    /// What is at the path cannot be told.
    Uninspectable { path: P, cause: T },
    /// A daemon answers at the socket.
    AlreadyRunning(P),
    /// What is at the socket's path is no socket, and stays.
    NotRemoved(P),
    /// The socket's parent is no directory.
    ParentNotDirectory(P),
    /// Others may write to the socket's parent, which has these permission bits.
    InsecureParent { path: P, mode: u32 },
    /// TDLib sent what is no JSON document.
    InvalidJson(T),
    /// TDLib reported an error.
    TdlibError(T),
    /// An authorization update without a state.
    NoAuthorizationState,
    /// An authorization state without a type.
    UntypedAuthorizationState,
    /// TDLib logs out or closes.
    AuthorizationClosed,
    /// An authorization state that has no answer.
    UnsupportedState(T),
    /// TDLib answered a change of its log verbosity with what is no JSON document.
    UnreadableAnswer(T),
    /// TDLib refused a change of its log verbosity.
    LogVerbosityRefused(T),
    /// The TDLib library cannot be opened.
    LibraryNotOpened(P),
    /// The TDLib library lacks a function.
    MissingSymbol(TdjsonSymbol),
    /// No TDLib library could be loaded; the text says what was tried.
    NoLibrary(T),
    /// As [`FailureOf::NoLibrary`], told without advice.
    NoLibraryFound(T),
    /// The daemon cannot accept a client.
    AcceptFailed(T),
    /// The signals of the user cannot be listened for.
    SignalFailed(T),
    /// The daemon does not take connections.
    ConnectionFailed(T),
    /// The daemon does not answer in time.
    ConnectionTimedOut,
    /// The daemon cannot be reached at its socket.
    Unreachable { path: P, cause: T },
    /// Some check of the doctor failed.
    ProblemsFound,
}

pub type Failure = FailureOf<OsPath, String>;

pub type FailureView = FailureOf<Seq<u8>, Seq<char>>;

impl View for Failure {
    type V = FailureView;

    open spec fn view(&self) -> FailureView {
        match self {
            Failure::HomeUnresolved => FailureView::HomeUnresolved,
            Failure::ConfigUnreadable { path, cause } => FailureView::ConfigUnreadable {
                path: path@,
                cause: cause@,
            },
            Failure::ConfigUnparsable { path, cause } => FailureView::ConfigUnparsable {
                path: path@,
                cause: cause@,
            },
            Failure::ConfigUnserializable(cause) => FailureView::ConfigUnserializable(cause@),
            Failure::MissingCredentials => FailureView::MissingCredentials,
            Failure::InvalidApiId(error) => FailureView::InvalidApiId(*error),
            Failure::ApiHashRequired => FailureView::ApiHashRequired,
            Failure::SetupNeeded(advice) => FailureView::SetupNeeded(advice@),
            Failure::MissingSession(path) => FailureView::MissingSession(path@),
            Failure::Missing(path) => FailureView::Missing(path@),
            Failure::NotASocket(path) => FailureView::NotASocket(path@),
            Failure::Uninspectable { path, cause } => FailureView::Uninspectable {
                path: path@,
                cause: cause@,
            },
            Failure::AlreadyRunning(path) => FailureView::AlreadyRunning(path@),
            Failure::NotRemoved(path) => FailureView::NotRemoved(path@),
            Failure::ParentNotDirectory(path) => FailureView::ParentNotDirectory(path@),
            Failure::InsecureParent { path, mode } => FailureView::InsecureParent {
                path: path@,
                mode: *mode,
            },
            Failure::InvalidJson(cause) => FailureView::InvalidJson(cause@),
            Failure::TdlibError(message) => FailureView::TdlibError(message@),
            Failure::NoAuthorizationState => FailureView::NoAuthorizationState,
            Failure::UntypedAuthorizationState => FailureView::UntypedAuthorizationState,
            Failure::AuthorizationClosed => FailureView::AuthorizationClosed,
            Failure::UnsupportedState(name) => FailureView::UnsupportedState(name@),
            Failure::UnreadableAnswer(cause) => FailureView::UnreadableAnswer(cause@),
            Failure::LogVerbosityRefused(answer) => FailureView::LogVerbosityRefused(answer@),
            Failure::LibraryNotOpened(path) => FailureView::LibraryNotOpened(path@),
            Failure::MissingSymbol(symbol) => FailureView::MissingSymbol(*symbol),
            Failure::NoLibrary(tried) => FailureView::NoLibrary(tried@),
            Failure::NoLibraryFound(tried) => FailureView::NoLibraryFound(tried@),
            Failure::AcceptFailed(cause) => FailureView::AcceptFailed(cause@),
            Failure::SignalFailed(cause) => FailureView::SignalFailed(cause@),
            Failure::ConnectionFailed(cause) => FailureView::ConnectionFailed(cause@),
            Failure::ConnectionTimedOut => FailureView::ConnectionTimedOut,
            Failure::Unreachable { path, cause } => FailureView::Unreachable {
                path: path@,
                cause: cause@,
            },
            Failure::ProblemsFound => FailureView::ProblemsFound,
        }
    }
}

/// The line that tells the user of a failure.
pub open spec fn failure_message(failure: FailureView) -> Seq<char> {
    match failure {
        FailureView::HomeUnresolved => "failed to resolve home directory"@,
        FailureView::ConfigUnreadable { path, .. } => "failed to read config "@ + paths::shown(
            path,
        ),
        FailureView::ConfigUnparsable { path, .. } => "failed to parse config "@ + paths::shown(
            path,
        ),
        FailureView::ConfigUnserializable(_) => "failed to serialize config"@,
        FailureView::MissingCredentials =>
            "missing Telegram API credentials; run `tgdyk setup` first"@,
        FailureView::InvalidApiId(_) => "invalid Telegram API ID"@,
        FailureView::ApiHashRequired => "Telegram API hash is required"@,
        FailureView::SetupNeeded(advice) => advice,
        FailureView::MissingSession(path) => "missing TDLib session in "@ + paths::shown(path)
            + "; run `tgdyk setup` first"@,
        FailureView::Missing(path) => "missing "@ + paths::shown(path),
        FailureView::NotASocket(path) => "not a Unix socket "@ + paths::shown(path),
        FailureView::Uninspectable { path, .. } => "failed to inspect "@ + paths::shown(path),
        FailureView::AlreadyRunning(path) => "daemon already appears to be running at "@
            + paths::shown(path),
        FailureView::NotRemoved(path) => "refusing to remove non-socket file "@ + paths::shown(
            path,
        ),
        FailureView::ParentNotDirectory(path) => "socket parent is not a directory: "@
            + paths::shown(path),
        FailureView::InsecureParent { path, mode } => "socket parent has insecure permissions "@
            + text::octal(mode as nat) + (": "@ + paths::shown(path)),
        FailureView::InvalidJson(_) => "invalid TDLib JSON"@,
        FailureView::TdlibError(message) => "TDLib error: "@ + message,
        FailureView::NoAuthorizationState => "authorization update has no state"@,
        FailureView::UntypedAuthorizationState => "authorization state has no type"@,
        FailureView::AuthorizationClosed => "TDLib authorization closed before it became ready"@,
        FailureView::UnsupportedState(name) => "unsupported TDLib authorization state: "@ + name,
        FailureView::UnreadableAnswer(cause) => cause,
        FailureView::LogVerbosityRefused(answer) => "failed to set TDLib log verbosity: "@
            + answer,
        FailureView::LibraryNotOpened(path) => "failed to open "@ + paths::shown(path),
        FailureView::MissingSymbol(symbol) => "missing "@ + symbol.spelling(),
        FailureView::NoLibrary(tried) =>
            "failed to load TDLib JSON library; set TDJSON_PATH. Tried: "@ + tried,
        FailureView::NoLibraryFound(tried) => tried,
        FailureView::AcceptFailed(_) => "failed to accept client"@,
        FailureView::SignalFailed(_) => "failed to listen for shutdown signal"@,
        FailureView::ConnectionFailed(cause) => cause,
        FailureView::ConnectionTimedOut => "connection timed out"@,
        FailureView::Unreachable { path, .. } => "daemon is not reachable at "@ + paths::shown(
            path,
        ),
        FailureView::ProblemsFound => "doctor found problems"@,
    }
}

/// What lies behind a failure, where more is known than its message says.
pub open spec fn failure_cause(failure: FailureView) -> Option<Seq<char>> {
    match failure {
        FailureView::ConfigUnreadable { cause, .. } => Some(cause),
        FailureView::ConfigUnparsable { cause, .. } => Some(cause),
        FailureView::ConfigUnserializable(cause) => Some(cause),
        FailureView::InvalidApiId(error) => Some(integer_error_text(error)),
        FailureView::Uninspectable { cause, .. } => Some(cause),
        FailureView::InvalidJson(cause) => Some(cause),
        FailureView::AcceptFailed(cause) => Some(cause),
        FailureView::SignalFailed(cause) => Some(cause),
        FailureView::Unreachable { cause, .. } => Some(cause),
        _ => None,
    }
}

/// Why a text is no integer, in words.
pub open spec fn integer_error_text(error: IntegerError) -> Seq<char> {
    match error {
        IntegerError::Empty => "cannot parse integer from empty string"@,
        IntegerError::InvalidDigit => "invalid digit found in string"@,
        IntegerError::PosOverflow => "number too large to fit in target type"@,
        IntegerError::NegOverflow => "number too small to fit in target type"@,
    }
}

/// `start`, then `rest`.
pub(crate) fn joined_text(start: &str, rest: &str) -> (whole: String)
    ensures
        whole@ == start@ + rest@,
{
    let mut whole = start.to_owned();
    whole.append(rest);
    whole
}

/// `start`, then the path as it is shown.
pub(crate) fn about_path(start: &str, path: &OsPath) -> (whole: String)
    ensures
        whole@ == start@ + paths::shown(path@),
{
    let name = path.display();
    joined_text(start, name.as_str())
}

impl FailureOf<OsPath, String> {
    /// The line that tells the user of this failure.
    pub fn message(&self) -> (said: String)
        ensures
            said@ == failure_message(self@),
    {
        match self {
            Failure::HomeUnresolved => "failed to resolve home directory".to_owned(),
            Failure::ConfigUnreadable { path, .. } => about_path("failed to read config ", path),
            Failure::ConfigUnparsable { path, .. } => about_path("failed to parse config ", path),
            Failure::ConfigUnserializable(_) => "failed to serialize config".to_owned(),
            Failure::MissingCredentials =>
                "missing Telegram API credentials; run `tgdyk setup` first".to_owned(),
            Failure::InvalidApiId(_) => "invalid Telegram API ID".to_owned(),
            Failure::ApiHashRequired => "Telegram API hash is required".to_owned(),
            Failure::SetupNeeded(advice) => advice.clone(),
            Failure::MissingSession(path) => {
                let mut said = about_path("missing TDLib session in ", path);
                said.append("; run `tgdyk setup` first");
                said
            },
            Failure::Missing(path) => about_path("missing ", path),
            Failure::NotASocket(path) => about_path("not a Unix socket ", path),
            Failure::Uninspectable { path, .. } => about_path("failed to inspect ", path),
            Failure::AlreadyRunning(path) => about_path(
                "daemon already appears to be running at ",
                path,
            ),
            Failure::NotRemoved(path) => about_path("refusing to remove non-socket file ", path),
            Failure::ParentNotDirectory(path) => about_path(
                "socket parent is not a directory: ",
                path,
            ),
            Failure::InsecureParent { path, mode } => {
                let bits = text::octal_text(*mode);
                let mut said = joined_text(
                    "socket parent has insecure permissions ",
                    bits.as_str(),
                );
                let place = about_path(": ", path);
                said.append(place.as_str());
                said
            },
            Failure::InvalidJson(_) => "invalid TDLib JSON".to_owned(),
            Failure::TdlibError(message) => joined_text("TDLib error: ", message.as_str()),
            Failure::NoAuthorizationState => "authorization update has no state".to_owned(),
            Failure::UntypedAuthorizationState => "authorization state has no type".to_owned(),
            Failure::AuthorizationClosed =>
                "TDLib authorization closed before it became ready".to_owned(),
            Failure::UnsupportedState(name) => joined_text(
                "unsupported TDLib authorization state: ",
                name.as_str(),
            ),
            Failure::UnreadableAnswer(cause) => cause.clone(),
            Failure::LogVerbosityRefused(answer) => joined_text(
                "failed to set TDLib log verbosity: ",
                answer.as_str(),
            ),
            Failure::LibraryNotOpened(path) => about_path("failed to open ", path),
            Failure::MissingSymbol(symbol) => joined_text("missing ", symbol.name()),
            Failure::NoLibrary(tried) => joined_text(
                "failed to load TDLib JSON library; set TDJSON_PATH. Tried: ",
                tried.as_str(),
            ),
            Failure::NoLibraryFound(tried) => tried.clone(),
            Failure::AcceptFailed(_) => "failed to accept client".to_owned(),
            Failure::SignalFailed(_) => "failed to listen for shutdown signal".to_owned(),
            Failure::ConnectionFailed(cause) => cause.clone(),
            Failure::ConnectionTimedOut => "connection timed out".to_owned(),
            Failure::Unreachable { path, .. } => about_path("daemon is not reachable at ", path),
            Failure::ProblemsFound => "doctor found problems".to_owned(),
        }
    }

    /// What lies behind this failure.
    pub fn cause(&self) -> (said: Option<String>)
        ensures
            match said {
                Some(cause) => failure_cause(self@) == Some(cause@),
                None => failure_cause(self@) is None,
            },
    {
        match self {
            Failure::ConfigUnreadable { cause, .. } => Some(cause.clone()),
            Failure::ConfigUnparsable { cause, .. } => Some(cause.clone()),
            Failure::ConfigUnserializable(cause) => Some(cause.clone()),
            Failure::InvalidApiId(error) => Some(
                match error {
                    IntegerError::Empty => "cannot parse integer from empty string".to_owned(),
                    IntegerError::InvalidDigit => "invalid digit found in string".to_owned(),
                    IntegerError::PosOverflow =>
                        "number too large to fit in target type".to_owned(),
                    IntegerError::NegOverflow =>
                        "number too small to fit in target type".to_owned(),
                },
            ),
            Failure::Uninspectable { cause, .. } => Some(cause.clone()),
            Failure::InvalidJson(cause) => Some(cause.clone()),
            Failure::AcceptFailed(cause) => Some(cause.clone()),
            Failure::SignalFailed(cause) => Some(cause.clone()),
            Failure::Unreachable { cause, .. } => Some(cause.clone()),
            _ => None,
        }
    }
}

/// A failure about a path names the path, in full, behind fixed words; the only words behind it are
/// the advice for a session that is missing.
pub proof fn failures_name_their_paths(path: Seq<u8>, cause: Seq<char>, mode: u32)
    ensures
        ({
            let place = text::lossy_text(path);
            &&& failure_message(FailureView::ConfigUnreadable { path, cause })
                == "failed to read config "@ + place
            &&& failure_message(FailureView::ConfigUnparsable { path, cause })
                == "failed to parse config "@ + place
            &&& failure_message(FailureView::MissingSession(path)) == "missing TDLib session in "@
                + place + "; run `tgdyk setup` first"@
            &&& failure_message(FailureView::Missing(path)) == "missing "@ + place
            &&& failure_message(FailureView::NotASocket(path)) == "not a Unix socket "@ + place
            &&& failure_message(FailureView::Uninspectable { path, cause }) == "failed to inspect "@
                + place
            &&& failure_message(FailureView::AlreadyRunning(path))
                == "daemon already appears to be running at "@ + place
            &&& failure_message(FailureView::NotRemoved(path))
                == "refusing to remove non-socket file "@ + place
            &&& failure_message(FailureView::ParentNotDirectory(path))
                == "socket parent is not a directory: "@ + place
            &&& failure_message(FailureView::InsecureParent { path, mode })
                == "socket parent has insecure permissions "@ + text::octal(mode as nat) + ": "@
                + place
            &&& failure_message(FailureView::LibraryNotOpened(path)) == "failed to open "@ + place
            &&& failure_message(FailureView::Unreachable { path, cause })
                == "daemon is not reachable at "@ + place
        }),
{
    assert(failure_message(FailureView::InsecureParent { path, mode })
        =~= "socket parent has insecure permissions "@ + text::octal(mode as nat) + ": "@
        + text::lossy_text(path));
}

/// A failure that holds a text is told with it, in full and at the end, or by fixed words and the
/// text as the cause.
pub proof fn failures_tell_their_texts(said: Seq<char>, path: Seq<u8>, symbol: TdjsonSymbol)
    ensures
        failure_message(FailureView::SetupNeeded(said)) == said,
        failure_message(FailureView::TdlibError(said)) == "TDLib error: "@ + said,
        failure_message(FailureView::UnsupportedState(said))
            == "unsupported TDLib authorization state: "@ + said,
        failure_message(FailureView::UnreadableAnswer(said)) == said,
        failure_message(FailureView::LogVerbosityRefused(said))
            == "failed to set TDLib log verbosity: "@ + said,
        failure_message(FailureView::MissingSymbol(symbol)) == "missing "@ + symbol.spelling(),
        failure_message(FailureView::NoLibrary(said))
            == "failed to load TDLib JSON library; set TDJSON_PATH. Tried: "@ + said,
        failure_message(FailureView::NoLibraryFound(said)) == said,
        failure_message(FailureView::ConnectionFailed(said)) == said,
        failure_message(FailureView::InvalidJson(said)) == "invalid TDLib JSON"@,
        failure_cause(FailureView::InvalidJson(said)) == Some(said),
        failure_message(FailureView::ConfigUnserializable(said)) == "failed to serialize config"@,
        failure_cause(FailureView::ConfigUnserializable(said)) == Some(said),
        failure_message(FailureView::AcceptFailed(said)) == "failed to accept client"@,
        failure_cause(FailureView::AcceptFailed(said)) == Some(said),
        failure_message(FailureView::SignalFailed(said)) == "failed to listen for shutdown signal"@,
        failure_cause(FailureView::SignalFailed(said)) == Some(said),
        failure_cause(FailureView::ConfigUnreadable { path, cause: said }) == Some(said),
        failure_cause(FailureView::ConfigUnparsable { path, cause: said }) == Some(said),
        failure_cause(FailureView::Uninspectable { path, cause: said }) == Some(said),
        failure_cause(FailureView::Unreachable { path, cause: said }) == Some(said),
{
}

/// A failure that holds nothing is told in the same words each time.
pub proof fn other_failures_have_fixed_words(error: IntegerError)
    ensures
        failure_message(FailureView::HomeUnresolved) == "failed to resolve home directory"@,
        failure_message(FailureView::MissingCredentials)
            == "missing Telegram API credentials; run `tgdyk setup` first"@,
        failure_message(FailureView::InvalidApiId(error)) == "invalid Telegram API ID"@,
        failure_message(FailureView::ApiHashRequired) == "Telegram API hash is required"@,
        failure_message(FailureView::NoAuthorizationState) == "authorization update has no state"@,
        failure_message(FailureView::UntypedAuthorizationState)
            == "authorization state has no type"@,
        failure_message(FailureView::AuthorizationClosed)
            == "TDLib authorization closed before it became ready"@,
        failure_message(FailureView::ConnectionTimedOut) == "connection timed out"@,
        failure_message(FailureView::ProblemsFound) == "doctor found problems"@,
        failure_cause(FailureView::InvalidApiId(error)) == Some(
            match error {
                IntegerError::Empty => "cannot parse integer from empty string"@,
                IntegerError::InvalidDigit => "invalid digit found in string"@,
                IntegerError::PosOverflow => "number too large to fit in target type"@,
                IntegerError::NegOverflow => "number too small to fit in target type"@,
            },
        ),
{
}

/// Nothing lies behind a failure but the cause that it holds: one that holds none has none.
pub proof fn causes_are_held(failure: FailureView)
    requires
        !(failure is ConfigUnreadable || failure is ConfigUnparsable || failure is InvalidApiId
            || failure is ConfigUnserializable || failure is Uninspectable || failure is InvalidJson
            || failure is AcceptFailed || failure is SignalFailed || failure is Unreachable),
    ensures
        failure_cause(failure) is None,
{
}

/// A failure is seen as it is: of the same kind, with its own path, texts and numbers.
pub proof fn failures_are_seen_as_they_are(
    path: OsPath,
    said: String,
    mode: u32,
    error: IntegerError,
    symbol: TdjsonSymbol,
)
    ensures
        (Failure::HomeUnresolved)@ is HomeUnresolved,
        (Failure::MissingCredentials)@ is MissingCredentials,
        (Failure::ApiHashRequired)@ is ApiHashRequired,
        (Failure::NoAuthorizationState)@ is NoAuthorizationState,
        (Failure::UntypedAuthorizationState)@ is UntypedAuthorizationState,
        (Failure::AuthorizationClosed)@ is AuthorizationClosed,
        (Failure::ConnectionTimedOut)@ is ConnectionTimedOut,
        (Failure::ProblemsFound)@ is ProblemsFound,
        (Failure::ConfigUnreadable { path, cause: said })@ == (FailureView::ConfigUnreadable {
            path: path.bytes@,
            cause: said@,
        }),
        (Failure::ConfigUnparsable { path, cause: said })@ == (FailureView::ConfigUnparsable {
            path: path.bytes@,
            cause: said@,
        }),
        (Failure::Uninspectable { path, cause: said })@ == (FailureView::Uninspectable {
            path: path.bytes@,
            cause: said@,
        }),
        (Failure::Unreachable { path, cause: said })@ == (FailureView::Unreachable {
            path: path.bytes@,
            cause: said@,
        }),
        (Failure::InsecureParent { path, mode })@ == (FailureView::InsecureParent {
            path: path.bytes@,
            mode,
        }),
        (Failure::ConfigUnserializable(said))@ == FailureView::ConfigUnserializable(said@),
        (Failure::SetupNeeded(said))@ == FailureView::SetupNeeded(said@),
        (Failure::InvalidJson(said))@ == FailureView::InvalidJson(said@),
        (Failure::TdlibError(said))@ == FailureView::TdlibError(said@),
        (Failure::UnsupportedState(said))@ == FailureView::UnsupportedState(said@),
        (Failure::UnreadableAnswer(said))@ == FailureView::UnreadableAnswer(said@),
        (Failure::LogVerbosityRefused(said))@ == FailureView::LogVerbosityRefused(said@),
        (Failure::NoLibrary(said))@ == FailureView::NoLibrary(said@),
        (Failure::NoLibraryFound(said))@ == FailureView::NoLibraryFound(said@),
        (Failure::ConnectionFailed(said))@ == FailureView::ConnectionFailed(said@),
        (Failure::AcceptFailed(said))@ == FailureView::AcceptFailed(said@),
        (Failure::SignalFailed(said))@ == FailureView::SignalFailed(said@),
        (Failure::MissingSession(path))@ == FailureView::MissingSession(path.bytes@),
        (Failure::Missing(path))@ == FailureView::Missing(path.bytes@),
        (Failure::NotASocket(path))@ == FailureView::NotASocket(path.bytes@),
        (Failure::AlreadyRunning(path))@ == FailureView::AlreadyRunning(path.bytes@),
        (Failure::NotRemoved(path))@ == FailureView::NotRemoved(path.bytes@),
        (Failure::ParentNotDirectory(path))@ == FailureView::ParentNotDirectory(path.bytes@),
        (Failure::LibraryNotOpened(path))@ == FailureView::LibraryNotOpened(path.bytes@),
        (Failure::InvalidApiId(error))@ == FailureView::InvalidApiId(error),
        (Failure::MissingSymbol(symbol))@ == FailureView::MissingSymbol(symbol),
{
}

} // verus!
