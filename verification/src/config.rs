//! The configuration: the credentials in the config file, and the paths that go with them.
use crate::document;
use crate::failure::{Failure, FailureView};
use crate::paths;
use crate::paths::{OsPath, XdgPaths};
use crate::text;
use vstd::prelude::*;
use vstd::utf8::*;

verus! {

/// What the config file holds.
#[derive(Debug, PartialEq, Eq)]
pub struct FileConfig {
    pub api_id: Option<i64>,
    pub api_hash: Option<String>,
    pub database_dir: Option<OsPath>,
    pub files_dir: Option<OsPath>,
    pub socket_path: Option<OsPath>,
}

/// What the config file holds, in terms of characters and bytes.
pub struct FileConfigView {
    pub api_id: Option<i64>,
    pub api_hash: Option<Seq<char>>,
    pub database_dir: Option<Seq<u8>>,
    pub files_dir: Option<Seq<u8>>,
    pub socket_path: Option<Seq<u8>>,
}

impl View for FileConfig {
    type V = FileConfigView;

    open spec fn view(&self) -> FileConfigView {
        FileConfigView {
            api_id: self.api_id,
            api_hash: held_text(self.api_hash),
            database_dir: paths::optional_path(self.database_dir),
            files_dir: paths::optional_path(self.files_dir),
            socket_path: paths::optional_path(self.socket_path),
        }
    }
}

impl Default for FileConfig {
    /// The config of a user who has no config file.
    fn default() -> (file: FileConfig)
        ensures
            file.is_empty(),
    {
        FileConfig {
            api_id: None,
            api_hash: None,
            database_dir: None,
            files_dir: None,
            socket_path: None,
        }
    }
}

impl FileConfig {
    /// Whether nothing is configured.
    pub open spec fn is_empty(self) -> bool {
        &&& self.api_id is None
        &&& self.api_hash is None
        &&& self.database_dir is None
        &&& self.files_dir is None
        &&& self.socket_path is None
    }

    /// Whether all but the credentials is as in `other`.
    pub open spec fn same_paths(self, other: FileConfig) -> bool {
        &&& self.database_dir == other.database_dir
        &&& self.files_dir == other.files_dir
        &&& self.socket_path == other.socket_path
    }
}

/// The paths that the environment sets for a run.
#[derive(Debug, PartialEq, Eq)]
pub struct PathOverrides {
    /// `TDJSON_PATH`
    pub tdjson_path: Option<OsPath>,
    /// `TDLIB_DATABASE_DIR`
    pub database_dir: Option<OsPath>,
    /// `TDLIB_FILES_DIR`
    pub files_dir: Option<OsPath>,
    /// `TGDYK_SOCKET_PATH`
    pub socket_path: Option<OsPath>,
}

/// What a command works with.
#[derive(Debug, PartialEq, Eq)]
pub struct Config {
    pub config_file: OsPath,
    pub tdjson_path: Option<OsPath>,
    pub api_id: Option<i64>,
    pub api_hash: Option<String>,
    pub database_dir: OsPath,
    pub files_dir: OsPath,
    pub socket_path: OsPath,
}

/// What a command works with, in terms of characters and bytes.
pub struct ConfigView {
    pub config_file: Seq<u8>,
    pub tdjson_path: Option<Seq<u8>>,
    pub api_id: Option<i64>,
    pub api_hash: Option<Seq<char>>,
    pub database_dir: Seq<u8>,
    pub files_dir: Seq<u8>,
    pub socket_path: Seq<u8>,
}

impl View for Config {
    type V = ConfigView;

    open spec fn view(&self) -> ConfigView {
        ConfigView {
            config_file: self.config_file@,
            tdjson_path: paths::optional_path(self.tdjson_path),
            api_id: self.api_id,
            api_hash: held_text(self.api_hash),
            database_dir: self.database_dir@,
            files_dir: self.files_dir@,
            socket_path: self.socket_path@,
        }
    }
}

/// The view of a text that may be absent.
pub open spec fn held_text(held: Option<String>) -> Option<Seq<char>> {
    match held {
        Some(chars) => Some(chars@),
        None => None,
    }
}

impl Config {
    /// Whether there is an API hash that is not empty.
    pub open spec fn has_api_hash(self) -> bool {
        held_text(self.api_hash) matches Some(api_hash) && api_hash.len() > 0
    }

    /// Whether both credentials are there.
    pub open spec fn has_credentials(self) -> bool {
        self.api_id is Some && self.has_api_hash()
    }

    /// Whether the credentials are those of the file, the missing ones too.
    pub open spec fn agrees_with(self, file: FileConfig) -> bool {
        self.api_id == file.api_id && held_text(self.api_hash) == held_text(file.api_hash)
    }

    /// Whether all but the credentials is as in `other`.
    pub open spec fn same_paths(self, other: Config) -> bool {
        &&& self.config_file == other.config_file
        &&& self.tdjson_path == other.tdjson_path
        &&& self.database_dir == other.database_dir
        &&& self.files_dir == other.files_dir
        &&& self.socket_path == other.socket_path
    }

    fn hash_present(&self) -> (present: bool)
        ensures
            present == self.has_api_hash(),
    {
        match &self.api_hash {
            Some(api_hash) => !api_hash.as_str().is_empty(),
            None => false,
        }
    }

    /// The file that a TDLib session leaves in the database directory.
    pub fn session_file(&self) -> (path: OsPath)
        ensures
            path@ == paths::joined(self.database_dir@, encode_utf8("td.binlog"@)),
            path@ == session_file_in(self.database_dir@),
    {
        self.database_dir.join("td.binlog")
    }
}

/// The file that a TDLib session leaves in a database directory.
pub open spec fn session_file_in(database_dir: Seq<u8>) -> Seq<u8> {
    paths::joined(database_dir, encode_utf8("td.binlog"@))
}

/// The credentials, where both are there.
pub fn credentials(config: &Config) -> (found: Result<(i64, &str), Failure>)
    ensures
        match found {
            Ok((api_id, api_hash)) => {
                &&& config.has_credentials()
                &&& config.api_id == Some(api_id)
                &&& held_text(config.api_hash) == Some(api_hash@)
            },
            Err(failure) => {
                &&& !config.has_credentials()
                &&& failure@ == FailureView::MissingCredentials
            },
        },
{
    match (config.api_id, &config.api_hash) {
        (Some(api_id), Some(api_hash)) => {
            if api_hash.as_str().is_empty() {
                Err(Failure::MissingCredentials)
            } else {
                Ok((api_id, api_hash.as_str()))
            }
        },
        _ => Err(Failure::MissingCredentials),
    }
}

/// Whether a session can be resumed, given whether the session file exists.
pub fn require_existing_session(config: &Config, session_exists: bool) -> (found: Result<
    (),
    Failure,
>)
    ensures
        match found {
            Ok(()) => session_exists,
            Err(failure) => {
                &&& !session_exists
                &&& failure@ == FailureView::MissingSession(config.database_dir@)
            },
        },
{
    if session_exists {
        Ok(())
    } else {
        Err(Failure::MissingSession(config.database_dir.duplicate()))
    }
}

/// What came of reading the config file.
#[derive(Debug, PartialEq, Eq)]
pub enum ConfigRead {
    Missing,
    Unreadable(String),
    Text(String),
}

/// The config that a file at `path` gives, or why it gives none.
pub open spec fn config_at(path: Seq<u8>, read: ConfigRead) -> Result<FileConfigView, FailureView> {
    match read {
        ConfigRead::Missing => Ok(document::nothing_configured()),
        ConfigRead::Unreadable(cause) => Err(
            FailureView::ConfigUnreadable { path, cause: cause@ },
        ),
        ConfigRead::Text(source) => match document::parsed_config(source@) {
            Ok(file) => Ok(file),
            Err(cause) => Err(FailureView::ConfigUnparsable { path, cause }),
        },
    }
}

/// The config that a file at `path` gives: none at all is as good as an empty one.
pub fn read_file_config(path: &OsPath, read: &ConfigRead) -> (config: Result<FileConfig, Failure>)
    ensures
        match read {
            ConfigRead::Missing => config matches Ok(file) && file.is_empty(),
            ConfigRead::Unreadable(cause) => config matches Err(failure) && failure@
                == (FailureView::ConfigUnreadable { path: path@, cause: cause@ }),
            ConfigRead::Text(source) => match document::parsed_config(source@) {
                Ok(parsed) => config matches Ok(file) && file@ == parsed,
                Err(cause) => config matches Err(failure) && failure@
                    == (FailureView::ConfigUnparsable { path: path@, cause }),
            },
        },
        match config {
            Ok(file) => config_at(path@, *read) == Ok::<FileConfigView, FailureView>(file@),
            Err(failure) => config_at(path@, *read) == Err::<FileConfigView, FailureView>(failure@),
        },
{
    match read {
        ConfigRead::Missing => Ok(FileConfig::default()),
        ConfigRead::Unreadable(cause) => Err(
            Failure::ConfigUnreadable { path: path.duplicate(), cause: cause.clone() },
        ),
        ConfigRead::Text(source) => match document::parse_config(source.as_str()) {
            Ok(file) => Ok(file),
            Err(cause) => Err(Failure::ConfigUnparsable { path: path.duplicate(), cause }),
        },
    }
}

/// The config file that is in use: the one that the command line names, or the usual one.
pub open spec fn chosen_config(named: Option<OsPath>, usual: OsPath) -> Seq<u8> {
    match named {
        Some(path) => path@,
        None => usual@,
    }
}

/// The config file that is in use.
pub fn config_path(named: &Option<OsPath>, xdg: &XdgPaths) -> (path: OsPath)
    ensures
        path@ == chosen_config(*named, xdg.config_file),
{
    match named {
        Some(path) => path.duplicate(),
        None => xdg.config_file.duplicate(),
    }
}

/// The path that is in use: the one that the environment sets, or else the one that the config
/// file sets, or else the usual one.
pub open spec fn chosen_path(
    set: Option<OsPath>,
    configured: Option<OsPath>,
    usual: OsPath,
) -> Seq<u8> {
    match (set, configured) {
        (Some(path), _) => path@,
        (None, Some(path)) => path@,
        (None, None) => usual@,
    }
}

fn choose_path(set: Option<OsPath>, configured: Option<OsPath>, usual: OsPath) -> (path: OsPath)
    ensures
        path@ == chosen_path(set, configured, usual),
{
    match set {
        Some(path) => path,
        None => match configured {
            Some(path) => path,
            None => usual,
        },
    }
}

/// What a command works with, given what the command line, the environment and the config file
/// say, and what is usual.
pub open spec fn loaded(
    named: Option<OsPath>,
    overrides: PathOverrides,
    file: FileConfig,
    xdg: XdgPaths,
) -> ConfigView {
    ConfigView {
        config_file: chosen_config(named, xdg.config_file),
        tdjson_path: paths::optional_path(overrides.tdjson_path),
        api_id: file.api_id,
        api_hash: held_text(file.api_hash),
        database_dir: chosen_path(overrides.database_dir, file.database_dir, xdg.database_dir),
        files_dir: chosen_path(overrides.files_dir, file.files_dir, xdg.files_dir),
        socket_path: chosen_path(overrides.socket_path, file.socket_path, xdg.socket_path),
    }
}

/// Puts together what a command works with: the credentials from the config file, and each path
/// from the environment, the config file or the usual place.
pub fn load_config(
    named: &Option<OsPath>,
    overrides: PathOverrides,
    file: FileConfig,
    xdg: XdgPaths,
) -> (config: Config)
    ensures
        config.config_file@ == chosen_config(*named, xdg.config_file),
        config.tdjson_path == overrides.tdjson_path,
        config.agrees_with(file),
        config.database_dir@ == chosen_path(
            overrides.database_dir,
            file.database_dir,
            xdg.database_dir,
        ),
        config.files_dir@ == chosen_path(overrides.files_dir, file.files_dir, xdg.files_dir),
        config.socket_path@ == chosen_path(
            overrides.socket_path,
            file.socket_path,
            xdg.socket_path,
        ),
        config@ == loaded(*named, overrides, file, xdg),
{
    Config {
        config_file: config_path(named, &xdg),
        tdjson_path: overrides.tdjson_path,
        api_id: file.api_id,
        api_hash: file.api_hash,
        database_dir: choose_path(overrides.database_dir, file.database_dir, xdg.database_dir),
        files_dir: choose_path(overrides.files_dir, file.files_dir, xdg.files_dir),
        socket_path: choose_path(overrides.socket_path, file.socket_path, xdg.socket_path),
    }
}

/// What is written before the API ID is read.
pub const API_ID_PROMPT: &'static str = "Telegram API ID: ";

/// What is written before the API hash is read.
pub const API_HASH_PROMPT: &'static str = "Telegram API hash: ";

/// What is to be done next for the credentials.
#[derive(Clone, Copy, Debug, PartialEq, Eq, Structural)]
pub enum LoginStep {
    /// The credentials are there and stay as they are.
    Complete,
    /// The config file has to be read again.
    ReadConfig,
    /// The user has to be asked for the API ID.
    AskApiId,
    /// The user has to be asked for the API hash, which is not shown.
    AskApiHash,
    /// The credentials are there and have to be saved.
    Save,
}

/// What is to be done next: before the config file has been read again, and after that.
pub open spec fn login_step(config: Config, file_read: bool) -> LoginStep {
    if !file_read {
        if config.has_credentials() {
            LoginStep::Complete
        } else {
            LoginStep::ReadConfig
        }
    } else if config.api_id is None {
        LoginStep::AskApiId
    } else if !config.has_api_hash() {
        LoginStep::AskApiHash
    } else {
        LoginStep::Save
    }
}

/// What is to be done next to have credentials.
pub fn ensure_login_config(config: &Config, file_read: bool) -> (step: LoginStep)
    ensures
        step == login_step(*config, file_read),
{
    if !file_read {
        if config.api_id.is_some() && config.hash_present() {
            LoginStep::Complete
        } else {
            LoginStep::ReadConfig
        }
    } else if config.api_id.is_none() {
        LoginStep::AskApiId
    } else if !config.hash_present() {
        LoginStep::AskApiHash
    } else {
        LoginStep::Save
    }
}

/// The API ID in what the user typed, or why it is none.
pub open spec fn api_id_in(answer: Seq<char>) -> Result<i64, FailureView> {
    match text::integer_in(answer) {
        Ok(number) => Ok(number as i64),
        Err(error) => Err(FailureView::InvalidApiId(error)),
    }
}

/// The API hash in what the user typed, or why it is none.
pub open spec fn api_hash_in(answer: Seq<char>) -> Result<Seq<char>, FailureView> {
    if answer.len() > 0 {
        Ok(answer)
    } else {
        Err(FailureView::ApiHashRequired)
    }
}

/// Takes the API ID that the user typed, for this run and for the config file.
pub fn answer_api_id(config: &mut Config, file: &mut FileConfig, answer: &str) -> (taken: Result<
    (),
    Failure,
>)
    ensures
        match text::integer_in(answer@) {
            Ok(number) => {
                &&& taken is Ok
                &&& final(config).api_id == Some(number as i64)
                &&& final(file).api_id == Some(number as i64)
                &&& login_step(*final(config), true) != LoginStep::AskApiId
            },
            Err(error) => {
                &&& taken matches Err(failure)
                &&& failure@ == FailureView::InvalidApiId(error)
                &&& final(config).api_id == old(config).api_id
                &&& final(file).api_id == old(file).api_id
            },
        },
        final(config).same_paths(*old(config)),
        final(file).same_paths(*old(file)),
        final(config).api_hash == old(config).api_hash,
        final(file).api_hash == old(file).api_hash,
        match api_id_in(answer@) {
            Ok(api_id) => taken is Ok && final(config).api_id == Some(api_id) && final(file).api_id
                == Some(api_id),
            Err(told) => taken matches Err(failure) && failure@ == told,
        },
        old(config).agrees_with(*old(file)) ==> final(config).agrees_with(*final(file)),
{
    match text::parse_integer(answer) {
        Ok(api_id) => {
            config.api_id = Some(api_id);
            file.api_id = Some(api_id);
            Ok(())
        },
        Err(error) => Err(Failure::InvalidApiId(error)),
    }
}

/// Takes the API hash that the user typed, for this run and for the config file.
pub fn answer_api_hash(config: &mut Config, file: &mut FileConfig, answer: String) -> (taken:
    Result<(), Failure>)
    ensures
        if answer@.len() > 0 {
            &&& taken is Ok
            &&& held_text(final(config).api_hash) == Some(answer@)
            &&& held_text(final(file).api_hash) == Some(answer@)
            &&& login_step(*final(config), true) != LoginStep::AskApiHash
        } else {
            &&& taken matches Err(failure)
            &&& failure@ == FailureView::ApiHashRequired
            &&& final(config).api_hash == old(config).api_hash
            &&& final(file).api_hash == old(file).api_hash
        },
        final(config).same_paths(*old(config)),
        final(file).same_paths(*old(file)),
        final(config).api_id == old(config).api_id,
        final(file).api_id == old(file).api_id,
        match api_hash_in(answer@) {
            Ok(api_hash) => taken is Ok && held_text(final(config).api_hash) == Some(api_hash)
                && held_text(final(file).api_hash) == Some(api_hash),
            Err(told) => taken matches Err(failure) && failure@ == told,
        },
        old(config).agrees_with(*old(file)) ==> final(config).agrees_with(*final(file)),
{
    if answer.as_str().is_empty() {
        return Err(Failure::ApiHashRequired);
    }
    config.api_hash = Some(answer.clone());
    file.api_hash = Some(answer);
    Ok(())
}

/// How many credentials are missing.
pub open spec fn missing_credentials(config: Config) -> nat {
    (if config.api_id is None {
        1nat
    } else {
        0nat
    }) + (if config.has_api_hash() {
        0nat
    } else {
        1nat
    })
}

/// A login asks two questions at most, each for what is missing: a question is asked only while
/// a credential is missing, an answer that is taken leaves one fewer, and with none left the
/// credentials are saved.
pub proof fn logins_ask_for_what_is_missing(before: Config, after: Config)
    requires
        login_step(before, true) == LoginStep::AskApiId ==> after.api_id is Some && after.api_hash
            == before.api_hash,
        login_step(before, true) == LoginStep::AskApiHash ==> after.has_api_hash() && after.api_id
            == before.api_id,
    ensures
        missing_credentials(before) <= 2,
        login_step(before, true) == LoginStep::Save <==> missing_credentials(before) == 0,
        missing_credentials(before) > 0 ==> missing_credentials(after) == missing_credentials(
            before,
        ) - 1,
{
}

/// When the login is over, saved or not, the credentials are there: a command that asks for
/// them gets them.
pub proof fn login_ends_with_credentials(config: Config, file_read: bool)
    requires
        login_step(config, file_read) == LoginStep::Complete || login_step(config, file_read)
            == LoginStep::Save,
    ensures
        config.has_credentials(),
{
}

/// What is saved at the end of a login is found again: `body`, which was written for the config of
/// the login and so parses to it, gives the credentials of the login to whoever loads it.
pub proof fn saved_credentials_are_found_again(
    config: Config,
    file: FileConfig,
    body: Seq<char>,
    read: FileConfig,
    loaded: Config,
)
    requires
        login_step(config, true) == LoginStep::Save,
        config.agrees_with(file),
        document::parsed_config(body) == Ok::<FileConfigView, Seq<char>>(file@),
        document::parsed_config(body) == Ok::<FileConfigView, Seq<char>>(read@),
        loaded.agrees_with(read),
    ensures
        loaded.has_credentials(),
        loaded.api_id == config.api_id,
        held_text(loaded.api_hash) == held_text(config.api_hash),
        login_step(loaded, false) == LoginStep::Complete,
{
    assert(file@ == read@);
}

/// The credentials are there when there is an API ID, whatever it is, and an API hash of at least
/// one character; nothing else of the config matters.
pub proof fn credentials_are_an_id_and_a_hash(config: Config)
    ensures
        config.has_credentials() <==> config.api_id is Some && (config.api_hash matches Some(
            api_hash,
        ) && api_hash@.len() > 0),
        config.has_api_hash() <==> (config.api_hash matches Some(api_hash) && api_hash@.len() > 0),
{
}

/// A path that the environment sets is in use whatever the config file and the usual place are; one
/// that the config file sets is in use where the environment sets none; and the usual one is in use
/// where neither does.
pub proof fn the_environment_goes_before_the_file(
    set: OsPath,
    configured: OsPath,
    any: Option<OsPath>,
    usual: OsPath,
    other: OsPath,
)
    ensures
        chosen_path(Some(set), any, usual) == set.bytes@,
        chosen_path(Some(set), any, usual) == chosen_path(Some(set), None, other),
        chosen_path(None, Some(configured), usual) == configured.bytes@,
        chosen_path(None, Some(configured), usual) == chosen_path(None, Some(configured), other),
        chosen_path(None, None, usual) == usual.bytes@,
        chosen_config(Some(set), usual) == set.bytes@,
        chosen_config(Some(set), usual) == chosen_config(Some(set), other),
        chosen_config(None, usual) == usual.bytes@,
{
}

/// What a login does next: it leaves complete credentials alone; it reads the config file before
/// it asks for anything; it asks for the API ID where there is none, and for the API hash where
/// there is an API ID but no hash; and it saves when, and only when, both are there.
pub proof fn logins_go_step_by_step(config: Config, file_read: bool)
    ensures
        ({
            let id = config.api_id is Some;
            let hash = config.api_hash matches Some(api_hash) && api_hash@.len() > 0;
            let step = login_step(config, file_read);
            &&& step is Complete <==> !file_read && id && hash
            &&& step is ReadConfig <==> !file_read && !(id && hash)
            &&& step is AskApiId <==> file_read && !id
            &&& step is AskApiHash <==> file_read && id && !hash
            &&& step is Save <==> file_read && id && hash
        }),
{
}

/// Nothing but the credentials matters to a login, and of an API hash only whether it is empty.
pub proof fn logins_look_at_the_credentials_alone(left: Config, right: Config, file_read: bool)
    requires
        left.api_id is Some == right.api_id is Some,
        (left.api_hash matches Some(api_hash) && api_hash@.len() > 0) == (
        right.api_hash matches Some(api_hash) && api_hash@.len() > 0),
    ensures
        login_step(left, file_read) == login_step(right, file_read),
{
}

/// A config agrees with a file when both have the same API ID and the same API hash, or lack the
/// same; two configs have the same paths when all five are the same.
pub proof fn agreement_is_sameness(config: Config, other: Config, file: FileConfig, changed: FileConfig)
    ensures
        config.agrees_with(file) <==> config.api_id == file.api_id && match (
            config.api_hash,
            file.api_hash,
        ) {
            (Some(left), Some(right)) => left@ == right@,
            (None, None) => true,
            _ => false,
        },
        config.same_paths(other) <==> config.config_file == other.config_file
            && config.tdjson_path == other.tdjson_path && config.database_dir == other.database_dir
            && config.files_dir == other.files_dir && config.socket_path == other.socket_path,
        file.same_paths(changed) <==> file.database_dir == changed.database_dir && file.files_dir
            == changed.files_dir && file.socket_path == changed.socket_path,
        file.is_empty() <==> file.api_id is None && file.api_hash is None && file.database_dir is None
            && file.files_dir is None && file.socket_path is None,
{
}

/// The config of a file is seen as it is: each value is there where the file has it, with its own
/// characters or bytes.
pub proof fn file_configs_are_seen_as_they_are(file: FileConfig, held: String, path: OsPath)
    ensures
        file@.api_id == file.api_id,
        file@.api_hash is Some == file.api_hash is Some,
        file.api_hash == Some(held) ==> file@.api_hash == Some(held@),
        file@.database_dir is Some == file.database_dir is Some,
        file.database_dir == Some(path) ==> file@.database_dir == Some(path.bytes@),
        file@.files_dir is Some == file.files_dir is Some,
        file.files_dir == Some(path) ==> file@.files_dir == Some(path.bytes@),
        file@.socket_path is Some == file.socket_path is Some,
        file.socket_path == Some(path) ==> file@.socket_path == Some(path.bytes@),
        held_text(Some(held)) == Some(held@),
        held_text(None) is None,
        paths::optional_path(Some(path)) == Some(path.bytes@),
        paths::optional_path(None) is None,
{
}

/// What a command works with comes from one source for each value: the config file from the command
/// line or the usual place, the library from the environment alone, the credentials from the config
/// file alone, and each directory and the socket from the first of the environment, the config file
/// and the usual place that has it.
pub proof fn values_come_from_their_sources(
    named: Option<OsPath>,
    overrides: PathOverrides,
    file: FileConfig,
    xdg: XdgPaths,
)
    ensures
        ({
            let config = loaded(named, overrides, file, xdg);
            let first = |set: Option<OsPath>, configured: Option<OsPath>, usual: OsPath|
                match (set, configured) {
                    (Some(path), _) => path.bytes@,
                    (None, Some(path)) => path.bytes@,
                    (None, None) => usual.bytes@,
                };
            &&& config.config_file == first(named, None, xdg.config_file)
            &&& config.tdjson_path is Some == overrides.tdjson_path is Some
            &&& overrides.tdjson_path matches Some(path) ==> config.tdjson_path == Some(path.bytes@)
            &&& config.api_id == file.api_id
            &&& config.api_hash is Some == file.api_hash is Some
            &&& file.api_hash matches Some(api_hash) ==> config.api_hash == Some(api_hash@)
            &&& config.database_dir == first(
                overrides.database_dir,
                file.database_dir,
                xdg.database_dir,
            )
            &&& config.files_dir == first(overrides.files_dir, file.files_dir, xdg.files_dir)
            &&& config.socket_path == first(
                overrides.socket_path,
                file.socket_path,
                xdg.socket_path,
            )
        }),
{
}

/// A config is seen as it is.
pub proof fn configs_are_seen_as_they_are(config: Config, held: String, path: OsPath)
    ensures
        config@.config_file == config.config_file.bytes@,
        config@.tdjson_path is Some == config.tdjson_path is Some,
        config.tdjson_path == Some(path) ==> config@.tdjson_path == Some(path.bytes@),
        config@.api_id == config.api_id,
        config@.api_hash is Some == config.api_hash is Some,
        config.api_hash == Some(held) ==> config@.api_hash == Some(held@),
        config@.database_dir == config.database_dir.bytes@,
        config@.files_dir == config.files_dir.bytes@,
        config@.socket_path == config.socket_path.bytes@,
{
}

/// A config file that is missing is a config in which nothing is set; one that cannot be read or is
/// no config is a failure that names the file and says why; and any other gives what its text
/// gives, wherever it lies.
pub proof fn config_files_give_what_their_text_gives(
    path: Seq<u8>,
    other: Seq<u8>,
    cause: String,
    source: String,
)
    ensures
        config_at(path, ConfigRead::Missing) matches Ok(file) && file.api_id is None
            && file.api_hash is None && file.database_dir is None && file.files_dir is None
            && file.socket_path is None,
        config_at(path, ConfigRead::Unreadable(cause)) matches Err(failure) && failure
            == (FailureView::ConfigUnreadable { path, cause: cause@ }),
        match document::parsed_config(source@) {
            Ok(file) => config_at(path, ConfigRead::Text(source)) == config_at(
                other,
                ConfigRead::Text(source),
            ) && config_at(path, ConfigRead::Text(source)) == Ok::<FileConfigView, FailureView>(
                file,
            ),
            Err(said) => config_at(path, ConfigRead::Text(source)) matches Err(failure) && failure
                == (FailureView::ConfigUnparsable { path, cause: said }),
        },
{
}

/// The session is looked for under one name, directly in the database directory, whatever that is.
pub proof fn sessions_lie_in_the_database_directory(database_dir: Seq<u8>)
    ensures
        session_file_in(database_dir) == if database_dir.len() == 0 || database_dir.last() == 47 {
            database_dir + encode_utf8("td.binlog"@)
        } else {
            database_dir.push(47) + encode_utf8("td.binlog"@)
        },
{
    reveal_strlit("td.binlog");
    assert("td.binlog"@[0] == 't');
    let rest = "td.binlog"@;
    paths::lemma_no_separator_in_front(rest);
}

/// Any integer of 64 bits that the user types is taken as the API ID, and nothing else is; any text
/// of at least one character is taken as the API hash, as it is.
pub proof fn answers_are_taken_as_they_are(answer: Seq<char>, number: i64)
    ensures
        api_id_in(text::decimal(number as int)) == Ok::<i64, FailureView>(number),
        api_id_in(answer) matches Ok(read) ==> text::plain_digits(text::behind_sign(answer)) && read
            == text::signed_value(text::behind_sign(answer), text::is_negative(answer)),
        api_id_in(answer) matches Err(failure) ==> text::integer_in(answer) matches Err(error)
            && failure == FailureView::InvalidApiId(error),
        answer.len() > 0 ==> api_hash_in(answer) == Ok::<Seq<char>, FailureView>(answer),
        answer.len() == 0 ==> api_hash_in(answer) == Err::<Seq<char>, FailureView>(
            FailureView::ApiHashRequired,
        ),
{
    text::written_integers_read_back(number);
    text::integers_are_what_their_digits_stand_for(answer);
}

} // verus!
