//! The config file as a TOML document.
use crate::config;
use crate::config::{FileConfig, FileConfigView};
use crate::failure::{Failure, FailureView};
use crate::paths;
use crate::paths::OsPath;
use crate::text;
use vstd::prelude::*;
use vstd::utf8::*;

verus! {

/// A value in the config file, over texts `T`.
#[derive(Debug, PartialEq, Eq)]
pub enum ScalarOf<T> {
    Integer(i64),
    Text(T),
}

pub type Scalar = ScalarOf<String>;

pub type ScalarView = ScalarOf<Seq<char>>;

impl View for Scalar {
    type V = ScalarView;

    open spec fn view(&self) -> ScalarView {
        match self {
            Scalar::Integer(number) => ScalarView::Integer(*number),
            Scalar::Text(held) => ScalarView::Text(held@),
        }
    }
}

/// The views of keys and their values.
pub open spec fn entry_views(entries: Seq<(String, Scalar)>) -> Seq<(Seq<char>, ScalarView)> {
    entries.map_values(|entry: (String, Scalar)| (entry.0@, entry.1@))
}

/// The value under `key`: the last one, where there are more.
pub open spec fn entry_under(entries: Seq<(Seq<char>, ScalarView)>, key: Seq<char>) -> Option<
    ScalarView,
>
    decreases entries.len(),
{
    if entries.len() == 0 {
        None
    } else if entries.last().0 == key {
        Some(entries.last().1)
    } else {
        entry_under(entries.drop_last(), key)
    }
}

/// The keys at the top of a TOML document, in the order in which its table is walked, or the
/// message that says why the text is no document.
pub uninterp spec fn toml_keys(source: Seq<char>) -> Result<Seq<Seq<char>>, Seq<char>>;

/// The value under a key at the top of a TOML document, read as an `i64`: nothing where there is
/// none, and the message that says where and why where it is no such integer.
pub uninterp spec fn toml_integer(source: Seq<char>, key: Seq<char>) -> Option<
    Result<i64, Seq<char>>,
>;

/// The value under a key at the top of a TOML document, read as a string: nothing where there is
/// none, and the message that says where and why where it is no string.
pub uninterp spec fn toml_string(source: Seq<char>, key: Seq<char>) -> Option<
    Result<Seq<char>, Seq<char>>,
>;

/// The message that says where and why the value under a key at the top of a TOML document cannot
/// even be passed over; nothing where it can, or where there is none.
pub uninterp spec fn toml_fault(source: Seq<char>, key: Seq<char>) -> Option<Seq<char>>;

/// The text that `toml::to_string_pretty` writes for a table of integers and strings.
pub uninterp spec fn toml_text(entries: Seq<(Seq<char>, ScalarView)>) -> Seq<char>;

/// Whether a text is a document that holds `entries` and no other keys.
pub open spec fn reads_back(source: Seq<char>, entries: Seq<(Seq<char>, ScalarView)>) -> bool {
    &&& toml_keys(source) matches Ok(keys)
    &&& forall|key: Seq<char>| #[trigger]
        keys.contains(key) <==> entry_under(entries, key) is Some
    &&& forall|key: Seq<char>|
        match #[trigger] entry_under(entries, key) {
            Some(ScalarView::Integer(number)) => toml_integer(source, key) == Some(
                Ok::<i64, Seq<char>>(number),
            ),
            Some(ScalarView::Text(held)) => toml_string(source, key) == Some(
                Ok::<Seq<char>, Seq<char>>(held),
            ),
            None => true,
        }
}

/// The view of keys that were listed.
pub open spec fn keys_listed(listed: Result<Vec<String>, String>) -> Result<
    Seq<Seq<char>>,
    Seq<char>,
> {
    match listed {
        Ok(keys) => Ok(text::text_views(keys@)),
        Err(said) => Err(said@),
    }
}

/// The view of an integer that was looked for.
pub open spec fn integer_found(found: Option<Result<i64, String>>) -> Option<
    Result<i64, Seq<char>>,
> {
    match found {
        None => None,
        Some(Ok(number)) => Some(Ok(number)),
        Some(Err(said)) => Some(Err(said@)),
    }
}

/// The view of a text that was looked for.
pub open spec fn text_found(found: Option<Result<String, String>>) -> Option<
    Result<Seq<char>, Seq<char>>,
> {
    match found {
        None => None,
        Some(Ok(held)) => Some(Ok(held@)),
        Some(Err(said)) => Some(Err(said@)),
    }
}

/// Calls `toml::de::DeTable::parse`, and `to_string` on its error; gives the keys of the table in
/// its own order. What comes of it depends on the text alone; it is only named.
#[verifier::external_body]
fn list_keys(source: &str) -> (listed: Result<Vec<String>, String>)
    ensures
        keys_listed(listed) == toml_keys(source@),
{
    let parsed = toml::de::DeTable::parse(source).map_err(|error| error.to_string())?;
    Ok(parsed.get_ref().keys().map(|key| key.get_ref().to_string()).collect())
}

/// Calls `toml::de::DeTable::parse`, takes the value under `key`, and deserializes an `i64` from
/// it with `toml::de::ValueDeserializer`; an error is given the text and written with `to_string`.
/// There is no value in what is no document. What comes of it depends on the text and the key
/// alone; it is only named.
#[verifier::external_body]
fn find_integer(source: &str, key: &str) -> (found: Option<Result<i64, String>>)
    ensures
        integer_found(found) == toml_integer(source@, key@),
{
    let mut table = toml::de::DeTable::parse(source).ok()?.into_inner();
    let value = toml::de::ValueDeserializer::from(table.remove(key)?);
    let read: Result<i64, toml::de::Error> = serde::Deserialize::deserialize(value);
    Some(read.map_err(|mut error| {
        error.set_input(Some(source));
        error.to_string()
    }))
}

/// Calls `toml::de::DeTable::parse`, takes the value under `key`, and deserializes a `String` from
/// it with `toml::de::ValueDeserializer`; an error is given the text and written with `to_string`.
/// There is no value in what is no document. What comes of it depends on the text and the key
/// alone; it is only named.
#[verifier::external_body]
fn find_string(source: &str, key: &str) -> (found: Option<Result<String, String>>)
    ensures
        text_found(found) == toml_string(source@, key@),
{
    let mut table = toml::de::DeTable::parse(source).ok()?.into_inner();
    let value = toml::de::ValueDeserializer::from(table.remove(key)?);
    let read: Result<String, toml::de::Error> = serde::Deserialize::deserialize(value);
    Some(read.map_err(|mut error| {
        error.set_input(Some(source));
        error.to_string()
    }))
}

/// Calls `toml::de::DeTable::parse`, takes the value under `key`, and deserializes a
/// `serde::de::IgnoredAny` from it with `toml::de::ValueDeserializer`, which fails on numbers that
/// are too large; an error is given the text and written with `to_string`. What comes of it
/// depends on the text and the key alone; it is only named.
#[verifier::external_body]
fn find_fault(source: &str, key: &str) -> (fault: Option<String>)
    ensures
        config::held_text(fault) == toml_fault(source@, key@),
{
    let mut table = toml::de::DeTable::parse(source).ok()?.into_inner();
    let value = toml::de::ValueDeserializer::from(table.remove(key)?);
    let read: Result<serde::de::IgnoredAny, toml::de::Error> = serde::Deserialize::deserialize(value);
    read.err().map(|mut error| {
        error.set_input(Some(source));
        error.to_string()
    })
}

/// Calls `toml::to_string_pretty` for a `toml::Table` into which these entries are put, in this
/// order, a later value under a key in the place of an earlier one. A table of integers and
/// strings is always written. The text depends on the entries alone and is only named; read as a
/// document, it holds these entries, whatever their keys and texts are: those are quoted and
/// escaped where they have to be.
#[verifier::external_body]
fn write_document(entries: Vec<(String, Scalar)>) -> (written: Result<String, String>)
    ensures
        written is Ok,
        written->Ok_0@ == toml_text(entry_views(entries@)),
        reads_back(written->Ok_0@, entry_views(entries@)),
{
    let values = entries.into_iter().map(
        |entry: (String, Scalar)|
            match entry.1 {
                Scalar::Integer(number) => (entry.0, toml::Value::Integer(number)),
                Scalar::Text(held) => (entry.0, toml::Value::String(held)),
            },
    );
    toml::to_string_pretty(&values.collect::<toml::Table>()).map_err(|error| error.to_string())
}

/// What was found under one key of a config file, over texts `T`: under a known key nothing, a
/// value, or why the value is of the wrong kind; under any other why it cannot be passed over,
/// where it cannot.
#[derive(Debug, PartialEq, Eq)]
pub enum FindingOf<T> {
    ApiId(Option<Result<i64, T>>),
    ApiHash(Option<Result<T, T>>),
    DatabaseDir(Option<Result<T, T>>),
    FilesDir(Option<Result<T, T>>),
    SocketPath(Option<Result<T, T>>),
    Other(Option<T>),
}

pub type Finding = FindingOf<String>;

pub type FindingView = FindingOf<Seq<char>>;

impl View for Finding {
    type V = FindingView;

    open spec fn view(&self) -> FindingView {
        match self {
            Finding::ApiId(found) => FindingView::ApiId(integer_found(*found)),
            Finding::ApiHash(found) => FindingView::ApiHash(text_found(*found)),
            Finding::DatabaseDir(found) => FindingView::DatabaseDir(text_found(*found)),
            Finding::FilesDir(found) => FindingView::FilesDir(text_found(*found)),
            Finding::SocketPath(found) => FindingView::SocketPath(text_found(*found)),
            Finding::Other(fault) => FindingView::Other(config::held_text(*fault)),
        }
    }
}

/// The views of what was found under several keys.
pub open spec fn finding_views(findings: Seq<Finding>) -> Seq<FindingView> {
    findings.map_values(|finding: Finding| finding@)
}

/// The value that is in force once another one was looked for: the one that was found, or the old
/// one, or why what was found is none.
pub open spec fn replaced<A>(held: Option<A>, found: Option<Result<A, Seq<char>>>) -> Result<
    Option<A>,
    Seq<char>,
> {
    match found {
        None => Ok(held),
        Some(Ok(value)) => Ok(Some(value)),
        Some(Err(said)) => Err(said),
    }
}

/// A path that was looked for, where the text was found that writes it.
pub open spec fn path_found(found: Option<Result<Seq<char>, Seq<char>>>) -> Option<
    Result<Seq<u8>, Seq<char>>,
> {
    match found {
        None => None,
        Some(Ok(held)) => Some(Ok(encode_utf8(held))),
        Some(Err(said)) => Some(Err(said)),
    }
}

/// A config with one more finding taken in, or why that cannot be.
pub open spec fn config_with(file: FileConfigView, finding: FindingView) -> Result<
    FileConfigView,
    Seq<char>,
> {
    match finding {
        FindingView::ApiId(found) => match replaced(file.api_id, found) {
            Ok(api_id) => Ok(FileConfigView { api_id, ..file }),
            Err(said) => Err(said),
        },
        FindingView::ApiHash(found) => match replaced(file.api_hash, found) {
            Ok(api_hash) => Ok(FileConfigView { api_hash, ..file }),
            Err(said) => Err(said),
        },
        FindingView::DatabaseDir(found) => match replaced(file.database_dir, path_found(found)) {
            Ok(database_dir) => Ok(FileConfigView { database_dir, ..file }),
            Err(said) => Err(said),
        },
        FindingView::FilesDir(found) => match replaced(file.files_dir, path_found(found)) {
            Ok(files_dir) => Ok(FileConfigView { files_dir, ..file }),
            Err(said) => Err(said),
        },
        FindingView::SocketPath(found) => match replaced(file.socket_path, path_found(found)) {
            Ok(socket_path) => Ok(FileConfigView { socket_path, ..file }),
            Err(said) => Err(said),
        },
        FindingView::Other(None) => Ok(file),
        FindingView::Other(Some(said)) => Err(said),
    }
}

/// The config in which nothing is set.
pub open spec fn nothing_configured() -> FileConfigView {
    FileConfigView {
        api_id: None,
        api_hash: None,
        database_dir: None,
        files_dir: None,
        socket_path: None,
    }
}

/// The config that a file gives in which this was found, key after key, or what is told of the
/// first fault in it.
pub open spec fn config_in(findings: Seq<FindingView>) -> Result<FileConfigView, Seq<char>>
    decreases findings.len(),
{
    if findings.len() == 0 {
        Ok(nothing_configured())
    } else {
        match config_in(findings.drop_last()) {
            Ok(file) => config_with(file, findings.last()),
            Err(said) => Err(said),
        }
    }
}

/// What is found in a text under `key`, which is known or not.
pub open spec fn finding_in(source: Seq<char>, key: Seq<char>) -> FindingView {
    if key == "api_id"@ {
        FindingView::ApiId(toml_integer(source, key))
    } else if key == "api_hash"@ {
        FindingView::ApiHash(toml_string(source, key))
    } else if key == "database_dir"@ {
        FindingView::DatabaseDir(toml_string(source, key))
    } else if key == "files_dir"@ {
        FindingView::FilesDir(toml_string(source, key))
    } else if key == "socket_path"@ {
        FindingView::SocketPath(toml_string(source, key))
    } else {
        FindingView::Other(toml_fault(source, key))
    }
}

/// What is found in a text under each of `keys`.
pub open spec fn findings_in(source: Seq<char>, keys: Seq<Seq<char>>) -> Seq<FindingView> {
    keys.map_values(|key: Seq<char>| finding_in(source, key))
}

/// The config that a file with the text `source` gives, or what is told of its first fault: it has
/// to be a document, and each value under a known key has to be of its kind. Other keys are passed
/// over.
pub open spec fn parsed_config(source: Seq<char>) -> Result<FileConfigView, Seq<char>> {
    match toml_keys(source) {
        Ok(keys) => config_in(findings_in(source, keys)),
        Err(said) => Err(said),
    }
}

fn take_text(held: &mut Option<String>, found: &Option<Result<String, String>>) -> (taken: Result<
    (),
    String,
>)
    ensures
        match replaced(config::held_text(*old(held)), text_found(*found)) {
            Ok(value) => taken is Ok && config::held_text(*final(held)) == value,
            Err(said) => taken matches Err(told) && told@ == said && *final(held) == *old(held),
        },
{
    match found {
        None => Ok(()),
        Some(Ok(value)) => {
            *held = Some(value.clone());
            Ok(())
        },
        Some(Err(said)) => Err(said.clone()),
    }
}

fn take_path(held: &mut Option<OsPath>, found: &Option<Result<String, String>>) -> (taken: Result<
    (),
    String,
>)
    ensures
        match replaced(paths::optional_path(*old(held)), path_found(text_found(*found))) {
            Ok(value) => taken is Ok && paths::optional_path(*final(held)) == value,
            Err(said) => taken matches Err(told) && told@ == said && *final(held) == *old(held),
        },
{
    match found {
        None => Ok(()),
        Some(Ok(value)) => {
            *held = Some(OsPath::from_name(value.as_str()));
            Ok(())
        },
        Some(Err(said)) => Err(said.clone()),
    }
}

fn take_finding(file: &mut FileConfig, finding: &Finding) -> (taken: Result<(), String>)
    ensures
        match config_with(old(file)@, finding@) {
            Ok(wanted) => taken is Ok && final(file)@ == wanted,
            Err(said) => taken matches Err(told) && told@ == said,
        },
{
    match finding {
        Finding::ApiId(None) => Ok(()),
        Finding::ApiId(Some(Ok(number))) => {
            file.api_id = Some(*number);
            Ok(())
        },
        Finding::ApiId(Some(Err(said))) => Err(said.clone()),
        Finding::ApiHash(found) => take_text(&mut file.api_hash, found),
        Finding::DatabaseDir(found) => take_path(&mut file.database_dir, found),
        Finding::FilesDir(found) => take_path(&mut file.files_dir, found),
        Finding::SocketPath(found) => take_path(&mut file.socket_path, found),
        Finding::Other(None) => Ok(()),
        Finding::Other(Some(said)) => Err(said.clone()),
    }
}

/// What stops the reading of a prefix stops the reading of the whole.
proof fn lemma_first_fault(findings: Seq<FindingView>, length: int)
    requires
        0 <= length <= findings.len(),
    ensures
        config_in(findings.take(length)) matches Err(said) ==> config_in(findings) == Err::<
            FileConfigView,
            Seq<char>,
        >(said),
    decreases findings.len() - length,
{
    if length == findings.len() {
        assert(findings.take(length) =~= findings);
    } else {
        assert(findings.take(length + 1).drop_last() =~= findings.take(length));
        lemma_first_fault(findings, length + 1);
    }
}

/// Puts together the config of a file in which this was found, key after key.
pub fn config_found(findings: &Vec<Finding>) -> (parsed: Result<FileConfig, String>)
    ensures
        match parsed {
            Ok(file) => config_in(finding_views(findings@)) == Ok::<FileConfigView, Seq<char>>(
                file@,
            ),
            Err(said) => config_in(finding_views(findings@)) == Err::<FileConfigView, Seq<char>>(
                said@,
            ),
        },
{
    let ghost views = finding_views(findings@);
    let mut file = FileConfig::default();
    let mut at: usize = 0;
    assert(file@ == nothing_configured());
    while at < findings.len()
        invariant
            at <= findings.len(),
            views == finding_views(findings@),
            config_in(views.take(at as int)) == Ok::<FileConfigView, Seq<char>>(file@),
        decreases findings.len() - at,
    {
        proof {
            assert(views.take(at + 1).drop_last() =~= views.take(at as int));
            assert(views.take(at + 1).last() == findings[at as int]@);
            lemma_first_fault(views, at + 1);
        }
        if let Err(said) = take_finding(&mut file, &findings[at]) {
            return Err(said);
        }
        at += 1;
    }
    assert(views.take(at as int) =~= views);
    Ok(file)
}

fn find(source: &str, key: &str) -> (finding: Finding)
    ensures
        finding@ == finding_in(source@, key@),
{
    if text::same_text(key, "api_id") {
        Finding::ApiId(find_integer(source, key))
    } else if text::same_text(key, "api_hash") {
        Finding::ApiHash(find_string(source, key))
    } else if text::same_text(key, "database_dir") {
        Finding::DatabaseDir(find_string(source, key))
    } else if text::same_text(key, "files_dir") {
        Finding::FilesDir(find_string(source, key))
    } else if text::same_text(key, "socket_path") {
        Finding::SocketPath(find_string(source, key))
    } else {
        Finding::Other(find_fault(source, key))
    }
}

/// Reads the text of a config file.
pub fn parse_config(source: &str) -> (parsed: Result<FileConfig, String>)
    ensures
        match parsed {
            Ok(file) => parsed_config(source@) == Ok::<FileConfigView, Seq<char>>(file@),
            Err(said) => parsed_config(source@) == Err::<FileConfigView, Seq<char>>(said@),
        },
{
    let keys = match list_keys(source) {
        Ok(keys) => keys,
        Err(said) => return Err(said),
    };
    let ghost names = text::text_views(keys@);
    let mut findings: Vec<Finding> = Vec::new();
    let mut at: usize = 0;
    while at < keys.len()
        invariant
            at <= keys.len(),
            names == text::text_views(keys@),
            finding_views(findings@) == findings_in(source@, names.take(at as int)),
        decreases keys.len() - at,
    {
        let ghost before = findings@;
        let finding = find(source, keys[at].as_str());
        findings.push(finding);
        proof {
            assert(names.take(at + 1) =~= names.take(at as int).push(keys[at as int]@));
            assert(finding_views(findings@) =~= finding_views(before).push(finding@));
            assert(findings_in(source@, names.take(at + 1)) =~= findings_in(
                source@,
                names.take(at as int),
            ).push(finding@));
        }
        at += 1;
    }
    assert(names.take(at as int) =~= names);
    config_found(&findings)
}

/// The entry of an integer, where there is one.
pub open spec fn integer_entry(key: Seq<char>, number: Option<i64>) -> Seq<
    (Seq<char>, ScalarView),
> {
    match number {
        Some(number) => seq![(key, ScalarView::Integer(number))],
        None => Seq::empty(),
    }
}

/// The entry of a text, where there is one.
pub open spec fn text_entry(key: Seq<char>, held: Option<Seq<char>>) -> Seq<
    (Seq<char>, ScalarView),
> {
    match held {
        Some(held) => seq![(key, ScalarView::Text(held))],
        None => Seq::empty(),
    }
}

/// The entry of a path, where there is one.
pub open spec fn path_entry(key: Seq<char>, path: Option<Seq<u8>>) -> Seq<
    (Seq<char>, ScalarView),
> {
    match path {
        Some(path) => text_entry(key, Some(decode_utf8(path))),
        None => Seq::empty(),
    }
}

/// The entries of the config file, in the order in which they are written.
pub open spec fn stored(file: FileConfigView) -> Seq<(Seq<char>, ScalarView)> {
    integer_entry("api_id"@, file.api_id) + text_entry("api_hash"@, file.api_hash) + path_entry(
        "database_dir"@,
        file.database_dir,
    ) + path_entry("files_dir"@, file.files_dir) + path_entry("socket_path"@, file.socket_path)
}

/// Whether a path, where there is one, is a text.
pub open spec fn is_text(path: Option<Seq<u8>>) -> bool {
    path matches Some(bytes) ==> valid_utf8(bytes)
}

/// Whether a config can be written: TOML has no way to write a path that is no text.
pub open spec fn storable(file: FileConfigView) -> bool {
    is_text(file.database_dir) && is_text(file.files_dir) && is_text(file.socket_path)
}

proof fn lemma_entries_in_two(
    first: Seq<(Seq<char>, ScalarView)>,
    second: Seq<(Seq<char>, ScalarView)>,
    key: Seq<char>,
)
    ensures
        entry_under(first + second, key) == match entry_under(second, key) {
            Some(held) => Some(held),
            None => entry_under(first, key),
        },
    decreases second.len(),
{
    if second.len() == 0 {
        assert(first + second =~= first);
    } else {
        assert((first + second).drop_last() =~= first + second.drop_last());
        lemma_entries_in_two(first, second.drop_last(), key);
    }
}

/// A single entry is found under its own key alone.
proof fn lemma_single_entry(entry: (Seq<char>, ScalarView), key: Seq<char>)
    ensures
        entry_under(seq![entry], key) == if entry.0 == key {
            Some(entry.1)
        } else {
            None
        },
        entry_under(Seq::empty(), key) is None,
{
    assert(seq![entry].drop_last() =~= Seq::empty());
    reveal_with_fuel(entry_under, 2);
}

/// What the entries of a config hold under `key`.
proof fn lemma_stored(file: FileConfigView, key: Seq<char>)
    ensures
        entry_under(stored(file), key) == if key == "api_id"@ {
            match file.api_id {
                Some(number) => Some(ScalarView::Integer(number)),
                None => None,
            }
        } else if key == "api_hash"@ {
            stored_text(file.api_hash)
        } else if key == "database_dir"@ {
            stored_text(text_of(file.database_dir))
        } else if key == "files_dir"@ {
            stored_text(text_of(file.files_dir))
        } else if key == "socket_path"@ {
            stored_text(text_of(file.socket_path))
        } else {
            None
        },
{
    lemma_keys_differ();
    let a = integer_entry("api_id"@, file.api_id);
    let b = text_entry("api_hash"@, file.api_hash);
    let c = path_entry("database_dir"@, file.database_dir);
    let d = path_entry("files_dir"@, file.files_dir);
    let e = path_entry("socket_path"@, file.socket_path);
    assert forall|entry: (Seq<char>, ScalarView)|
        entry_under(#[trigger] seq![entry], key) == (if entry.0 == key {
            Some(entry.1)
        } else {
            None
        }) by {
        lemma_single_entry(entry, key);
    }
    assert(entry_under(Seq::empty(), key) is None);
    lemma_entries_in_two(a + b + c + d, e, key);
    lemma_entries_in_two(a + b + c, d, key);
    lemma_entries_in_two(a + b, c, key);
    lemma_entries_in_two(a, b, key);
}

/// The text of a path that is one.
spec fn text_of(path: Option<Seq<u8>>) -> Option<Seq<char>> {
    match path {
        Some(bytes) => Some(decode_utf8(bytes)),
        None => None,
    }
}

/// The value of a text that is there.
spec fn stored_text(held: Option<Seq<char>>) -> Option<ScalarView> {
    match held {
        Some(held) => Some(ScalarView::Text(held)),
        None => None,
    }
}

/// What is left of a config under these keys.
spec fn restricted(file: FileConfigView, keys: Seq<Seq<char>>) -> FileConfigView {
    FileConfigView {
        api_id: if keys.contains("api_id"@) {
            file.api_id
        } else {
            None
        },
        api_hash: if keys.contains("api_hash"@) {
            file.api_hash
        } else {
            None
        },
        database_dir: if keys.contains("database_dir"@) {
            file.database_dir
        } else {
            None
        },
        files_dir: if keys.contains("files_dir"@) {
            file.files_dir
        } else {
            None
        },
        socket_path: if keys.contains("socket_path"@) {
            file.socket_path
        } else {
            None
        },
    }
}

/// The known keys differ from each other.
proof fn lemma_keys_differ()
    ensures
        "api_id"@.len() == 6,
        "api_hash"@.len() == 8,
        "database_dir"@.len() == 12,
        "files_dir"@.len() == 9,
        "socket_path"@.len() == 11,
{
    reveal_strlit("api_id");
    reveal_strlit("api_hash");
    reveal_strlit("database_dir");
    reveal_strlit("files_dir");
    reveal_strlit("socket_path");
}

/// A key of a config that was written takes in what the config has under it.
proof fn lemma_stored_key(file: FileConfigView, source: Seq<char>, keys: Seq<Seq<char>>)
    requires
        storable(file),
        reads_back(source, stored(file)),
        keys.len() > 0,
        entry_under(stored(file), keys.last()) is Some,
    ensures
        config_with(restricted(file, keys.drop_last()), finding_in(source, keys.last())) == Ok::<
            FileConfigView,
            Seq<char>,
        >(restricted(file, keys)),
{
    let key = keys.last();
    let shorter = keys.drop_last();
    lemma_keys_differ();
    lemma_stored(file, key);
    if let Some(path) = file.database_dir {
        decode_utf8_encode_utf8(path);
    }
    if let Some(path) = file.files_dir {
        decode_utf8_encode_utf8(path);
    }
    if let Some(path) = file.socket_path {
        decode_utf8_encode_utf8(path);
    }
    assert(keys =~= shorter.push(key));
    assert forall|name: Seq<char>| keys.contains(name) <==> shorter.contains(name) || name
        == key by {
        if shorter.contains(name) {
            let at = choose|at: int| 0 <= at < shorter.len() && shorter[at] == name;
            assert(keys[at] == name);
        }
        if name == key {
            assert(keys[keys.len() - 1] == name);
        }
    }
}

proof fn lemma_stored_keys(file: FileConfigView, source: Seq<char>, keys: Seq<Seq<char>>)
    requires
        storable(file),
        reads_back(source, stored(file)),
        forall|i: int|
            0 <= i < keys.len() ==> entry_under(stored(file), #[trigger] keys[i]) is Some,
    ensures
        config_in(findings_in(source, keys)) == Ok::<FileConfigView, Seq<char>>(
            restricted(file, keys),
        ),
    decreases keys.len(),
{
    let findings = findings_in(source, keys);
    if keys.len() > 0 {
        let shorter = keys.drop_last();
        assert forall|i: int| 0 <= i < shorter.len() implies entry_under(
            stored(file),
            #[trigger] shorter[i],
        ) is Some by {
            assert(shorter[i] == keys[i]);
        }
        lemma_stored_keys(file, source, shorter);
        lemma_stored_key(file, source, keys);
        assert(findings.drop_last() =~= findings_in(source, shorter));
        assert(findings.last() == finding_in(source, keys.last()));
    }
}

/// A text that holds the entries of a config is read as that config.
proof fn lemma_stored_configs_parse(file: FileConfigView, source: Seq<char>)
    requires
        storable(file),
        reads_back(source, stored(file)),
    ensures
        parsed_config(source) == Ok::<FileConfigView, Seq<char>>(file),
{
    let keys = toml_keys(source)->Ok_0;
    assert forall|i: int| 0 <= i < keys.len() implies entry_under(
        stored(file),
        #[trigger] keys[i],
    ) is Some by {
        assert(keys.contains(keys[i]));
    }
    lemma_stored_keys(file, source, keys);
    lemma_keys_differ();
    lemma_stored(file, "api_id"@);
    lemma_stored(file, "api_hash"@);
    lemma_stored(file, "database_dir"@);
    lemma_stored(file, "files_dir"@);
    lemma_stored(file, "socket_path"@);
    assert(restricted(file, keys) == file);
}

fn push_text(entries: &mut Vec<(String, Scalar)>, key: &str, held: &Option<String>)
    ensures
        entry_views(final(entries)@) == entry_views(old(entries)@) + text_entry(
            key@,
            config::held_text(*held),
        ),
{
    if let Some(held) = held {
        entries.push((key.to_owned(), Scalar::Text(held.clone())));
    }
    assert(entry_views(entries@) =~= entry_views(old(entries)@) + text_entry(
        key@,
        config::held_text(*held),
    ));
}

/// Adds the entry of a path, unless the path is no text.
fn push_path(entries: &mut Vec<(String, Scalar)>, key: &str, path: &Option<OsPath>) -> (pushed:
    bool)
    ensures
        pushed == is_text(paths::optional_path(*path)),
        pushed ==> entry_views(final(entries)@) == entry_views(old(entries)@) + path_entry(
            key@,
            paths::optional_path(*path),
        ),
{
    match path {
        Some(path) => match path.text() {
            Some(held) => {
                push_text(entries, key, &Some(held));
                true
            },
            None => false,
        },
        None => {
            assert(entry_views(entries@) =~= entry_views(old(entries)@) + Seq::empty());
            true
        },
    }
}

fn unwritable() -> (failure: Failure)
    ensures
        failure@ == FailureView::ConfigUnserializable("path contains invalid UTF-8 characters"@),
{
    Failure::ConfigUnserializable("path contains invalid UTF-8 characters".to_owned())
}

/// The entries of the config file.
pub fn config_entries(file: &FileConfig) -> (entries: Result<Vec<(String, Scalar)>, Failure>)
    ensures
        match entries {
            Ok(entries) => storable(file@) && entry_views(entries@) == stored(file@),
            Err(failure) => !storable(file@) && failure@ == FailureView::ConfigUnserializable(
                "path contains invalid UTF-8 characters"@,
            ),
        },
{
    let mut entries: Vec<(String, Scalar)> = Vec::new();
    if let Some(api_id) = file.api_id {
        entries.push(("api_id".to_owned(), Scalar::Integer(api_id)));
    }
    assert(entry_views(entries@) =~= integer_entry("api_id"@, file@.api_id));
    push_text(&mut entries, "api_hash", &file.api_hash);
    if !push_path(&mut entries, "database_dir", &file.database_dir) {
        return Err(unwritable());
    }
    if !push_path(&mut entries, "files_dir", &file.files_dir) {
        return Err(unwritable());
    }
    if !push_path(&mut entries, "socket_path", &file.socket_path) {
        return Err(unwritable());
    }
    assert(entry_views(entries@) =~= stored(file@));
    Ok(entries)
}

/// Writes the text of a config file, which reads back as the same config.
pub fn config_text(file: &FileConfig) -> (written: Result<String, Failure>)
    ensures
        match written {
            Ok(body) => {
                &&& storable(file@)
                &&& body@ == toml_text(stored(file@))
                &&& parsed_config(body@) == Ok::<FileConfigView, Seq<char>>(file@)
            },
            Err(failure) => {
                &&& !storable(file@)
                &&& failure@ == FailureView::ConfigUnserializable(
                    "path contains invalid UTF-8 characters"@,
                )
            },
        },
{
    let entries = match config_entries(file) {
        Ok(entries) => entries,
        Err(failure) => return Err(failure),
    };
    match write_document(entries) {
        Ok(body) => {
            proof {
                lemma_stored_configs_parse(file@, body@);
            }
            Ok(body)
        },
        Err(cause) => Err(Failure::ConfigUnserializable(cause)),
    }
}

/// Why the value under `key` cannot be taken, where it cannot: a known key needs a value of its kind,
/// any other one a value that can be passed over.
pub open spec fn fault_under(source: Seq<char>, key: Seq<char>) -> Option<Seq<char>> {
    if key == "api_id"@ {
        match toml_integer(source, key) {
            Some(Err(said)) => Some(said),
            _ => None,
        }
    } else if key == "api_hash"@ || key == "database_dir"@ || key == "files_dir"@ || key
        == "socket_path"@ {
        match toml_string(source, key) {
            Some(Err(said)) => Some(said),
            _ => None,
        }
    } else {
        toml_fault(source, key)
    }
}

/// The text under `key`, where `keys` hold it and it is a string.
pub open spec fn text_under_key(source: Seq<char>, keys: Seq<Seq<char>>, key: Seq<char>) -> Option<
    Seq<char>,
> {
    if keys.contains(key) {
        match toml_string(source, key) {
            Some(Ok(held)) => Some(held),
            _ => None,
        }
    } else {
        None
    }
}

/// Whether a config has, under each key, what the document has there, and nothing where the
/// document has nothing.
pub open spec fn holds_what_is_there(
    file: FileConfigView,
    source: Seq<char>,
    keys: Seq<Seq<char>>,
) -> bool {
    &&& file.api_id == integer_under_key(source, keys, "api_id"@)
    &&& file.api_hash == text_under_key(source, keys, "api_hash"@)
    &&& match text_under_key(source, keys, "database_dir"@) {
        Some(held) => file.database_dir == Some(encode_utf8(held)),
        None => file.database_dir is None,
    }
    &&& match text_under_key(source, keys, "files_dir"@) {
        Some(held) => file.files_dir == Some(encode_utf8(held)),
        None => file.files_dir is None,
    }
    &&& match text_under_key(source, keys, "socket_path"@) {
        Some(held) => file.socket_path == Some(encode_utf8(held)),
        None => file.socket_path is None,
    }
}

/// The integer under `key`, where `keys` hold it and it is an integer.
pub open spec fn integer_under_key(
    source: Seq<char>,
    keys: Seq<Seq<char>>,
    key: Seq<char>,
) -> Option<i64> {
    if keys.contains(key) {
        match toml_integer(source, key) {
            Some(Ok(number)) => Some(number),
            _ => None,
        }
    } else {
        None
    }
}

/// A text that is no document gives no config, and what is told is why it is none. A document gives
/// a config exactly where no value in it is at fault, and then each value of the config is the one
/// under its own key: the others do not matter to it.
pub proof fn configs_hold_what_the_document_has(source: Seq<char>, keys: Seq<Seq<char>>)
    ensures
        toml_keys(source) matches Err(said) ==> parsed_config(source) == Err::<
            FileConfigView,
            Seq<char>,
        >(said),
        toml_keys(source) == Ok::<Seq<Seq<char>>, Seq<char>>(keys) ==> {
            &&& parsed_config(source) is Ok <==> forall|i: int|
                0 <= i < keys.len() ==> fault_under(source, #[trigger] keys[i]) is None
            &&& parsed_config(source) matches Ok(file) ==> holds_what_is_there(file, source, keys)
        },
{
    lemma_config_in_keys(source, keys);
}

/// Of several faults the first is told, in the order in which the keys of the document are walked.
pub proof fn the_first_fault_is_told(source: Seq<char>, keys: Seq<Seq<char>>, at: int)
    requires
        toml_keys(source) == Ok::<Seq<Seq<char>>, Seq<char>>(keys),
        0 <= at < keys.len(),
        forall|i: int| 0 <= i < at ==> fault_under(source, #[trigger] keys[i]) is None,
        fault_under(source, keys[at]) is Some,
    ensures
        parsed_config(source) == Err::<FileConfigView, Seq<char>>(
            fault_under(source, keys[at])->0,
        ),
{
    let findings = findings_in(source, keys);
    let before = keys.take(at);
    lemma_config_in_keys(source, before);
    assert(findings_in(source, before) =~= findings.take(at));
    assert forall|i: int| 0 <= i < before.len() implies fault_under(
        source,
        #[trigger] before[i],
    ) is None by {
        assert(before[i] == keys[i]);
    }
    let next = findings.take(at + 1);
    assert(next.drop_last() =~= findings.take(at));
    assert(next.last() == finding_in(source, keys[at]));
    lemma_keys_differ();
    assert(config_in(next) == Err::<FileConfigView, Seq<char>>(fault_under(source, keys[at])->0));
    lemma_first_fault(findings, at + 1);
}

proof fn lemma_config_in_keys(source: Seq<char>, keys: Seq<Seq<char>>)
    ensures
        config_in(findings_in(source, keys)) is Ok <==> forall|i: int|
            0 <= i < keys.len() ==> fault_under(source, #[trigger] keys[i]) is None,
        config_in(findings_in(source, keys)) matches Ok(file) ==> holds_what_is_there(
            file,
            source,
            keys,
        ),
    decreases keys.len(),
{
    let findings = findings_in(source, keys);
    lemma_keys_differ();
    if keys.len() > 0 {
        let shorter = keys.drop_last();
        let key = keys.last();
        lemma_config_in_keys(source, shorter);
        assert(findings.drop_last() =~= findings_in(source, shorter));
        assert(findings.last() == finding_in(source, key));
        assert(keys[keys.len() - 1] == key);
        assert forall|name: Seq<char>| keys.contains(name) <==> shorter.contains(name) || name
            == key by {
            if shorter.contains(name) {
                let at = choose|at: int| 0 <= at < shorter.len() && shorter[at] == name;
                assert(keys[at] == name);
            }
            if keys.contains(name) && name != key {
                let at = choose|at: int| 0 <= at < keys.len() && keys[at] == name;
                assert(shorter[at] == name);
            }
        }
        if config_in(findings) is Ok {
            assert forall|i: int| 0 <= i < keys.len() implies fault_under(
                source,
                #[trigger] keys[i],
            ) is None by {
                if i < shorter.len() {
                    assert(shorter[i] == keys[i]);
                }
            }
        }
        if forall|i: int| 0 <= i < keys.len() ==> fault_under(source, #[trigger] keys[i]) is None {
            assert forall|i: int| 0 <= i < shorter.len() implies fault_under(
                source,
                #[trigger] shorter[i],
            ) is None by {
                assert(shorter[i] == keys[i]);
            }
            assert(fault_under(source, keys[keys.len() - 1]) is None);
        }
        if let Ok(file) = config_in(findings) {
            lemma_key_taken_in(
                config_in(findings_in(source, shorter))->Ok_0,
                file,
                source,
                shorter,
                keys,
            );
        }
    } else {
        assert(forall|name: Seq<char>| !keys.contains(name));
    }
}

proof fn lemma_key_taken_in(
    before: FileConfigView,
    after: FileConfigView,
    source: Seq<char>,
    shorter: Seq<Seq<char>>,
    keys: Seq<Seq<char>>,
)
    requires
        keys.len() > 0,
        shorter == keys.drop_last(),
        holds_what_is_there(before, source, shorter),
        config_with(before, finding_in(source, keys.last())) == Ok::<FileConfigView, Seq<char>>(
            after,
        ),
        forall|name: Seq<char>|
            #![trigger keys.contains(name)]
            keys.contains(name) <==> shorter.contains(name) || name == keys.last(),
    ensures
        holds_what_is_there(after, source, keys),
{
    lemma_keys_differ();
    let key = keys.last();
    assert(keys.contains("api_id"@) <==> shorter.contains("api_id"@) || key == "api_id"@);
    assert(keys.contains("api_hash"@) <==> shorter.contains("api_hash"@) || key == "api_hash"@);
    assert(keys.contains("database_dir"@) <==> shorter.contains("database_dir"@) || key
        == "database_dir"@);
    assert(keys.contains("files_dir"@) <==> shorter.contains("files_dir"@) || key == "files_dir"@);
    assert(keys.contains("socket_path"@) <==> shorter.contains("socket_path"@) || key
        == "socket_path"@);
}

/// The place of a key among the keys of the config file.
pub open spec fn rank(key: Seq<char>) -> int {
    if key == "api_id"@ {
        0
    } else if key == "api_hash"@ {
        1
    } else if key == "database_dir"@ {
        2
    } else if key == "files_dir"@ {
        3
    } else if key == "socket_path"@ {
        4
    } else {
        5
    }
}

/// A config is written with each value that it has under its own key, as it is, and with no other
/// key.
pub proof fn values_are_written_under_their_keys(file: FileConfigView, key: Seq<char>)
    ensures
        ({
            let entries = stored(file);
            &&& match file.api_id {
                Some(number) => entry_under(entries, "api_id"@) == Some(ScalarView::Integer(number)),
                None => entry_under(entries, "api_id"@) is None,
            }
            &&& match file.api_hash {
                Some(held) => entry_under(entries, "api_hash"@) == Some(ScalarView::Text(held)),
                None => entry_under(entries, "api_hash"@) is None,
            }
            &&& match file.database_dir {
                Some(path) => entry_under(entries, "database_dir"@) == Some(
                    ScalarView::Text(decode_utf8(path)),
                ),
                None => entry_under(entries, "database_dir"@) is None,
            }
            &&& match file.files_dir {
                Some(path) => entry_under(entries, "files_dir"@) == Some(
                    ScalarView::Text(decode_utf8(path)),
                ),
                None => entry_under(entries, "files_dir"@) is None,
            }
            &&& match file.socket_path {
                Some(path) => entry_under(entries, "socket_path"@) == Some(
                    ScalarView::Text(decode_utf8(path)),
                ),
                None => entry_under(entries, "socket_path"@) is None,
            }
            &&& entry_under(entries, key) is Some ==> rank(key) < 5
        }),
{
    lemma_keys_differ();
    lemma_stored(file, "api_id"@);
    lemma_stored(file, "api_hash"@);
    lemma_stored(file, "database_dir"@);
    lemma_stored(file, "files_dir"@);
    lemma_stored(file, "socket_path"@);
    lemma_stored(file, key);
}

/// The keys of a config are written in one order, whichever of them there are, and none twice.
pub proof fn keys_are_written_in_order(file: FileConfigView, i: int, j: int)
    requires
        0 <= i < j < stored(file).len(),
    ensures
        0 <= rank(stored(file)[i].0) < rank(stored(file)[j].0) < 5,
{
    lemma_keys_differ();
}

/// A config can be written unless one of its paths is no text.
pub proof fn only_paths_keep_configs_from_being_written(file: FileConfigView)
    ensures
        storable(file) <==> (file.database_dir matches Some(path) ==> valid_utf8(path)) && (
        file.files_dir matches Some(path) ==> valid_utf8(path)) && (
        file.socket_path matches Some(path) ==> valid_utf8(path)),
{
}

/// What was found is seen as it is, and so are the entries that are written.
pub proof fn findings_are_seen_as_they_are(finding: Finding, scalar: Scalar)
    ensures
        match (finding, finding@) {
            (Finding::ApiId(found), FindingView::ApiId(seen)) => match (found, seen) {
                (None, None) => true,
                (Some(Ok(number)), Some(Ok(held))) => held == number,
                (Some(Err(said)), Some(Err(told))) => told == said@,
                _ => false,
            },
            (Finding::ApiHash(found), FindingView::ApiHash(seen)) => text_found(found) == seen,
            (Finding::DatabaseDir(found), FindingView::DatabaseDir(seen)) => text_found(found)
                == seen,
            (Finding::FilesDir(found), FindingView::FilesDir(seen)) => text_found(found) == seen,
            (Finding::SocketPath(found), FindingView::SocketPath(seen)) => text_found(found) == seen,
            (Finding::Other(fault), FindingView::Other(seen)) => match (fault, seen) {
                (None, None) => true,
                (Some(said), Some(told)) => told == said@,
                _ => false,
            },
            _ => false,
        },
        match (scalar, scalar@) {
            (Scalar::Integer(number), ScalarView::Integer(seen)) => seen == number,
            (Scalar::Text(held), ScalarView::Text(seen)) => seen == held@,
            _ => false,
        },
{
}

/// What is put together from findings is their first fault or, without one, the last value of each
/// kind: a finding changes what it is about and nothing else.
pub proof fn findings_change_what_they_are_about(
    findings: Seq<FindingView>,
    file: FileConfigView,
    number: i64,
    held: Seq<char>,
    said: Seq<char>,
)
    requires
        config_in(findings) == Ok::<FileConfigView, Seq<char>>(file),
    ensures
        ({
            let ok = |finding: FindingView, wanted: FileConfigView|
                config_in(findings.push(finding)) == Ok::<FileConfigView, Seq<char>>(wanted);
            let told = |finding: FindingView|
                config_in(findings.push(finding)) == Err::<FileConfigView, Seq<char>>(said);
            let path = Some(encode_utf8(held));
            &&& ok(
                FindingView::ApiId(Some(Ok(number))),
                FileConfigView { api_id: Some(number), ..file },
            )
            &&& ok(
                FindingView::ApiHash(Some(Ok(held))),
                FileConfigView { api_hash: Some(held), ..file },
            )
            &&& ok(
                FindingView::DatabaseDir(Some(Ok(held))),
                FileConfigView { database_dir: path, ..file },
            )
            &&& ok(
                FindingView::FilesDir(Some(Ok(held))),
                FileConfigView { files_dir: path, ..file },
            )
            &&& ok(
                FindingView::SocketPath(Some(Ok(held))),
                FileConfigView { socket_path: path, ..file },
            )
            &&& ok(FindingView::ApiId(None), file)
            &&& ok(FindingView::ApiHash(None), file)
            &&& ok(FindingView::DatabaseDir(None), file)
            &&& ok(FindingView::FilesDir(None), file)
            &&& ok(FindingView::SocketPath(None), file)
            &&& ok(FindingView::Other(None), file)
            &&& told(FindingView::ApiId(Some(Err(said))))
            &&& told(FindingView::ApiHash(Some(Err(said))))
            &&& told(FindingView::DatabaseDir(Some(Err(said))))
            &&& told(FindingView::FilesDir(Some(Err(said))))
            &&& told(FindingView::SocketPath(Some(Err(said))))
            &&& told(FindingView::Other(Some(said)))
        }),
        config_in(Seq::empty()) matches Ok(empty) && empty.api_id is None && empty.api_hash is None
            && empty.database_dir is None && empty.files_dir is None && empty.socket_path is None,
{
    assert forall|finding: FindingView| #[trigger]
        findings.push(finding).drop_last() == findings by {
        assert(findings.push(finding).drop_last() =~= findings);
    }
}

/// Once a fault is met, nothing that comes behind it changes what is told.
pub proof fn faults_stay(findings: Seq<FindingView>, more: Seq<FindingView>, said: Seq<char>)
    requires
        config_in(findings) == Err::<FileConfigView, Seq<char>>(said),
    ensures
        config_in(findings + more) == Err::<FileConfigView, Seq<char>>(said),
{
    assert((findings + more).take(findings.len() as int) =~= findings);
    lemma_first_fault(findings + more, findings.len() as int);
}

} // verus!
