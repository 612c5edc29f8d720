//! The TDLib library: where it is looked for, what is looked up in it, and its log verbosity.
use crate::config::Config;
use crate::failure;
use crate::failure::{Failure, FailureView};
use crate::json;
use crate::json::JsonTree;
use crate::paths;
use crate::paths::OsPath;
use crate::request;
use crate::request::{Request, RequestView};
use crate::text;
use vstd::prelude::*;
use vstd::utf8::*;

verus! {

/// How much TDLib writes to its log.
pub const LOG_VERBOSITY: i32 = 1;

/// The functions of the TDLib library, in the order in which they are looked up.
#[derive(Clone, Copy, Debug, PartialEq, Eq, Structural)]
pub enum TdjsonSymbol {
    Create,
    Send,
    Receive,
    Execute,
    Destroy,
}

impl TdjsonSymbol {
    /// The name under which the library exports the function.
    pub open spec fn spelling(self) -> Seq<char> {
        match self {
            TdjsonSymbol::Create => "td_json_client_create"@,
            TdjsonSymbol::Send => "td_json_client_send"@,
            TdjsonSymbol::Receive => "td_json_client_receive"@,
            TdjsonSymbol::Execute => "td_json_client_execute"@,
            TdjsonSymbol::Destroy => "td_json_client_destroy"@,
        }
    }

    /// The name under which the library exports the function.
    pub fn name(&self) -> (name: &'static str)
        ensures
            name@ == self.spelling(),
    {
        match self {
            TdjsonSymbol::Create => "td_json_client_create",
            TdjsonSymbol::Send => "td_json_client_send",
            TdjsonSymbol::Receive => "td_json_client_receive",
            TdjsonSymbol::Execute => "td_json_client_execute",
            TdjsonSymbol::Destroy => "td_json_client_destroy",
        }
    }
}

/// How far the loading of one library has come.
#[derive(Clone, Copy, Debug, PartialEq, Eq, Structural)]
pub enum LoadStage {
    /// The library is to be opened.
    Open,
    /// A function is to be looked up in it.
    LookUp(TdjsonSymbol),
    /// The library is open and has all the functions.
    Loaded,
}

impl LoadStage {
    /// What comes when this stage has succeeded.
    pub open spec fn following(self) -> LoadStage {
        match self {
            LoadStage::Open => LoadStage::LookUp(TdjsonSymbol::Create),
            LoadStage::LookUp(TdjsonSymbol::Create) => LoadStage::LookUp(TdjsonSymbol::Send),
            LoadStage::LookUp(TdjsonSymbol::Send) => LoadStage::LookUp(TdjsonSymbol::Receive),
            LoadStage::LookUp(TdjsonSymbol::Receive) => LoadStage::LookUp(TdjsonSymbol::Execute),
            LoadStage::LookUp(TdjsonSymbol::Execute) => LoadStage::LookUp(TdjsonSymbol::Destroy),
            LoadStage::LookUp(TdjsonSymbol::Destroy) => LoadStage::Loaded,
            LoadStage::Loaded => LoadStage::Loaded,
        }
    }
}

/// What comes after a stage of loading the library at `source`, or why loading ends there.
pub open spec fn loading(stage: LoadStage, succeeded: bool, source: Seq<u8>) -> Result<
    LoadStage,
    FailureView,
> {
    match stage {
        LoadStage::Loaded => Ok(LoadStage::Loaded),
        LoadStage::Open if !succeeded => Err(FailureView::LibraryNotOpened(source)),
        LoadStage::LookUp(symbol) if !succeeded => Err(FailureView::MissingSymbol(symbol)),
        _ => Ok(stage.following()),
    }
}

/// What comes after a stage of loading the library at `source`, which succeeded or not.
pub fn load_one(stage: LoadStage, succeeded: bool, source: &OsPath) -> (next: Result<
    LoadStage,
    Failure,
>)
    ensures
        match next {
            Ok(next) => (succeeded || stage == LoadStage::Loaded) && next == stage.following(),
            Err(failure) => !succeeded && match stage {
                LoadStage::Open => failure@ == FailureView::LibraryNotOpened(source@),
                LoadStage::LookUp(symbol) => failure@ == FailureView::MissingSymbol(symbol),
                LoadStage::Loaded => false,
            },
        },
        match next {
            Ok(next) => loading(stage, succeeded, source@) == Ok::<LoadStage, FailureView>(next),
            Err(failure) => loading(stage, succeeded, source@) == Err::<LoadStage, FailureView>(
                failure@,
            ),
        },
{
    match stage {
        LoadStage::Open => {
            if succeeded {
                Ok(LoadStage::LookUp(TdjsonSymbol::Create))
            } else {
                Err(Failure::LibraryNotOpened(source.duplicate()))
            }
        },
        LoadStage::LookUp(symbol) => {
            if succeeded {
                Ok(
                    match symbol {
                        TdjsonSymbol::Create => LoadStage::LookUp(TdjsonSymbol::Send),
                        TdjsonSymbol::Send => LoadStage::LookUp(TdjsonSymbol::Receive),
                        TdjsonSymbol::Receive => LoadStage::LookUp(TdjsonSymbol::Execute),
                        TdjsonSymbol::Execute => LoadStage::LookUp(TdjsonSymbol::Destroy),
                        TdjsonSymbol::Destroy => LoadStage::Loaded,
                    },
                )
            } else {
                Err(Failure::MissingSymbol(symbol))
            }
        },
        LoadStage::Loaded => Ok(LoadStage::Loaded),
    }
}

/// The stage that is reached after so many successes.
pub open spec fn stage_after(successes: nat) -> LoadStage
    decreases successes,
{
    if successes == 0 {
        LoadStage::Open
    } else {
        stage_after((successes - 1) as nat).following()
    }
}

/// A library counts as loaded when it was opened and each of the five functions was found, and
/// no sooner; every function is looked up on the way.
pub proof fn loading_finds_every_function(successes: nat, symbol: TdjsonSymbol)
    ensures
        stage_after(successes) == LoadStage::Loaded <==> successes >= 6,
        exists|before: nat| before < 6 && #[trigger] stage_after(before) == LoadStage::LookUp(
            symbol,
        ),
    decreases successes,
{
    reveal_with_fuel(stage_after, 7);
    if successes > 6 {
        loading_finds_every_function((successes - 1) as nat, symbol);
    }
    assert(stage_after(1) == LoadStage::LookUp(TdjsonSymbol::Create));
    assert(stage_after(2) == LoadStage::LookUp(TdjsonSymbol::Send));
    assert(stage_after(3) == LoadStage::LookUp(TdjsonSymbol::Receive));
    assert(stage_after(4) == LoadStage::LookUp(TdjsonSymbol::Execute));
    assert(stage_after(5) == LoadStage::LookUp(TdjsonSymbol::Destroy));
}

/// The file name of the TDLib library on a system.
pub open spec fn library_name(target_os: Seq<char>) -> Seq<char> {
    if target_os == "macos"@ {
        "libtdjson.dylib"@
    } else {
        "libtdjson.so"@
    }
}

/// The file name of the TDLib library on the system `target_os`.
pub fn default_tdjson_name(target_os: &str) -> (name: &'static str)
    ensures
        name@ == library_name(target_os@),
{
    if text::same_text(target_os, "macos") {
        "libtdjson.dylib"
    } else {
        "libtdjson.so"
    }
}

/// The views of a sequence of paths.
pub open spec fn path_views(paths: Seq<OsPath>) -> Seq<Seq<u8>> {
    paths.map_values(|path: OsPath| path@)
}

/// Where the library is looked for: only at the path that is set, or else next to the program,
/// where its path is known and has a parent, and then where the system looks for libraries.
pub open spec fn library_places(
    set: Option<Seq<u8>>,
    program: Option<Seq<u8>>,
    name: Seq<u8>,
) -> Seq<Seq<u8>> {
    let program_dir = match program {
        Some(path) => paths::parent_of(path),
        None => None,
    };
    match (set, program_dir) {
        (Some(path), _) => seq![path],
        (None, Some(dir)) => seq![paths::joined(dir, name), name],
        (None, None) => seq![name],
    }
}

/// Where the library is looked for by the program at the path `program`.
pub fn tdjson_sources(config: &Config, program: &Option<OsPath>, target_os: &str) -> (sources:
    Vec<OsPath>)
    ensures
        path_views(sources@) == library_places(
            paths::optional_path(config.tdjson_path),
            paths::optional_path(*program),
            encode_utf8(library_name(target_os@)),
        ),
{
    let mut sources: Vec<OsPath> = Vec::new();
    if let Some(path) = &config.tdjson_path {
        sources.push(path.duplicate());
        assert(path_views(sources@) =~= seq![path@]);
        return sources;
    }
    let name = default_tdjson_name(target_os);
    if let Some(path) = program {
        if let Some(dir) = path.parent() {
            sources.push(dir.join(name));
        }
    }
    sources.push(OsPath::from_name(name));
    assert(path_views(sources@) =~= library_places(
        None,
        paths::optional_path(*program),
        encode_utf8(name@),
    ));
    sources
}

/// `parts` in a row, with `"; "` between each two.
pub open spec fn listed(parts: Seq<Seq<char>>) -> Seq<char>
    decreases parts.len(),
{
    if parts.len() == 0 {
        Seq::empty()
    } else if parts.len() == 1 {
        parts[0]
    } else {
        listed(parts.drop_last()) + "; "@ + parts.last()
    }
}

fn list(parts: &Vec<String>) -> (whole: String)
    ensures
        whole@ == listed(text::text_views(parts@)),
{
    let mut whole = String::new();
    let ghost views = text::text_views(parts@);
    let mut at: usize = 0;
    while at < parts.len()
        invariant
            at <= parts.len(),
            views == text::text_views(parts@),
            whole@ == listed(views.take(at as int)),
        decreases parts.len() - at,
    {
        if at > 0 {
            whole.append("; ");
        }
        whole.append(parts[at].as_str());
        proof {
            let next = views.take(at + 1);
            assert(next.drop_last() =~= views.take(at as int));
            assert(next.last() == parts[at as int]@);
            if at == 0 {
                assert(whole@ =~= next[0]);
            }
        }
        at += 1;
    }
    assert(views.take(parts.len() as int) =~= views);
    whole
}

/// Whether `part` stands somewhere in `whole`.
pub open spec fn holds(whole: Seq<char>, part: Seq<char>) -> bool {
    exists|at: int|
        0 <= at <= whole.len() - part.len() && #[trigger] whole.subrange(at, at + part.len())
            == part
}

/// A list holds each of its parts in full: nothing that was tried goes untold.
pub proof fn lists_hold_every_part(parts: Seq<Seq<char>>, index: int)
    requires
        0 <= index < parts.len(),
    ensures
        holds(listed(parts), parts[index]),
    decreases parts.len(),
{
    let whole = listed(parts);
    let part = parts[index];
    if parts.len() == 1 {
        let at: int = 0;
        assert(whole.subrange(at, at + part.len()) =~= part);
    } else if index == parts.len() - 1 {
        let at = whole.len() - part.len();
        assert(whole.subrange(at, at + part.len()) =~= part);
    } else {
        let shorter = parts.drop_last();
        lists_hold_every_part(shorter, index);
        let at = choose|at: int|
            0 <= at <= listed(shorter).len() - part.len() && #[trigger] listed(shorter).subrange(
                at,
                at + part.len(),
            ) == part;
        assert(whole.subrange(at, at + part.len()) =~= listed(shorter).subrange(
            at,
            at + part.len(),
        ));
    }
}

/// What is told of a source that could not be loaded.
pub open spec fn attempt_line(source: Seq<u8>, message: Seq<char>) -> Seq<char> {
    paths::shown(source) + ": "@ + message
}

/// The place to try when so many of `sources` have failed.
pub open spec fn place_to_try(sources: Seq<Seq<u8>>, failures: nat) -> Option<Seq<u8>> {
    if failures < sources.len() {
        Some(sources[failures as int])
    } else {
        None
    }
}

/// How a search ended, where it has ended, once so many of `sources` have failed as there are
/// `lines`, and the next one was loaded or not.
pub open spec fn search_end(sources: Seq<Seq<u8>>, lines: Seq<Seq<char>>, loaded: bool) -> Option<
    Result<Seq<char>, FailureView>,
> {
    match place_to_try(sources, lines.len()) {
        Some(source) if loaded => Some(Ok(paths::shown(source))),
        Some(_) => None,
        None => Some(Err(FailureView::NoLibraryFound(listed(lines)))),
    }
}

/// A search for the library: the places to try, in order, and a line for each that failed.
pub struct TdjsonSearch {
    pub sources: Vec<OsPath>,
    pub errors: Vec<String>,
}

impl TdjsonSearch {
    /// No more places have failed than there are.
    pub open spec fn is_valid(&self) -> bool {
        self.errors@.len() <= self.sources@.len()
    }

    /// A search in which nothing was tried yet.
    pub fn new(sources: Vec<OsPath>) -> (search: TdjsonSearch)
        ensures
            search.is_valid(),
            search.sources == sources,
            search.errors@.len() == 0,
    {
        TdjsonSearch { sources, errors: Vec::new() }
    }

    /// The place to try next: the first that has not failed.
    pub fn next_source(&self) -> (source: Option<&OsPath>)
        requires
            self.is_valid(),
        ensures
            match source {
                Some(source) => self.errors@.len() < self.sources@.len() && *source
                    == self.sources@[self.errors@.len() as int],
                None => self.errors@.len() == self.sources@.len(),
            },
            match source {
                Some(source) => place_to_try(path_views(self.sources@), self.errors@.len()) == Some(
                    source@,
                ),
                None => place_to_try(path_views(self.sources@), self.errors@.len()) is None,
            },
    {
        if self.errors.len() < self.sources.len() {
            Some(&self.sources[self.errors.len()])
        } else {
            None
        }
    }

    /// Takes note that the place that was to be tried next failed.
    pub fn failed(&mut self, reason: &Failure)
        requires
            old(self).is_valid(),
            old(self).errors@.len() < old(self).sources@.len(),
        ensures
            final(self).is_valid(),
            final(self).sources == old(self).sources,
            text::text_views(final(self).errors@) == text::text_views(old(self).errors@).push(
                attempt_line(
                    old(self).sources@[old(self).errors@.len() as int]@,
                    failure::failure_message(reason@),
                ),
            ),
    {
        let mut line = self.sources[self.errors.len()].display();
        line.append(": ");
        let message = reason.message();
        line.append(message.as_str());
        self.errors.push(line);
        assert(text::text_views(self.errors@) =~= text::text_views(old(self).errors@).push(
            attempt_line(
                old(self).sources@[old(self).errors@.len() as int]@,
                failure::failure_message(reason@),
            ),
        ));
    }

    /// Why a client cannot be made when every place has failed.
    pub fn load_failure(&self) -> (told: Failure)
        ensures
            told@ == FailureView::NoLibrary(listed(text::text_views(self.errors@))),
            told@ == search_failure(text::text_views(self.errors@)),
    {
        Failure::NoLibrary(list(&self.errors))
    }
}

/// Why a client cannot be made, where `lines` tell what was tried.
pub open spec fn search_failure(lines: Seq<Seq<char>>) -> FailureView {
    FailureView::NoLibrary(listed(lines))
}

/// How a search ended, where it has ended: with the place that was loaded, shown as text, or
/// with all that failed. `loaded` says whether the place that was to be tried next was loaded.
pub fn tdjson_load_status(search: &TdjsonSearch, loaded: bool) -> (ended: Option<
    Result<String, Failure>,
>)
    requires
        search.is_valid(),
        loaded ==> search.errors@.len() < search.sources@.len(),
    ensures
        match ended {
            None => !loaded && search.errors@.len() < search.sources@.len(),
            Some(Ok(source)) => loaded && source@ == paths::shown(
                search.sources@[search.errors@.len() as int]@,
            ),
            Some(Err(failure)) => {
                &&& !loaded
                &&& search.errors@.len() == search.sources@.len()
                &&& failure@ == FailureView::NoLibraryFound(listed(text::text_views(search.errors@)))
            },
        },
        search_end(path_views(search.sources@), text::text_views(search.errors@), loaded) == match ended {
            None => None,
            Some(Ok(source)) => Some(Ok(source@)),
            Some(Err(failure)) => Some(Err(failure@)),
        },
{
    if loaded {
        return Some(Ok(search.sources[search.errors.len()].display()));
    }
    if search.errors.len() < search.sources.len() {
        None
    } else {
        Some(Err(Failure::NoLibraryFound(list(&search.errors))))
    }
}

/// The request that sets how much TDLib writes to its log.
pub fn log_verbosity_request(level: i32) -> (sent: String)
    ensures
        sent@ == json::json_text(request::request_tree(RequestView::SetLogVerbosity(level))),
        json::json_document(sent@) == Ok::<JsonTree, Seq<char>>(
            request::request_tree(RequestView::SetLogVerbosity(level)),
        ),
        forall|i: int| 0 <= i < sent@.len() ==> #[trigger] sent@[i] >= ' ',
{
    Request::SetLogVerbosity(level).to_json()
}

/// What TDLib's answer to a change of its log verbosity means: an error is a refusal.
pub open spec fn verbosity_verdict(answer: JsonTree) -> Option<FailureView> {
    if json::named_type(answer) == Some("error"@) {
        Some(FailureView::LogVerbosityRefused(json::json_text(answer)))
    } else {
        None
    }
}

/// Judges TDLib's answer to a change of its log verbosity.
pub fn judge_log_verbosity(answer: &serde_json::Value) -> (judged: Result<(), Failure>)
    ensures
        match judged {
            Ok(()) => verbosity_verdict(json::json_tree(*answer)) is None,
            Err(failure) => verbosity_verdict(json::json_tree(*answer)) == Some(failure@),
        },
{
    if json::has_type(answer, "error") {
        Err(Failure::LogVerbosityRefused(json::write_json(answer)))
    } else {
        Ok(())
    }
}

/// What is wrong with the text that TDLib answers to a change of its log verbosity, where anything
/// is.
pub open spec fn verbosity_fault(answer: Option<Seq<char>>) -> Option<FailureView> {
    match answer {
        None => None,
        Some(raw) => match json::json_document(raw) {
            Ok(tree) => verbosity_verdict(tree),
            Err(cause) => Some(FailureView::UnreadableAnswer(cause)),
        },
    }
}

/// Judges the text that TDLib answers to a change of its log verbosity; no answer is fine.
pub fn set_log_verbosity(answer: Option<&str>) -> (judged: Result<(), Failure>)
    ensures
        match answer {
            None => judged is Ok,
            Some(raw) => match (json::json_document(raw@), judged) {
                (Ok(tree), Ok(())) => verbosity_verdict(tree) is None,
                (Ok(tree), Err(failure)) => verbosity_verdict(tree) == Some(failure@),
                (Err(cause), Ok(())) => false,
                (Err(cause), Err(failure)) => failure@ == FailureView::UnreadableAnswer(cause),
            },
        },
        match judged {
            Ok(()) => verbosity_fault(json::optional_text(answer)) is None,
            Err(failure) => verbosity_fault(json::optional_text(answer)) == Some(failure@),
        },
{
    match answer {
        None => Ok(()),
        Some(raw) => match json::parse_json(raw) {
            Ok(value) => judge_log_verbosity(&value),
            Err(cause) => Err(Failure::UnreadableAnswer(cause)),
        },
    }
}

/// A path that is set is the only place, whatever the program and the system are.
pub proof fn set_paths_are_the_only_place(
    path: Seq<u8>,
    program: Option<Seq<u8>>,
    name: Seq<u8>,
)
    ensures
        library_places(Some(path), program, name) == seq![path],
{
}

/// Where no path is set, the last place is the bare name, which the system looks for; the only
/// place before it is that name in the parent of the program, and it is there whenever the program
/// has a parent. This holds of every name, and so on every system.
pub proof fn libraries_next_to_the_program_come_first(program: Option<Seq<u8>>, name: Seq<u8>)
    ensures
        ({
            let places = library_places(None, program, name);
            let parent = match program {
                Some(path) => paths::parent_of(path),
                None => None,
            };
            &&& places.last() == name
            &&& places.len() == if parent is Some {
                2nat
            } else {
                1nat
            }
            &&& parent matches Some(dir) ==> places[0] == paths::joined(dir, name)
        }),
{
}

/// The places for two names differ in the name alone: there are as many, and one of them is next
/// to the program for both or for neither.
pub proof fn places_differ_in_the_name_alone(
    set: Option<Seq<u8>>,
    program: Option<Seq<u8>>,
    left: Seq<u8>,
    right: Seq<u8>,
    i: int,
)
    requires
        0 <= i < library_places(set, program, left).len(),
        !left.contains(47),
        !right.contains(47),
    ensures
        ({
            let first = library_places(set, program, left);
            let second = library_places(set, program, right);
            &&& first.len() == second.len()
            &&& set is Some ==> first[i] == second[i]
            &&& set is None ==> first[i].len() - left.len() == second[i].len() - right.len()
                && first[i].take(first[i].len() - left.len()) == second[i].take(
                second[i].len() - right.len(),
            ) && first[i].skip(first[i].len() - left.len()) == left && second[i].skip(
                second[i].len() - right.len(),
            ) == right
        }),
{
    let first = library_places(set, program, left);
    let second = library_places(set, program, right);
    assert(left.len() > 0 ==> left.contains(left.first()));
    assert(right.len() > 0 ==> right.contains(right.first()));
    if set is None {
        assert(first[i].skip(first[i].len() - left.len()) =~= left);
        assert(second[i].skip(second[i].len() - right.len()) =~= right);
        assert(first[i].take(first[i].len() - left.len()) =~= second[i].take(
            second[i].len() - right.len(),
        ));
    }
}

/// The library has one name on macOS and another on every other system, whatever that is called.
pub proof fn library_names_are_those_of_the_systems(target_os: Seq<char>)
    ensures
        target_os == "macos"@ ==> library_name(target_os) == "libtdjson.dylib"@,
        target_os != "macos"@ ==> library_name(target_os) == "libtdjson.so"@,
{
}

/// A list is the lists of its two halves with `"; "` between them, wherever it is halved, and a
/// list of one part is that part.
pub proof fn lists_are_put_together(left: Seq<Seq<char>>, right: Seq<Seq<char>>, part: Seq<char>)
    requires
        left.len() > 0,
        right.len() > 0,
    ensures
        listed(left + right) == listed(left) + "; "@ + listed(right),
        listed(seq![part]) == part,
        listed(Seq::empty()) == Seq::<char>::empty(),
    decreases right.len(),
{
    assert((left + right).drop_last() =~= left + right.drop_last());
    if right.len() > 1 {
        lists_are_put_together(left, right.drop_last(), part);
        assert(listed(left + right) =~= listed(left) + "; "@ + listed(right));
    } else {
        assert(right.drop_last() =~= Seq::empty());
        assert(left + right.drop_last() =~= left);
    }
}

/// What is told of a place that failed is the place, a colon and a space, and why.
pub proof fn attempts_name_place_and_reason(source: Seq<u8>, message: Seq<char>)
    ensures
        ({
            let line = attempt_line(source, message);
            let place = paths::shown(source);
            &&& line.len() == place.len() + 2 + message.len()
            &&& line.take(place.len() as int) == place
            &&& line[place.len() as int] == ':'
            &&& line[place.len() as int + 1] == ' '
            &&& line.skip(place.len() as int + 2) == message
        }),
{
    reveal_strlit(": ");
    let line = attempt_line(source, message);
    let place = paths::shown(source);
    assert(line.take(place.len() as int) =~= place);
    assert(line.skip(place.len() as int + 2) =~= message);
}

/// TDLib refuses a log verbosity by an error and by nothing else, and the refusal is told in full.
pub proof fn errors_refuse_the_verbosity(answer: JsonTree)
    ensures
        json::named_type(answer) == Some("error"@) ==> verbosity_verdict(answer) == Some(
            FailureView::LogVerbosityRefused(json::json_text(answer)),
        ),
        json::named_type(answer) != Some("error"@) ==> verbosity_verdict(answer) is None,
{
}

/// The functions are looked up by the names under which TDLib exports them, in a fixed order.
pub proof fn functions_have_the_names_of_tdlib()
    ensures
        stage_after(1) == LoadStage::LookUp(TdjsonSymbol::Create),
        stage_after(2) == LoadStage::LookUp(TdjsonSymbol::Send),
        stage_after(3) == LoadStage::LookUp(TdjsonSymbol::Receive),
        stage_after(4) == LoadStage::LookUp(TdjsonSymbol::Execute),
        stage_after(5) == LoadStage::LookUp(TdjsonSymbol::Destroy),
        TdjsonSymbol::Create.spelling() == "td_json_client_create"@,
        TdjsonSymbol::Send.spelling() == "td_json_client_send"@,
        TdjsonSymbol::Receive.spelling() == "td_json_client_receive"@,
        TdjsonSymbol::Execute.spelling() == "td_json_client_execute"@,
        TdjsonSymbol::Destroy.spelling() == "td_json_client_destroy"@,
{
    reveal_with_fuel(stage_after, 6);
}

/// A library that cannot be opened is named, and a function that is missing is named; nothing else
/// ends the loading, and what has succeeded leads to the next stage, whatever the library is.
pub proof fn loading_stops_at_what_is_missing(
    source: Seq<u8>,
    other: Seq<u8>,
    symbol: TdjsonSymbol,
    stage: LoadStage,
)
    ensures
        loading(LoadStage::Open, false, source) matches Err(failure) && failure
            == FailureView::LibraryNotOpened(source),
        loading(LoadStage::LookUp(symbol), false, source) matches Err(failure) && failure
            == FailureView::MissingSymbol(symbol),
        loading(stage, true, source) is Ok,
        loading(stage, true, source) == loading(stage, true, other),
        loading(LoadStage::Open, true, source) == Ok::<LoadStage, FailureView>(
            LoadStage::LookUp(TdjsonSymbol::Create),
        ),
        loading(LoadStage::LookUp(TdjsonSymbol::Create), true, source) == Ok::<
            LoadStage,
            FailureView,
        >(LoadStage::LookUp(TdjsonSymbol::Send)),
        loading(LoadStage::LookUp(TdjsonSymbol::Send), true, source) == Ok::<LoadStage, FailureView>(
            LoadStage::LookUp(TdjsonSymbol::Receive),
        ),
        loading(LoadStage::LookUp(TdjsonSymbol::Receive), true, source) == Ok::<
            LoadStage,
            FailureView,
        >(LoadStage::LookUp(TdjsonSymbol::Execute)),
        loading(LoadStage::LookUp(TdjsonSymbol::Execute), true, source) == Ok::<
            LoadStage,
            FailureView,
        >(LoadStage::LookUp(TdjsonSymbol::Destroy)),
        loading(LoadStage::LookUp(TdjsonSymbol::Destroy), true, source) == Ok::<
            LoadStage,
            FailureView,
        >(LoadStage::Loaded),
{
}

/// No answer to a change of the log verbosity is fine, and so is every document that is no error;
/// an error is told in full, and a text that is no document is told by what is wrong with it.
pub proof fn silence_accepts_the_verbosity(raw: Seq<char>)
    ensures
        verbosity_fault(None) is None,
        json::json_document(raw) matches Err(cause) ==> verbosity_fault(Some(raw)) == Some(
            FailureView::UnreadableAnswer(cause),
        ),
        json::json_document(raw) matches Ok(tree) ==> match verbosity_fault(Some(raw)) {
            Some(failure) => json::named_type(tree) == Some("error"@) && failure
                == FailureView::LogVerbosityRefused(json::json_text(tree)),
            None => json::named_type(tree) != Some("error"@),
        },
{
}

/// Every place is tried once, in order, until one is loaded: after so many failures it is the turn of
/// the place with that number, and of none when all have failed.
pub proof fn places_are_tried_in_order(sources: Seq<Seq<u8>>, failures: nat)
    ensures
        failures < sources.len() ==> place_to_try(sources, failures) == Some(
            sources[failures as int],
        ),
        failures >= sources.len() ==> place_to_try(sources, failures) is None,
{
}

/// A search ends with the first place that is loaded, or when all have failed and then with a line
/// for each of them; until one of these happens it goes on.
pub proof fn searches_end_with_the_first_that_loads(
    sources: Seq<Seq<u8>>,
    lines: Seq<Seq<char>>,
    loaded: bool,
)
    requires
        lines.len() <= sources.len(),
        loaded ==> lines.len() < sources.len(),
    ensures
        loaded ==> search_end(sources, lines, loaded) == Some(
            Ok::<Seq<char>, FailureView>(text::lossy_text(sources[lines.len() as int])),
        ),
        !loaded && lines.len() < sources.len() ==> search_end(sources, lines, loaded) is None,
        !loaded && lines.len() == sources.len() ==> search_end(sources, lines, loaded) == Some(
            Err::<Seq<char>, FailureView>(FailureView::NoLibraryFound(listed(lines))),
        ),
{
}

/// A client that cannot be made for want of a library tells of every place that was tried, as the
/// doctor does, and adds advice.
pub proof fn clients_tell_every_place_that_failed(
    sources: Seq<Seq<u8>>,
    lines: Seq<Seq<char>>,
    index: int,
)
    requires
        lines.len() == sources.len(),
        0 <= index < lines.len(),
    ensures
        search_failure(lines) matches FailureView::NoLibrary(tried) && holds(tried, lines[index])
            && search_end(sources, lines, false) == Some(
            Err::<Seq<char>, FailureView>(FailureView::NoLibraryFound(tried)),
        ),
{
    lists_hold_every_part(lines, index);
}

} // verus!
