//! File paths as the bytes that the system takes, and the places where the files live.
use crate::failure::Failure;
use crate::text;
use vstd::prelude::*;
use vstd::slice::{slice_subrange, slice_to_vec};
use vstd::utf8::*;

verus! {

/// A path of a Unix system: any bytes, not always UTF-8.
#[derive(Debug, PartialEq, Eq)]
pub struct OsPath {
    pub bytes: Vec<u8>,
}

impl View for OsPath {
    type V = Seq<u8>;

    open spec fn view(&self) -> Seq<u8> {
        self.bytes@
    }
}

/// The view of a path that may be absent.
pub open spec fn optional_path(path: Option<OsPath>) -> Option<Seq<u8>> {
    match path {
        Some(path) => Some(path@),
        None => None,
    }
}

/// How a path is shown in a message.
pub open spec fn shown(path: Seq<u8>) -> Seq<char> {
    text::lossy_text(path)
}

/// `relative` below `base`: an absolute path stands for itself, any other is appended with one
/// separator, unless `base` is empty or ends in one.
pub open spec fn joined(base: Seq<u8>, relative: Seq<u8>) -> Seq<u8> {
    if relative.len() > 0 && relative.first() == 47 {
        relative
    } else if base.len() == 0 || base.last() == 47 {
        base + relative
    } else {
        base.push(47) + relative
    }
}

impl OsPath {
    /// The path that `name` writes.
    pub fn from_name(name: &str) -> (path: OsPath)
        ensures
            path@ == encode_utf8(name@),
    {
        OsPath { bytes: slice_to_vec(name.as_bytes()) }
    }

    /// A second path with the same bytes.
    pub fn duplicate(&self) -> (path: OsPath)
        ensures
            path@ == self@,
    {
        OsPath { bytes: slice_to_vec(self.bytes.as_slice()) }
    }

    /// The path of `relative` seen from this directory.
    pub fn join(&self, relative: &str) -> (path: OsPath)
        ensures
            path@ == joined(self@, encode_utf8(relative@)),
    {
        let name = relative.as_bytes();
        if name.len() > 0 && name[0] == 47 {
            return OsPath { bytes: slice_to_vec(name) };
        }
        let mut bytes = slice_to_vec(self.bytes.as_slice());
        if bytes.len() > 0 && bytes[bytes.len() - 1] != 47 {
            bytes.push(47);
        }
        let mut tail = slice_to_vec(name);
        bytes.append(&mut tail);
        OsPath { bytes }
    }

    /// The path as it is shown to the user.
    pub fn display(&self) -> (name: String)
        ensures
            name@ == shown(self@),
            valid_utf8(self@) ==> name@ == decode_utf8(self@),
    {
        text::from_utf8_lossy(self.bytes.as_slice())
    }

    /// The parent of this path.
    pub fn parent(&self) -> (parent: Option<OsPath>)
        ensures
            optional_path(parent) == parent_of(self@),
    {
        let bytes = self.bytes.as_slice();
        let length: usize = bytes.len();
        let relative = length > 0 && bytes[0] == 46 && (length == 1 || bytes[1] == 47);
        let head: usize = if relative || length > 0 && bytes[0] == 47 { 1 } else { 0 };
        assert(bytes@.take(length as int) =~= bytes@);
        let whole: usize = tidy(bytes, head, length);
        if whole > head {
            let shorter: usize = cut(bytes, head, whole);
            let end: usize = tidy(bytes, head, shorter);
            return Some(OsPath { bytes: slice_to_vec(slice_subrange(bytes, 0, end)) });
        }
        if relative {
            Some(OsPath { bytes: Vec::new() })
        } else {
            None
        }
    }

    /// The path as a text, where it is one.
    pub fn text(&self) -> (name: Option<String>)
        ensures
            match name {
                Some(name) => valid_utf8(self@) && name@ == decode_utf8(self@),
                None => !valid_utf8(self@),
            },
    {
        let name = self.display();
        let same = same_bytes(name.as_str().as_bytes(), self.bytes.as_slice());
        proof {
            encode_utf8_valid_utf8(name@);
            encode_utf8_decode_utf8(name@);
            if valid_utf8(self@) {
                decode_utf8_encode_utf8(self@);
            }
        }
        if same {
            Some(name)
        } else {
            None
        }
    }
}

/// The length of what a path starts from: the separator of an absolute path, or the `.` of a path
/// that names the working directory.
pub open spec fn head_length(path: Seq<u8>) -> nat {
    if path.len() > 0 && (path[0] == 47 || path[0] == 46 && (path.len() == 1 || path[1] == 47)) {
        1
    } else {
        0
    }
}

/// Where the last component of a path starts, behind its first `head` bytes.
pub open spec fn last_start(path: Seq<u8>, head: nat) -> nat
    decreases path.len(),
{
    if path.len() <= head || path.last() == 47 {
        path.len()
    } else {
        last_start(path.drop_last(), head)
    }
}

/// A path without its last component and the separator before it; the first `head` bytes stay.
pub open spec fn without_last(path: Seq<u8>, head: nat) -> Seq<u8> {
    let start = last_start(path, head);
    if start > head {
        path.take(start - 1)
    } else {
        path.take(start as int)
    }
}

/// Whether the last component of a path says nothing: it is empty or `.`.
pub open spec fn last_is_void(path: Seq<u8>, head: nat) -> bool {
    let start = last_start(path, head);
    path.len() == start || path.len() == start + 1 && path[start as int] == 46
}

/// A path without the components at its end that say nothing.
pub open spec fn tidied(path: Seq<u8>, head: nat) -> Seq<u8>
    decreases path.len(),
    when head <= path.len()
{
    if path.len() > head && last_is_void(path, head) {
        proof {
            cutting_shortens(path, head);
        }
        tidied(without_last(path, head), head)
    } else {
        path
    }
}

/// The parent of a path: what is left without its last component. Repeated separators count as
/// one, and neither separators at the end nor a `.` behind the start is a component. An empty
/// path and the root have no parent, and that of a single relative component is empty.
pub open spec fn parent_of(path: Seq<u8>) -> Option<Seq<u8>> {
    let head = head_length(path);
    let whole = tidied(path, head);
    if whole.len() > head {
        Some(tidied(without_last(whole, head), head))
    } else if head == 1 && path[0] == 46 {
        Some(Seq::empty())
    } else {
        None
    }
}

/// A path is shorter without its last component, and keeps what it starts from.
pub proof fn cutting_shortens(path: Seq<u8>, head: nat)
    requires
        head <= path.len(),
    ensures
        head <= last_start(path, head) <= path.len(),
        head <= without_last(path, head).len(),
        path.len() > head ==> without_last(path, head).len() < path.len(),
    decreases path.len(),
{
    if path.len() > head && path.last() != 47 {
        cutting_shortens(path.drop_last(), head);
    }
}

/// Where the last component of `bytes[..end]` starts.
fn find_last(bytes: &[u8], head: usize, end: usize) -> (start: usize)
    requires
        head <= end <= bytes@.len(),
    ensures
        head <= start <= end,
        start == last_start(bytes@.take(end as int), head as nat),
{
    let mut start: usize = end;
    while head < start && bytes[start - 1] != 47
        invariant
            head <= start <= end <= bytes@.len(),
            last_start(bytes@.take(end as int), head as nat) == last_start(
                bytes@.take(start as int),
                head as nat,
            ),
        decreases start,
    {
        assert(bytes@.take(start as int).drop_last() =~= bytes@.take(start - 1));
        start -= 1;
    }
    start
}

/// The length of `bytes[..end]` without its last component.
fn cut(bytes: &[u8], head: usize, end: usize) -> (shorter: usize)
    requires
        head <= end <= bytes@.len(),
    ensures
        head <= shorter <= end,
        head < end ==> shorter < end,
        bytes@.take(shorter as int) == without_last(bytes@.take(end as int), head as nat),
{
    let start: usize = find_last(bytes, head, end);
    let shorter: usize = if start > head { start - 1 } else { start };
    proof {
        cutting_shortens(bytes@.take(end as int), head as nat);
        assert(bytes@.take(shorter as int) =~= without_last(bytes@.take(end as int), head as nat));
    }
    shorter
}

/// The length of `bytes[..end]` without the components at its end that say nothing.
fn tidy(bytes: &[u8], head: usize, end: usize) -> (shorter: usize)
    requires
        head <= end <= bytes@.len(),
    ensures
        head <= shorter <= end,
        bytes@.take(shorter as int) == tidied(bytes@.take(end as int), head as nat),
{
    let mut at: usize = end;
    while head < at
        invariant
            head <= at <= end <= bytes@.len(),
            tidied(bytes@.take(end as int), head as nat) == tidied(
                bytes@.take(at as int),
                head as nat,
            ),
        decreases at,
    {
        let start: usize = find_last(bytes, head, at);
        if start < at && (start + 1 < at || bytes[start] != 46) {
            return at;
        }
        at = cut(bytes, head, at);
    }
    at
}

/// Whether two runs of bytes are the same.
fn same_bytes(left: &[u8], right: &[u8]) -> (same: bool)
    ensures
        same == (left@ == right@),
{
    if left.len() != right.len() {
        return false;
    }
    let mut at: usize = 0;
    while at < left.len()
        invariant
            at <= left@.len(),
            left@.len() == right@.len(),
            forall|i: int| 0 <= i < at ==> left@[i] == right@[i],
        decreases left.len() - at,
    {
        if left[at] != right[at] {
            return false;
        }
        at += 1;
    }
    assert(left@ =~= right@);
    true
}

/// The directories that the environment names.
pub struct XdgEnvironment {
    /// `XDG_CONFIG_HOME`
    pub config_home: Option<OsPath>,
    /// `XDG_DATA_HOME`
    pub data_home: Option<OsPath>,
    /// `XDG_RUNTIME_DIR`
    pub runtime_dir: Option<OsPath>,
    /// `XDG_CACHE_HOME`
    pub cache_home: Option<OsPath>,
}

/// Where the files live.
#[derive(Debug, PartialEq, Eq)]
pub struct XdgPaths {
    pub config_file: OsPath,
    pub database_dir: OsPath,
    pub files_dir: OsPath,
    pub socket_path: OsPath,
}

/// Where the files live, in terms of bytes.
pub struct XdgPathsView {
    pub config_file: Seq<u8>,
    pub database_dir: Seq<u8>,
    pub files_dir: Seq<u8>,
    pub socket_path: Seq<u8>,
}

impl View for XdgPaths {
    type V = XdgPathsView;

    open spec fn view(&self) -> XdgPathsView {
        XdgPathsView {
            config_file: self.config_file@,
            database_dir: self.database_dir@,
            files_dir: self.files_dir@,
            socket_path: self.socket_path@,
        }
    }
}

/// The directory that the environment names or, where it names none or leaves the name empty,
/// `fallback` in the home directory.
pub open spec fn home_of(named: Option<OsPath>, home: Seq<u8>, fallback: &str) -> Seq<u8> {
    match optional_path(named) {
        Some(directory) if directory.len() > 0 => directory,
        _ => joined(home, encode_utf8(fallback@)),
    }
}

fn directory_or(named: &Option<OsPath>, home: &OsPath, fallback: &str) -> (directory: OsPath)
    ensures
        directory@ == home_of(*named, home@, fallback),
{
    match named {
        Some(directory) => {
            if directory.bytes.len() > 0 {
                directory.duplicate()
            } else {
                home.join(fallback)
            }
        },
        None => home.join(fallback),
    }
}

/// The path of the daemon's socket.
pub open spec fn socket_path(environment: XdgEnvironment, home: Seq<u8>) -> Seq<u8> {
    match environment.runtime_dir {
        Some(directory) => joined(directory@, encode_utf8("tgdyk/tgdyk.sock"@)),
        None => joined(
            home_of(environment.cache_home, home, ".cache"),
            encode_utf8("tgdyk/run/tgdyk.sock"@),
        ),
    }
}

/// Where the files live in an environment and below a home directory.
pub open spec fn usual_paths(environment: XdgEnvironment, home: Seq<u8>) -> XdgPathsView {
    let data_home = home_of(environment.data_home, home, ".local/share");
    XdgPathsView {
        config_file: joined(
            home_of(environment.config_home, home, ".config"),
            encode_utf8("tgdyk/config.toml"@),
        ),
        database_dir: joined(data_home, encode_utf8("tgdyk/tdlib/database"@)),
        files_dir: joined(data_home, encode_utf8("tgdyk/tdlib/files"@)),
        socket_path: socket_path(environment, home),
    }
}

/// Where the files of a user with the given home directory live. Without a home directory
/// there is no answer, whatever the environment names.
pub fn xdg_paths(home: Option<OsPath>, environment: &XdgEnvironment) -> (paths: Result<
    XdgPaths,
    Failure,
>)
    ensures
        match home {
            None => paths matches Err(failure) && failure == Failure::HomeUnresolved,
            Some(home) => paths matches Ok(paths) && {
                let data_home = home_of(environment.data_home, home@, ".local/share");
                &&& paths.config_file@ == joined(
                    home_of(environment.config_home, home@, ".config"),
                    encode_utf8("tgdyk/config.toml"@),
                )
                &&& paths.database_dir@ == joined(
                    data_home,
                    encode_utf8("tgdyk/tdlib/database"@),
                )
                &&& paths.files_dir@ == joined(data_home, encode_utf8("tgdyk/tdlib/files"@))
                &&& paths.socket_path@ == socket_path(*environment, home@)
                &&& paths@ == usual_paths(*environment, home@)
            },
        },
{
    let home = match home {
        Some(home) => home,
        None => return Err(Failure::HomeUnresolved),
    };
    let config_home = directory_or(&environment.config_home, &home, ".config");
    let data_home = directory_or(&environment.data_home, &home, ".local/share");
    let socket_path = match &environment.runtime_dir {
        Some(runtime_home) => runtime_home.join("tgdyk/tgdyk.sock"),
        None => {
            let cache_home = directory_or(&environment.cache_home, &home, ".cache");
            cache_home.join("tgdyk/run/tgdyk.sock")
        },
    };
    Ok(
        XdgPaths {
            config_file: config_home.join("tgdyk/config.toml"),
            database_dir: data_home.join("tgdyk/tdlib/database"),
            files_dir: data_home.join("tgdyk/tdlib/files"),
            socket_path,
        },
    )
}

/// A character below 128 at an end of a text is the byte at that end of its encoding.
proof fn lemma_end_bytes(chars: Seq<char>)
    requires
        chars.len() > 0,
    ensures
        encode_utf8(chars).len() > 0,
        has_width_1_encoding(chars.first() as u32) ==> encode_utf8(chars).first()
            == chars.first() as u32,
        has_width_1_encoding(chars.last() as u32) ==> encode_utf8(chars).last()
            == chars.last() as u32,
    decreases chars.len(),
{
    let scalar = chars[0] as u32;
    char_is_scalar(chars[0]);
    if has_width_1_encoding(scalar) {
        assert(leading_byte_width_1(scalar) == scalar) by (bit_vector)
            requires
                has_width_1_encoding(scalar),
        ;
    }
    let rest = chars.drop_first();
    if rest.len() > 0 {
        lemma_end_bytes(rest);
        assert(encode_utf8(chars).last() == encode_utf8(rest).last());
    } else {
        assert(encode_utf8(rest) =~= Seq::empty());
        assert(encode_utf8(chars) =~= encode_scalar(scalar));
    }
}

proof fn lemma_joined_end(base: Seq<u8>, relative: Seq<u8>)
    requires
        relative.len() > 0,
    ensures
        joined(base, relative).len() > 0,
        joined(base, relative).last() == relative.last(),
{
}

/// Whatever the environment names, no two of the four paths are the same.
pub proof fn paths_do_not_collide(
    config_home: Seq<u8>,
    data_home: Seq<u8>,
    environment: XdgEnvironment,
    home: Seq<u8>,
)
    ensures
        ({
            let config_file = joined(config_home, encode_utf8("tgdyk/config.toml"@));
            let database_dir = joined(data_home, encode_utf8("tgdyk/tdlib/database"@));
            let files_dir = joined(data_home, encode_utf8("tgdyk/tdlib/files"@));
            let socket = socket_path(environment, home);
            &&& config_file != database_dir
            &&& config_file != files_dir
            &&& config_file != socket
            &&& database_dir != files_dir
            &&& database_dir != socket
            &&& files_dir != socket
        }),
{
    reveal_strlit("tgdyk/config.toml");
    reveal_strlit("tgdyk/tdlib/database");
    reveal_strlit("tgdyk/tdlib/files");
    reveal_strlit("tgdyk/tgdyk.sock");
    reveal_strlit("tgdyk/run/tgdyk.sock");
    lemma_end_bytes("tgdyk/config.toml"@);
    lemma_end_bytes("tgdyk/tdlib/database"@);
    lemma_end_bytes("tgdyk/tdlib/files"@);
    lemma_end_bytes("tgdyk/tgdyk.sock"@);
    lemma_end_bytes("tgdyk/run/tgdyk.sock"@);
    lemma_joined_end(config_home, encode_utf8("tgdyk/config.toml"@));
    lemma_joined_end(data_home, encode_utf8("tgdyk/tdlib/database"@));
    lemma_joined_end(data_home, encode_utf8("tgdyk/tdlib/files"@));
    match environment.runtime_dir {
        Some(directory) => {
            lemma_joined_end(directory@, encode_utf8("tgdyk/tgdyk.sock"@));
        },
        None => {
            lemma_joined_end(
                home_of(environment.cache_home, home, ".cache"),
                encode_utf8("tgdyk/run/tgdyk.sock"@),
            );
        },
    }
}

/// Only a separator is encoded with the byte of a separator in front.
proof fn lemma_no_separator(c: char)
    requires
        c != '/',
    ensures
        encode_scalar(c as u32).first() != 47,
{
    let scalar = c as u32;
    assert(has_width_1_encoding(scalar) && scalar != 47 ==> leading_byte_width_1(scalar) != 47)
        by (bit_vector);
    assert(leading_byte_width_2(scalar) != 47) by (bit_vector);
    assert(leading_byte_width_3(scalar) != 47) by (bit_vector);
    assert(leading_byte_width_4(scalar) != 47) by (bit_vector);
}

/// The usual paths lie below the directories that they are for: where such a directory is named
/// and does not end in a separator, one separator and the fixed rest follow it.
pub proof fn paths_lie_below_their_directories(directory: Seq<u8>, rest: Seq<char>)
    requires
        directory.len() > 0,
        directory.last() != 47,
        rest.len() > 0,
        rest.first() != '/',
    ensures
        joined(directory, encode_utf8(rest)) == directory + seq![47u8] + encode_utf8(rest),
{
    lemma_end_bytes(rest);
    lemma_no_separator(rest.first());
    assert(joined(directory, encode_utf8(rest)) =~= directory + seq![47u8] + encode_utf8(rest));
}

proof fn lemma_last_start_of_name(front: Seq<u8>, name: Seq<u8>, head: nat)
    requires
        head <= front.len(),
        front.len() == head || front.last() == 47,
        !name.contains(47),
    ensures
        last_start(front + name, head) == front.len(),
    decreases name.len(),
{
    if name.len() > 0 {
        assert(name.contains(name.last()));
        assert((front + name).drop_last() =~= front + name.drop_last());
        assert forall|b: u8| name.drop_last().contains(b) implies name.contains(b) by {
            let at = choose|at: int| 0 <= at < name.drop_last().len() && name.drop_last()[at] == b;
            assert(name[at] == b);
        }
        lemma_last_start_of_name(front, name.drop_last(), head);
    } else {
        assert(front + name =~= front);
    }
}

/// The parent undoes a join: what a name was joined to is the parent of the path that came of it,
/// provided that the name is one component and that the directory has none at its end that says
/// nothing.
pub proof fn parents_undo_joins(directory: Seq<u8>, name: Seq<u8>)
    requires
        tidied(directory, head_length(directory)) == directory,
        name.len() > 0,
        !name.contains(47),
        name != seq![46u8],
    ensures
        parent_of(joined(directory, name)) == Some(directory),
{
    let path = joined(directory, name);
    let head = head_length(directory);
    assert(name.contains(name.first()));
    let front = if directory.len() == 0 || directory.last() == 47 {
        directory
    } else {
        directory.push(47)
    };
    assert(path =~= front + name);
    assert(directory.len() > 0 ==> path[0] == directory[0]);
    if directory.len() == 0 {
        assert(path =~= name);
        assert(name.len() > 1 ==> name.contains(name[1]));
        assert(name.len() == 1 ==> (name[0] == 46 ==> name =~= seq![46u8]));
    }
    if directory.len() > head && directory.last() == 47 {
        assert(last_start(directory, head) == directory.len());
        cutting_shortens(directory, head);
        lemma_tidied_is_no_longer(without_last(directory, head), head);
    }
    assert(head_length(path) == head);
    lemma_last_start_of_name(front, name, head);
    assert(name.len() == 1 ==> (name[0] == 46 ==> name =~= seq![46u8]));
    assert(path.len() > front.len());
    assert(path[front.len() as int] == name[0]);
    assert(!last_is_void(path, head));
    assert(without_last(path, head) =~= directory);
}

proof fn lemma_tidied_is_no_longer(path: Seq<u8>, head: nat)
    requires
        head <= path.len(),
    ensures
        tidied(path, head).len() <= path.len(),
    decreases path.len(),
{
    if path.len() > head && last_is_void(path, head) {
        cutting_shortens(path, head);
        lemma_tidied_is_no_longer(without_last(path, head), head);
    }
}

/// A join ends in what was joined. An absolute path stands for itself; before any other stands the
/// directory, in full, and between the two a separator, unless there is none to put there because
/// the directory is empty or ends in one.
pub proof fn joins_keep_both_parts(base: Seq<u8>, relative: Seq<u8>)
    ensures
        ({
            let whole = joined(base, relative);
            let absolute = relative.len() > 0 && relative[0] == 47;
            let start = whole.len() - relative.len();
            &&& start >= 0
            &&& whole.skip(start) == relative
            &&& absolute ==> start == 0
            &&& !absolute ==> start >= base.len() && whole.take(base.len() as int) == base
            &&& !absolute && base.len() > 0 && base.last() != 47 ==> start == base.len() + 1
                && whole[base.len() as int] == 47
            &&& !absolute && (base.len() == 0 || base.last() == 47) ==> start == base.len()
        }),
{
    let whole = joined(base, relative);
    assert(whole.skip(whole.len() - relative.len()) =~= relative);
    assert(!(relative.len() > 0 && relative[0] == 47) ==> whole.take(base.len() as int) =~= base);
}

/// A variable that names a directory decides alone: the home directory and the place in it do not
/// matter. One that is empty is as good as none, and then the place in the home directory is it.
pub proof fn variables_decide_alone(
    named: OsPath,
    home: Seq<u8>,
    other_home: Seq<u8>,
    fallback: &str,
    other_fallback: &str,
)
    ensures
        named.bytes@.len() > 0 ==> home_of(Some(named), home, fallback) == named.bytes@,
        named.bytes@.len() > 0 ==> home_of(Some(named), home, fallback) == home_of(
            Some(named),
            other_home,
            other_fallback,
        ),
        named.bytes@.len() == 0 ==> home_of(Some(named), home, fallback) == home_of(
            None,
            home,
            fallback,
        ),
        home_of(None, home, fallback) == joined(home, encode_utf8(fallback@)),
{
}

/// A runtime directory that is named decides where the socket is, whatever the other variables and
/// the home directory are: two environments that name the same one have the same socket. The cache
/// directory, and the home directory for want of one, matter only where none is named.
pub proof fn runtime_directories_hold_the_socket(
    left: XdgEnvironment,
    right: XdgEnvironment,
    left_home: Seq<u8>,
    right_home: Seq<u8>,
)
    ensures
        left.runtime_dir matches Some(directory) ==> socket_path(left, left_home) == joined(
            directory.bytes@,
            encode_utf8("tgdyk/tgdyk.sock"@),
        ),
        left.runtime_dir is Some && left.runtime_dir == right.runtime_dir ==> socket_path(
            left,
            left_home,
        ) == socket_path(right, right_home),
        left.runtime_dir is None ==> {
            let below = encode_utf8("tgdyk/run/tgdyk.sock"@);
            match left.cache_home {
                Some(directory) if directory.bytes@.len() > 0 => socket_path(left, left_home)
                    == joined(directory.bytes@, below),
                _ => socket_path(left, left_home) == joined(
                    joined(left_home, encode_utf8(".cache"@)),
                    below,
                ),
            }
        },
        left.runtime_dir is None && right.runtime_dir is None && left.cache_home
            == right.cache_home && left_home == right_home ==> socket_path(left, left_home)
            == socket_path(right, right_home),
{
}

/// A parent is the front of its path, and shorter.
pub proof fn parents_are_the_front_of_their_paths(path: Seq<u8>)
    ensures
        match parent_of(path) {
            Some(parent) => parent.len() < path.len() && parent == path.take(parent.len() as int),
            None => path.len() == 0 || path[0] == 47,
        },
{
    let head = head_length(path);
    lemma_tidied_is_front(path, head);
    let whole = tidied(path, head);
    if whole.len() > head {
        cutting_shortens(whole, head);
        lemma_tidied_is_front(without_last(whole, head), head);
        let parent = tidied(without_last(whole, head), head);
        assert(parent =~= path.take(parent.len() as int));
    } else {
        assert(path.take(0) =~= Seq::empty());
        if head == 0 && path.len() > 0 {
            lemma_tidied_keeps_a_start(path);
        }
    }
}

proof fn lemma_tidied_is_front(path: Seq<u8>, head: nat)
    requires
        head <= path.len(),
    ensures
        head <= tidied(path, head).len() <= path.len(),
        tidied(path, head) == path.take(tidied(path, head).len() as int),
    decreases path.len(),
{
    if path.len() > head && last_is_void(path, head) {
        cutting_shortens(path, head);
        let shorter = without_last(path, head);
        lemma_tidied_is_front(shorter, head);
        assert(tidied(shorter, head) =~= path.take(tidied(shorter, head).len() as int));
    } else {
        assert(path.take(path.len() as int) =~= path);
    }
}

/// A relative path with a component at its start is never tidied away.
proof fn lemma_tidied_keeps_a_start(path: Seq<u8>)
    requires
        path.len() > 0,
        head_length(path) == 0,
    ensures
        tidied(path, 0).len() > 0,
    decreases path.len(),
{
    if last_is_void(path, 0) {
        cutting_shortens(path, 0);
        lemma_last_start_at_separator(path, 0);
        let start = last_start(path, 0);
        let shorter = without_last(path, 0);
        if start == 0 {
            assert(path.len() == 1 && path[0] == 46);
        } else {
            assert(path[start - 1] == 47);
            assert(start - 1 > 0);
            assert(shorter[0] == path[0]);
            assert(shorter.len() > 1 ==> shorter[1] == path[1]);
            if shorter.len() == 1 {
                assert(path[1] == 47);
            }
            lemma_tidied_keeps_a_start(shorter);
        }
    }
}

proof fn lemma_last_start_at_separator(path: Seq<u8>, head: nat)
    requires
        head <= path.len(),
    ensures
        last_start(path, head) > head ==> path[last_start(path, head) - 1] == 47,
    decreases path.len(),
{
    if path.len() > head && path.last() != 47 {
        cutting_shortens(path.drop_last(), head);
        lemma_last_start_at_separator(path.drop_last(), head);
    }
}

/// Separators at the end of a path, and a `.` behind one, do not change what its parent is, nor,
/// in a directory, what the parent of a name in it is.
pub proof fn parents_overlook_what_says_nothing(path: Seq<u8>, name: Seq<u8>)
    requires
        path.len() > 0,
        name.len() > 0,
        !name.contains(47),
        name != seq![46u8],
    ensures
        parent_of(path.push(47)) == parent_of(path),
        parent_of(path.push(47).push(46)) == parent_of(path),
        parent_of(path.push(47).push(47) + name) == parent_of(path.push(47) + name),
        parent_of(path.push(47).push(46).push(47) + name) == parent_of(path.push(47) + name),
{
    let head = head_length(path);
    let ended = path.push(47);
    let dotted = ended.push(46);
    assert(head_length(ended) == head);
    assert(head_length(dotted) == head);
    lemma_void_end(path, head);
    assert(ended.drop_last() =~= path);
    lemma_parent_of_name(path, name);
    assert(name.contains(name[0]));
    assert(ended + name =~= path.push(47) + name);
    assert(head_length(ended.push(47)) == head);
    assert(head_length(dotted.push(47)) == head);
    lemma_parent_of_name(ended, name);
    lemma_parent_of_name(dotted, name);
}

proof fn lemma_void_end(path: Seq<u8>, head: nat)
    requires
        path.len() > 0,
        head == head_length(path),
    ensures
        tidied(path.push(47), head) == tidied(path, head),
        tidied(path.push(47).push(46), head) == tidied(path, head),
{
    let ended = path.push(47);
    let dotted = ended.push(46);
    assert(last_start(ended, head) == ended.len());
    assert(without_last(ended, head) =~= path);
    assert(dotted.drop_last() =~= ended);
    assert(last_start(dotted, head) == ended.len());
    assert(last_is_void(dotted, head));
    assert(without_last(dotted, head) =~= path);
}

/// The parent of a name in a directory is the directory without what says nothing at its end.
proof fn lemma_parent_of_name(directory: Seq<u8>, name: Seq<u8>)
    requires
        directory.len() > 0,
        name.len() > 0,
        !name.contains(47),
        name != seq![46u8],
    ensures
        parent_of(directory.push(47) + name) == Some(
            tidied(directory, head_length(directory)),
        ),
{
    let head = head_length(directory);
    let front = directory.push(47);
    let path = front + name;
    assert(path[0] == directory[0]);
    assert(directory.len() > 1 ==> path[1] == directory[1]);
    assert(directory.len() == 1 ==> path[1] == 47);
    assert(head_length(path) == head);
    lemma_last_start_of_name(front, name, head);
    assert(name.len() == 1 ==> (name[0] == 46 ==> name =~= seq![46u8]));
    assert(path[front.len() as int] == name[0]);
    assert(!last_is_void(path, head));
    assert(without_last(path, head) =~= directory);
}

/// Where a directory is named, by a variable that is not empty, the files that it is for lie in it,
/// under fixed names, whatever the home directory and the other variables are.
pub proof fn files_lie_in_the_directories_that_are_named(
    environment: XdgEnvironment,
    home: Seq<u8>,
    directory: OsPath,
)
    requires
        directory.bytes@.len() > 0,
    ensures
        ({
            let paths = usual_paths(environment, home);
            &&& environment.config_home == Some(directory) ==> paths.config_file == joined(
                directory.bytes@,
                encode_utf8("tgdyk/config.toml"@),
            )
            &&& environment.data_home == Some(directory) ==> paths.database_dir == joined(
                directory.bytes@,
                encode_utf8("tgdyk/tdlib/database"@),
            ) && paths.files_dir == joined(directory.bytes@, encode_utf8("tgdyk/tdlib/files"@))
            &&& environment.runtime_dir == Some(directory) ==> paths.socket_path == joined(
                directory.bytes@,
                encode_utf8("tgdyk/tgdyk.sock"@),
            )
            &&& environment.runtime_dir is None && environment.cache_home == Some(directory)
                ==> paths.socket_path == joined(
                directory.bytes@,
                encode_utf8("tgdyk/run/tgdyk.sock"@),
            )
        }),
{
}

/// Where none is named, or an empty one, the files lie in the usual places of the home directory.
pub proof fn files_lie_in_the_home_directory_otherwise(environment: XdgEnvironment, home: Seq<u8>)
    ensures
        ({
            let paths = usual_paths(environment, home);
            let unnamed = |named: Option<OsPath>|
                named matches Some(directory) ==> directory.bytes@.len() == 0;
            let below = |place: &str, name: &str|
                joined(joined(home, encode_utf8(place@)), encode_utf8(name@));
            &&& unnamed(environment.config_home) ==> paths.config_file == below(
                ".config",
                "tgdyk/config.toml",
            )
            &&& unnamed(environment.data_home) ==> paths.database_dir == below(
                ".local/share",
                "tgdyk/tdlib/database",
            ) && paths.files_dir == below(".local/share", "tgdyk/tdlib/files")
            &&& environment.runtime_dir is None && unnamed(environment.cache_home)
                ==> paths.socket_path == below(".cache", "tgdyk/run/tgdyk.sock")
        }),
{
}

/// Each variable moves its own files and no others: two environments of one user that agree in a
/// variable agree in the files that it is for.
pub proof fn variables_move_their_own_files(
    left: XdgEnvironment,
    right: XdgEnvironment,
    home: Seq<u8>,
)
    ensures
        left.config_home == right.config_home ==> usual_paths(left, home).config_file == usual_paths(
            right,
            home,
        ).config_file,
        left.data_home == right.data_home ==> usual_paths(left, home).database_dir == usual_paths(
            right,
            home,
        ).database_dir && usual_paths(left, home).files_dir == usual_paths(right, home).files_dir,
        left.runtime_dir == right.runtime_dir && left.cache_home == right.cache_home
            ==> usual_paths(left, home).socket_path == usual_paths(right, home).socket_path,
{
}

/// The four paths are seen as they are.
pub proof fn paths_are_seen_as_they_are(paths: XdgPaths)
    ensures
        paths@.config_file == paths.config_file.bytes@,
        paths@.database_dir == paths.database_dir.bytes@,
        paths@.files_dir == paths.files_dir.bytes@,
        paths@.socket_path == paths.socket_path.bytes@,
{
}

/// A text that does not start with a separator is not encoded with one in front.
pub proof fn lemma_no_separator_in_front(rest: Seq<char>)
    requires
        rest.len() > 0,
        rest.first() != '/',
    ensures
        encode_utf8(rest).len() > 0,
        encode_utf8(rest).first() != 47,
{
    lemma_end_bytes(rest);
    lemma_no_separator(rest.first());
}

} // verus!
