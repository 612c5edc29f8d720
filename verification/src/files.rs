//! What is done to files, directories and sockets, decided before it is done.
use crate::config::{Config, FileConfig, FileConfigView};
use crate::document;
use crate::failure;
use crate::failure::{Failure, FailureView};
use crate::paths;
use crate::paths::OsPath;
use crate::text;
use vstd::prelude::*;

verus! {

/// The permission bits of a directory that is the user's alone.
pub const PRIVATE_DIR_MODE: u32 = 0o700;

/// The permission bits of a file that is the user's alone.
pub const PRIVATE_FILE_MODE: u32 = 0o600;

/// One thing that is done to the file system, over paths `P` and texts `T`.
#[derive(Debug, PartialEq, Eq)]
pub enum FileActionOf<P, T> {
    /// Create a directory and the directories above it that are missing.
    CreateDir(P),
    /// Set the permission bits of what is at a path.
    SetMode { path: P, mode: u32 },
    /// Write a text to a file, which is emptied before, or created with these permission bits.
    WriteConfig { path: P, mode: u32, text: T },
    /// Remove a socket.
    RemoveSocket(P),
    /// Listen at a new socket.
    Listen(P),
}

pub type FileAction = FileActionOf<OsPath, String>;

pub type FileActionView = FileActionOf<Seq<u8>, Seq<char>>;

impl View for FileAction {
    type V = FileActionView;

    open spec fn view(&self) -> FileActionView {
        match self {
            FileAction::CreateDir(path) => FileActionView::CreateDir(path@),
            FileAction::SetMode { path, mode } => FileActionView::SetMode {
                path: path@,
                mode: *mode,
            },
            FileAction::WriteConfig { path, mode, text } => FileActionView::WriteConfig {
                path: path@,
                mode: *mode,
                text: text@,
            },
            FileAction::RemoveSocket(path) => FileActionView::RemoveSocket(path@),
            FileAction::Listen(path) => FileActionView::Listen(path@),
        }
    }
}

/// What is told when an action cannot be done.
pub open spec fn action_failure(action: FileActionView) -> Seq<char> {
    match action {
        FileActionView::CreateDir(path) => "failed to create "@ + paths::shown(path),
        FileActionView::SetMode { path, mode } => "failed to set "@ + text::octal(mode as nat)
            + (" permissions on "@ + paths::shown(path)),
        FileActionView::WriteConfig { path, .. } => "failed to write config "@ + paths::shown(
            path,
        ),
        FileActionView::RemoveSocket(path) => "failed to remove socket "@ + paths::shown(path),
        FileActionView::Listen(path) => "failed to bind "@ + paths::shown(path),
    }
}

impl FileActionOf<OsPath, String> {
    /// What is told when this cannot be done.
    pub fn failure_text(&self) -> (told: String)
        ensures
            told@ == action_failure(self@),
    {
        match self {
            FileAction::CreateDir(path) => failure::about_path("failed to create ", path),
            FileAction::SetMode { path, mode } => {
                let mut told = "failed to set ".to_owned();
                let bits = text::octal_text(*mode);
                told.append(bits.as_str());
                let place = failure::about_path(" permissions on ", path);
                told.append(place.as_str());
                told
            },
            FileAction::WriteConfig { path, .. } => failure::about_path("failed to write config ", path),
            FileAction::RemoveSocket(path) => failure::about_path("failed to remove socket ", path),
            FileAction::Listen(path) => failure::about_path("failed to bind ", path),
        }
    }
}

/// The views of a sequence of actions.
pub open spec fn action_views(actions: Seq<FileAction>) -> Seq<FileActionView> {
    actions.map_values(|action: FileAction| action@)
}

/// A directory that is made, where it is missing, and given to the user alone.
pub open spec fn private_dir(path: Seq<u8>) -> Seq<FileActionView> {
    seq![
        FileActionView::CreateDir(path),
        FileActionView::SetMode { path, mode: PRIVATE_DIR_MODE },
    ]
}

/// Makes a directory, where it is missing, and gives it to the user alone.
pub fn ensure_private_dir(path: &OsPath) -> (actions: Vec<FileAction>)
    ensures
        action_views(actions@) == private_dir(path@),
{
    let mut actions: Vec<FileAction> = Vec::new();
    actions.push(FileAction::CreateDir(path.duplicate()));
    actions.push(set_private_file_permissions(path, PRIVATE_DIR_MODE));
    assert(action_views(actions@) =~= private_dir(path@));
    actions
}

/// What makes the two directories of a session.
pub open spec fn session_directories(database_dir: Seq<u8>, files_dir: Seq<u8>) -> Seq<
    FileActionView,
> {
    private_dir(database_dir) + private_dir(files_dir)
}

/// Makes the directories in which TDLib keeps a session.
pub fn session_dirs(config: &Config) -> (actions: Vec<FileAction>)
    ensures
        action_views(actions@) == private_dir(config.database_dir@) + private_dir(
            config.files_dir@,
        ),
        action_views(actions@) == session_directories(config.database_dir@, config.files_dir@),
{
    let mut actions = ensure_private_dir(&config.database_dir);
    let mut more = ensure_private_dir(&config.files_dir);
    let ghost first = actions@;
    let ghost second = more@;
    actions.append(&mut more);
    assert(action_views(first + second) =~= action_views(first) + action_views(second));
    actions
}

/// Sets the permission bits of what is at `path`.
pub fn set_private_file_permissions(path: &OsPath, mode: u32) -> (action: FileAction)
    ensures
        action@ == (FileActionView::SetMode { path: path@, mode }),
{
    FileAction::SetMode { path: path.duplicate(), mode }
}

/// What saves a config: the directory of its path is made, then the file is written, and both are
/// given to the user alone.
pub open spec fn saved_config(path: Seq<u8>, text: Seq<char>) -> Seq<FileActionView> {
    (match paths::parent_of(path) {
        Some(parent) => private_dir(parent),
        None => Seq::empty(),
    }) + seq![
        FileActionView::WriteConfig { path, mode: PRIVATE_FILE_MODE, text },
        FileActionView::SetMode { path, mode: PRIVATE_FILE_MODE },
    ]
}

/// Saves a config at `path`. What is written reads back as the config.
pub fn save_file_config(path: &OsPath, file: &FileConfig) -> (actions: Result<
    Vec<FileAction>,
    Failure,
>)
    ensures
        match actions {
            Ok(actions) => {
                let text = document::toml_text(document::stored(file@));
                &&& document::storable(file@)
                &&& action_views(actions@) == saved_config(path@, text)
                &&& document::parsed_config(text) == Ok::<FileConfigView, Seq<char>>(file@)
            },
            Err(failure) => {
                &&& !document::storable(file@)
                &&& failure@ == FailureView::ConfigUnserializable(
                    "path contains invalid UTF-8 characters"@,
                )
            },
        },
{
    let text = match document::config_text(file) {
        Ok(text) => text,
        Err(failure) => return Err(failure),
    };
    let parent = path.parent();
    let mut actions: Vec<FileAction> = match &parent {
        Some(parent) => ensure_private_dir(parent),
        None => Vec::new(),
    };
    assert(parent is None ==> action_views(actions@) =~= Seq::empty());
    actions.push(
        FileAction::WriteConfig { path: path.duplicate(), mode: PRIVATE_FILE_MODE, text },
    );
    actions.push(set_private_file_permissions(path, PRIVATE_FILE_MODE));
    assert(action_views(actions@) =~= saved_config(path@, text@));
    Ok(actions)
}

/// What is at the parent of the socket's path.
#[derive(Debug, PartialEq, Eq)]
pub enum ParentProbe {
    Missing,
    NotDirectory,
    Unreadable(String),
    /// A directory, with its mode.
    Directory(u32),
}

/// The permission bits of a mode.
pub open spec fn permission_bits(mode: u32) -> u32 {
    mode & 0o777
}

/// Whether a mode lets the group or others write.
pub open spec fn writable_by_others(mode: u32) -> bool {
    mode & 0o020 != 0 || mode & 0o002 != 0
}

/// How the directory of the socket at `path` is seen to, where `probe` says how it is found: one
/// that is missing is made and given to the user alone, and one that is there is left as it is,
/// unless others could put a socket of theirs into it.
pub open spec fn parent_prepared(path: Seq<u8>, probe: ParentProbe) -> Result<
    Seq<FileActionView>,
    FailureView,
> {
    match (paths::parent_of(path), probe) {
        (None, _) => Ok(Seq::empty()),
        (Some(parent), ParentProbe::Missing) => Ok(private_dir(parent)),
        (Some(parent), ParentProbe::NotDirectory) => Err(FailureView::ParentNotDirectory(parent)),
        (Some(parent), ParentProbe::Unreadable(cause)) => Err(
            FailureView::Uninspectable { path: parent, cause: cause@ },
        ),
        (Some(parent), ParentProbe::Directory(mode)) => if writable_by_others(mode) {
            Err(FailureView::InsecureParent { path: parent, mode: permission_bits(mode) })
        } else {
            Ok(Seq::empty())
        },
    }
}

/// Sees to the directory of the socket at `path`, where `probe` says how its parent is found.
pub fn ensure_socket_parent(path: &OsPath, probe: ParentProbe) -> (actions: Result<
    Vec<FileAction>,
    Failure,
>)
    ensures
        match actions {
            Ok(actions) => parent_prepared(path@, probe) == Ok::<Seq<FileActionView>, FailureView>(
                action_views(actions@),
            ),
            Err(failure) => parent_prepared(path@, probe) == Err::<
                Seq<FileActionView>,
                FailureView,
            >(failure@),
        },
{
    assert(action_views(Seq::empty()) =~= Seq::empty());
    let parent = match path.parent() {
        Some(parent) => parent,
        None => return Ok(Vec::new()),
    };
    match probe {
        ParentProbe::Missing => Ok(ensure_private_dir(&parent)),
        ParentProbe::NotDirectory => Err(Failure::ParentNotDirectory(parent)),
        ParentProbe::Unreadable(cause) => Err(Failure::Uninspectable { path: parent, cause }),
        ParentProbe::Directory(whole) => {
            let mode: u32 = whole & 0o777;
            assert(((whole & 0o777) & 0o022 != 0) == (whole & 0o020 != 0 || whole & 0o002 != 0))
                by (bit_vector);
            if mode & 0o022 != 0 {
                Err(Failure::InsecureParent { path: parent, mode })
            } else {
                Ok(Vec::new())
            }
        },
    }
}

/// What is at a path.
#[derive(Debug, PartialEq, Eq)]
pub enum PathProbe {
    Missing,
    Unreadable(String),
    Socket,
    Other,
}

/// The state of the daemon's socket at `path`, where `probe` says what is: the path, where it is
/// a socket.
pub fn daemon_socket_status(path: &OsPath, probe: &PathProbe) -> (status: Result<String, Failure>)
    ensures
        match probe {
            PathProbe::Missing => status matches Err(failure) && failure@ == FailureView::Missing(
                path@,
            ),
            PathProbe::Unreadable(cause) => status matches Err(failure) && failure@
                == (FailureView::Uninspectable { path: path@, cause: cause@ }),
            PathProbe::Other => status matches Err(failure) && failure@ == FailureView::NotASocket(
                path@,
            ),
            PathProbe::Socket => status matches Ok(shown) && shown@ == paths::shown(path@),
        },
{
    match probe {
        PathProbe::Missing => Err(Failure::Missing(path.duplicate())),
        PathProbe::Unreadable(cause) => Err(
            Failure::Uninspectable { path: path.duplicate(), cause: cause.clone() },
        ),
        PathProbe::Other => Err(Failure::NotASocket(path.duplicate())),
        PathProbe::Socket => Ok(path.display()),
    }
}

/// How the removal of the socket at `path` goes.
pub open spec fn socket_removal(path: Seq<u8>, probe: PathProbe) -> Result<
    Option<FileActionView>,
    FailureView,
> {
    match probe {
        PathProbe::Missing | PathProbe::Other => Ok(None),
        PathProbe::Unreadable(cause) => Err(FailureView::Uninspectable { path, cause: cause@ }),
        PathProbe::Socket => Ok(Some(FileActionView::RemoveSocket(path))),
    }
}

/// The removal of the socket at `path`: only a socket is removed.
pub fn remove_socket_if_present(path: &OsPath, probe: &PathProbe) -> (removal: Result<
    Option<FileAction>,
    Failure,
>)
    ensures
        match probe {
            PathProbe::Missing | PathProbe::Other => removal matches Ok(None),
            PathProbe::Unreadable(cause) => removal matches Err(failure) && failure@
                == (FailureView::Uninspectable { path: path@, cause: cause@ }),
            PathProbe::Socket => removal matches Ok(Some(action)) && action@
                == FileActionView::RemoveSocket(path@),
        },
        socket_removal(path@, *probe) == match removal {
            Ok(Some(action)) => Ok(Some(action@)),
            Ok(None) => Ok(None),
            Err(failure) => Err(failure@),
        },
{
    match probe {
        PathProbe::Missing | PathProbe::Other => Ok(None),
        PathProbe::Unreadable(cause) => Err(
            Failure::Uninspectable { path: path.duplicate(), cause: cause.clone() },
        ),
        PathProbe::Socket => Ok(Some(FileAction::RemoveSocket(path.duplicate()))),
    }
}

/// Who is at the socket's path.
#[derive(Debug, PartialEq, Eq)]
pub enum Occupant {
    /// Nothing is there.
    Nobody,
    /// A daemon answers.
    Daemon,
    /// Something is there that does not answer; the probe says what.
    Silent(PathProbe),
}

/// A socket that is listened at, and given to the user alone.
pub open spec fn private_socket(path: Seq<u8>) -> Seq<FileActionView> {
    seq![
        FileActionView::Listen(path),
        FileActionView::SetMode { path, mode: PRIVATE_FILE_MODE },
    ]
}

/// How the socket at `path` is taken: a daemon that answers keeps it, a socket that was left
/// behind gives way, and anything else stays where it is.
pub open spec fn socket_taken(path: Seq<u8>, occupant: Occupant) -> Result<
    Seq<FileActionView>,
    FailureView,
> {
    match occupant {
        Occupant::Nobody => Ok(private_socket(path)),
        Occupant::Daemon => Err(FailureView::AlreadyRunning(path)),
        Occupant::Silent(PathProbe::Socket) => Ok(
            seq![FileActionView::RemoveSocket(path)] + private_socket(path),
        ),
        Occupant::Silent(PathProbe::Unreadable(cause)) => Err(
            FailureView::Uninspectable { path, cause: cause@ },
        ),
        Occupant::Silent(_) => Err(FailureView::NotRemoved(path)),
    }
}

/// Takes the socket at `path`.
pub fn bind_socket(path: &OsPath, occupant: &Occupant) -> (actions: Result<
    Vec<FileAction>,
    Failure,
>)
    ensures
        match actions {
            Ok(actions) => socket_taken(path@, *occupant) == Ok::<Seq<FileActionView>, FailureView>(
                action_views(actions@),
            ),
            Err(failure) => socket_taken(path@, *occupant) == Err::<
                Seq<FileActionView>,
                FailureView,
            >(failure@),
        },
{
    let mut actions: Vec<FileAction> = Vec::new();
    match occupant {
        Occupant::Nobody => {},
        Occupant::Daemon => return Err(Failure::AlreadyRunning(path.duplicate())),
        Occupant::Silent(probe) => {
            match remove_socket_if_present(path, probe) {
                Ok(Some(removal)) => {
                    actions.push(removal);
                },
                Ok(None) => return Err(Failure::NotRemoved(path.duplicate())),
                Err(failure) => return Err(failure),
            }
        },
    }
    actions.push(FileAction::Listen(path.duplicate()));
    actions.push(set_private_file_permissions(path, PRIVATE_FILE_MODE));
    proof {
        let wanted = socket_taken(path@, *occupant);
        assert(wanted is Ok);
        assert(action_views(actions@) =~= wanted->Ok_0);
    }
    Ok(actions)
}

/// How far the daemon is in taking its socket.
#[derive(Clone, Copy, Debug, PartialEq, Eq, Structural)]
pub enum BindStage {
    /// See to the directory of the socket.
    CheckParent,
    /// Take the socket.
    TakeSocket,
    /// The socket is listened at.
    Bound,
    /// The socket was not taken.
    Refused,
}

impl BindStage {
    /// What comes after this stage, which succeeded or not.
    pub open spec fn following(self, succeeded: bool) -> BindStage {
        match self {
            BindStage::CheckParent if succeeded => BindStage::TakeSocket,
            BindStage::TakeSocket if succeeded => BindStage::Bound,
            BindStage::Bound => BindStage::Bound,
            _ => BindStage::Refused,
        }
    }

    /// What comes after this stage.
    pub fn next(self, succeeded: bool) -> (stage: BindStage)
        ensures
            stage == self.following(succeeded),
    {
        match self {
            BindStage::CheckParent => if succeeded {
                BindStage::TakeSocket
            } else {
                BindStage::Refused
            },
            BindStage::TakeSocket => if succeeded {
                BindStage::Bound
            } else {
                BindStage::Refused
            },
            BindStage::Bound => BindStage::Bound,
            BindStage::Refused => BindStage::Refused,
        }
    }
}

/// Whether nobody but the user can put anything beside the socket at `path`, whose parent is found
/// as `probe` says, once that parent has been seen to.
pub open spec fn safe_parent(path: Seq<u8>, probe: ParentProbe) -> bool {
    paths::parent_of(path) is None || match probe {
        ParentProbe::Missing => true,
        ParentProbe::Directory(mode) => !writable_by_others(mode),
        ParentProbe::NotDirectory | ParentProbe::Unreadable(_) => false,
    }
}

/// The daemon listens only after it has seen to the socket's directory with success, and so only
/// in a directory that is safe, and never beside a daemon that answers: a stage succeeds only
/// where there is a way to do it, and the first that does not ends it all.
pub proof fn listening_needs_a_safe_parent(
    path: Seq<u8>,
    probe: ParentProbe,
    occupant: Occupant,
    checked: bool,
    taken: bool,
)
    requires
        checked ==> parent_prepared(path, probe) is Ok,
        taken ==> socket_taken(path, occupant) is Ok,
    ensures
        ({
            let second = BindStage::CheckParent.following(checked);
            let last = second.following(taken);
            &&& second == BindStage::TakeSocket ==> safe_parent(path, probe)
            &&& last == BindStage::Bound <==> checked && taken
            &&& last == BindStage::Bound ==> occupant != Occupant::Daemon
            &&& !checked ==> second == BindStage::Refused && last == BindStage::Refused
        }),
        parent_prepared(path, probe) is Ok <==> safe_parent(path, probe),
{
}

/// Whether what `actions` leave is the user's alone: no file is written and no socket opened but
/// with a private mode, and what is made is given a private mode in the next action.
pub open spec fn leave_private(actions: Seq<FileActionView>) -> bool {
    forall|i: int|
        0 <= i < actions.len() ==> match #[trigger] actions[i] {
            FileActionView::CreateDir(path) => i + 1 < actions.len() && actions[i + 1]
                == (FileActionView::SetMode { path, mode: PRIVATE_DIR_MODE }),
            FileActionView::WriteConfig { path, mode, .. } => mode == PRIVATE_FILE_MODE && i + 1
                < actions.len() && actions[i + 1] == (FileActionView::SetMode { path, mode }),
            FileActionView::Listen(path) => i + 1 < actions.len() && actions[i + 1]
                == (FileActionView::SetMode { path, mode: PRIVATE_FILE_MODE }),
            FileActionView::SetMode { mode, .. } => mode == PRIVATE_DIR_MODE || mode
                == PRIVATE_FILE_MODE,
            FileActionView::RemoveSocket(_) => true,
        }
}

/// Everything that is made is the user's alone: directories, the config file, the socket.
pub proof fn what_is_made_is_private(
    path: Seq<u8>,
    probe: ParentProbe,
    text: Seq<char>,
    occupant: Occupant,
)
    ensures
        leave_private(private_dir(path)),
        leave_private(saved_config(path, text)),
        parent_prepared(path, probe) matches Ok(actions) ==> leave_private(actions),
        socket_taken(path, occupant) matches Ok(actions) ==> leave_private(actions),
        PRIVATE_DIR_MODE & 0o077 == 0,
        PRIVATE_FILE_MODE & 0o077 == 0,
{
    assert(0o700u32 & 0o077 == 0) by (bit_vector);
    assert(0o600u32 & 0o077 == 0) by (bit_vector);
}

/// Nothing but a socket that no daemon answers at is ever removed to take the socket's place.
pub proof fn only_dead_sockets_are_removed(path: Seq<u8>, occupant: Occupant)
    ensures
        match socket_taken(path, occupant) {
            Ok(actions) => actions.contains(FileActionView::RemoveSocket(path)) <==> occupant
                == Occupant::Silent(PathProbe::Socket),
            Err(_) => true,
        },
        occupant == Occupant::Daemon || occupant == Occupant::Silent(PathProbe::Other)
            ==> socket_taken(path, occupant) is Err,
{
    if occupant == Occupant::Silent(PathProbe::Socket) {
        let actions = seq![FileActionView::RemoveSocket(path)] + private_socket(path);
        assert(actions[0] == FileActionView::RemoveSocket(path));
    }
}

/// A private directory is made at its path, then given mode 700 at the same path, and nothing else
/// is touched.
pub proof fn private_directories_take_two_actions(path: Seq<u8>)
    ensures
        private_dir(path) == seq![
            FileActionView::CreateDir(path),
            FileActionView::SetMode { path, mode: 0o700 },
        ],
{
}

/// A config is saved by writing its text, once and in full, to its path with mode 600 and by
/// setting that mode; before that its directory is made, where it has one, and nothing else is
/// touched.
pub proof fn saving_writes_the_text_once(path: Seq<u8>, text: Seq<char>)
    ensures
        ({
            let actions = saved_config(path, text);
            let start = if paths::parent_of(path) is Some {
                2int
            } else {
                0int
            };
            &&& actions.len() == start + 2
            &&& actions[start] == (FileActionView::WriteConfig { path, mode: 0o600, text })
            &&& actions[start + 1] == (FileActionView::SetMode { path, mode: 0o600 })
            &&& paths::parent_of(path) matches Some(parent) ==> actions[0]
                == FileActionView::CreateDir(parent) && actions[1] == (FileActionView::SetMode {
                path: parent,
                mode: 0o700,
            })
        }),
{
}

/// The group and others can write exactly where the mode has one of their two bits; the bits of
/// the owner, those for reading and those above the permissions do not matter. The permission bits
/// are the nine lowest.
pub proof fn two_bits_let_others_write(mode: u32, other: u32)
    ensures
        writable_by_others(mode) <==> mode & 0o022 != 0,
        mode & 0o022 == other & 0o022 ==> writable_by_others(mode) == writable_by_others(other),
        writable_by_others(permission_bits(mode)) == writable_by_others(mode),
        permission_bits(mode) == mode & 0o777,
        permission_bits(mode) <= 0o777,
{
    assert((mode & 0o020 != 0 || mode & 0o002 != 0) == (mode & 0o022 != 0)) by (bit_vector);
    assert((other & 0o020 != 0 || other & 0o002 != 0) == (other & 0o022 != 0)) by (bit_vector);
    assert((mode & 0o777) & 0o020 == mode & 0o020 && (mode & 0o777) & 0o002 == mode & 0o002 && mode
        & 0o777 <= 0o777) by (bit_vector);
}

/// The directory of the socket is made where it is missing, left alone where it is there and safe,
/// and refused in all other cases, each with its own failure, which names the directory. A path
/// without a parent needs none.
pub proof fn parents_are_made_left_or_refused(path: Seq<u8>, probe: ParentProbe, parent: Seq<u8>)
    ensures
        paths::parent_of(path) is None ==> parent_prepared(path, probe) == Ok::<
            Seq<FileActionView>,
            FailureView,
        >(Seq::empty()),
        paths::parent_of(path) == Some(parent) ==> match probe {
            ParentProbe::Missing => parent_prepared(path, probe) matches Ok(actions) && actions
                == seq![
                FileActionView::CreateDir(parent),
                FileActionView::SetMode { path: parent, mode: 0o700 },
            ],
            ParentProbe::NotDirectory => parent_prepared(path, probe) matches Err(failure) && failure
                == FailureView::ParentNotDirectory(parent),
            ParentProbe::Unreadable(cause) => parent_prepared(path, probe) matches Err(failure)
                && failure == (FailureView::Uninspectable { path: parent, cause: cause@ }),
            ParentProbe::Directory(mode) => if mode & 0o022 == 0 {
                parent_prepared(path, probe) matches Ok(actions) && actions.len() == 0
            } else {
                parent_prepared(path, probe) matches Err(failure) && failure
                    == (FailureView::InsecureParent { path: parent, mode: mode & 0o777 })
            },
        },
{
    if let ParentProbe::Directory(mode) = probe {
        two_bits_let_others_write(mode, mode);
    }
}

/// A socket is listened at and given mode 600, in this order and at its own path, and at most the
/// removal of a dead socket at the same path comes before; a daemon that answers, a file and what
/// cannot be inspected are left alone, each with its own failure.
pub proof fn sockets_are_taken_or_refused(path: Seq<u8>, occupant: Occupant)
    ensures
        match occupant {
            Occupant::Nobody => socket_taken(path, occupant) matches Ok(actions) && actions == seq![
                FileActionView::Listen(path),
                FileActionView::SetMode { path, mode: 0o600 },
            ],
            Occupant::Silent(PathProbe::Socket) => socket_taken(path, occupant) matches Ok(actions)
                && actions == seq![
                FileActionView::RemoveSocket(path),
                FileActionView::Listen(path),
                FileActionView::SetMode { path, mode: 0o600 },
            ],
            Occupant::Daemon => socket_taken(path, occupant) matches Err(failure) && failure
                == FailureView::AlreadyRunning(path),
            Occupant::Silent(PathProbe::Unreadable(cause)) => socket_taken(
                path,
                occupant,
            ) matches Err(failure) && failure == (FailureView::Uninspectable { path, cause: cause@ }),
            Occupant::Silent(PathProbe::Other) => socket_taken(path, occupant) matches Err(failure)
                && failure == FailureView::NotRemoved(path),
            Occupant::Silent(PathProbe::Missing) => socket_taken(path, occupant) matches Err(failure)
                && failure == FailureView::NotRemoved(path),
        },
{
    if occupant == Occupant::Silent(PathProbe::Socket) {
        assert(socket_taken(path, occupant)->Ok_0 =~= seq![
            FileActionView::RemoveSocket(path),
            FileActionView::Listen(path),
            FileActionView::SetMode { path, mode: 0o600 },
        ]);
    }
}

/// What is told of an action that fails names the path, in full and at the end, behind fixed words
/// that say what was to be done.
pub proof fn failed_actions_name_their_path(path: Seq<u8>, mode: u32, text: Seq<char>)
    ensures
        action_failure(FileActionView::CreateDir(path)) == "failed to create "@ + text::lossy_text(
            path,
        ),
        action_failure(FileActionView::SetMode { path, mode }) == "failed to set "@ + text::octal(
            mode as nat,
        ) + " permissions on "@ + text::lossy_text(path),
        action_failure(FileActionView::WriteConfig { path, mode, text }) == "failed to write config "@
            + text::lossy_text(path),
        action_failure(FileActionView::RemoveSocket(path)) == "failed to remove socket "@
            + text::lossy_text(path),
        action_failure(FileActionView::Listen(path)) == "failed to bind "@ + text::lossy_text(path),
        paths::shown(path) == text::lossy_text(path),
{
    assert(action_failure(FileActionView::SetMode { path, mode }) =~= "failed to set "@ + text::octal(
        mode as nat,
    ) + " permissions on "@ + text::lossy_text(path));
}

/// Actions are seen as they are: with their paths, modes and texts, one for one.
pub proof fn actions_are_seen_as_they_are(actions: Seq<FileAction>, i: int)
    requires
        0 <= i < actions.len(),
    ensures
        action_views(actions).len() == actions.len(),
        match (actions[i], action_views(actions)[i]) {
            (FileAction::CreateDir(path), FileActionView::CreateDir(seen)) => seen == path.bytes@,
            (
                FileAction::SetMode { path, mode },
                FileActionView::SetMode { path: seen, mode: bits },
            ) => seen == path.bytes@ && bits == mode,
            (
                FileAction::WriteConfig { path, mode, text },
                FileActionView::WriteConfig { path: seen, mode: bits, text: written },
            ) => seen == path.bytes@ && bits == mode && written == text@,
            (FileAction::RemoveSocket(path), FileActionView::RemoveSocket(seen)) => seen
                == path.bytes@,
            (FileAction::Listen(path), FileActionView::Listen(seen)) => seen == path.bytes@,
            _ => false,
        },
{
}

/// The stages of taking a socket: the next one where the one before succeeded, the end where it
/// did not, and no way back from either end.
pub proof fn bind_stages_follow_each_other(succeeded: bool)
    ensures
        BindStage::CheckParent.following(true) == BindStage::TakeSocket,
        BindStage::TakeSocket.following(true) == BindStage::Bound,
        BindStage::CheckParent.following(false) == BindStage::Refused,
        BindStage::TakeSocket.following(false) == BindStage::Refused,
        BindStage::Bound.following(succeeded) == BindStage::Bound,
        BindStage::Refused.following(succeeded) == BindStage::Refused,
{
}

/// The directories of a session are made one after the other, that of the database first, and each
/// is given mode 700 as soon as it is there.
pub proof fn sessions_get_two_private_directories(database_dir: Seq<u8>, files_dir: Seq<u8>)
    ensures
        session_directories(database_dir, files_dir) == seq![
            FileActionView::CreateDir(database_dir),
            FileActionView::SetMode { path: database_dir, mode: 0o700 },
            FileActionView::CreateDir(files_dir),
            FileActionView::SetMode { path: files_dir, mode: 0o700 },
        ],
{
    assert(session_directories(database_dir, files_dir) =~= seq![
        FileActionView::CreateDir(database_dir),
        FileActionView::SetMode { path: database_dir, mode: 0o700 },
        FileActionView::CreateDir(files_dir),
        FileActionView::SetMode { path: files_dir, mode: 0o700 },
    ]);
}

/// Cleaning up removes something only where a socket is, and then what is at the path itself; it
/// fails only where the path cannot be looked at, and tells why; all else it leaves alone.
pub proof fn only_sockets_are_cleaned_up(path: Seq<u8>, probe: PathProbe)
    ensures
        probe is Socket <==> (socket_removal(path, probe) matches Ok(removal) && removal is Some),
        socket_removal(path, probe) matches Ok(Some(action)) ==> action
            == FileActionView::RemoveSocket(path),
        probe is Unreadable <==> socket_removal(path, probe) is Err,
        probe matches PathProbe::Unreadable(cause) ==> socket_removal(path, probe) == Err::<
            Option<FileActionView>,
            FailureView,
        >(FailureView::Uninspectable { path, cause: cause@ }),
{
}

} // verus!
