use tgdyk::config::{load_config, FileConfig, PathOverrides};
use tgdyk::failure::Failure;
use tgdyk::files::{
    bind_socket, daemon_socket_status, ensure_private_dir, ensure_socket_parent,
    remove_socket_if_present, save_file_config, session_dirs, set_private_file_permissions,
    BindStage, FileAction, Occupant, ParentProbe, PathProbe, PRIVATE_DIR_MODE, PRIVATE_FILE_MODE,
};
use tgdyk::paths::{OsPath, XdgPaths};

fn no_overrides() -> PathOverrides {
    PathOverrides {
        tdjson_path: None,
        database_dir: None,
        files_dir: None,
        socket_path: None,
    }
}

fn path(name: &str) -> OsPath {
    OsPath::from_name(name)
}

fn mode(name: &str, mode: u32) -> FileAction {
    FileAction::SetMode {
        path: path(name),
        mode,
    }
}

#[test]
fn regular_file_at_socket_path_is_rejected() {
    let at = path("/run/tgdyk.sock");
    let failure = bind_socket(&at, &Occupant::Silent(PathProbe::Other)).unwrap_err();
    assert!(failure.message().contains("refusing to remove non-socket"));
    assert_eq!(failure, Failure::NotRemoved(path("/run/tgdyk.sock")));

    let failure = daemon_socket_status(&at, &PathProbe::Other).unwrap_err();
    assert!(failure.message().contains("not a Unix socket"));
}

#[test]
fn remove_socket_if_present_keeps_regular_file() {
    let at = path("/run/tgdyk.sock");
    assert_eq!(remove_socket_if_present(&at, &PathProbe::Other), Ok(None));
    assert_eq!(remove_socket_if_present(&at, &PathProbe::Missing), Ok(None));
}

#[test]
fn created_socket_parent_is_made_private() {
    let actions = ensure_socket_parent(&path("/t/run/s"), ParentProbe::Missing).unwrap();
    assert_eq!(
        actions,
        vec![
            FileAction::CreateDir(path("/t/run")),
            mode("/t/run", PRIVATE_DIR_MODE)
        ]
    );
    assert_eq!(PRIVATE_DIR_MODE, 0o700);
}

#[test]
fn existing_socket_parent_permissions_are_preserved() {
    for kept in [0o755, 0o700, 0o40755, 0o1755] {
        let actions =
            ensure_socket_parent(&path("/t/s"), ParentProbe::Directory(kept)).unwrap();
        assert_eq!(actions, vec![]);
    }
}

#[test]
fn writable_socket_parent_is_rejected() {
    let failure =
        ensure_socket_parent(&path("/t/s"), ParentProbe::Directory(0o777)).unwrap_err();
    assert!(failure
        .message()
        .contains("socket parent has insecure permissions"));
    assert_eq!(
        failure.message(),
        "socket parent has insecure permissions 777: /t"
    );
    for (whole, bits) in [(0o40720, 0o720), (0o702, 0o702), (0o41777, 0o777)] {
        assert_eq!(
            ensure_socket_parent(&path("/t/s"), ParentProbe::Directory(whole)),
            Err(Failure::InsecureParent {
                path: path("/t"),
                mode: bits
            })
        );
    }
}

#[test]
fn socket_parents_that_are_none() {
    assert_eq!(
        ensure_socket_parent(&path("/"), ParentProbe::Missing),
        Ok(vec![])
    );
    let failure = ensure_socket_parent(&path("/t/s"), ParentProbe::NotDirectory).unwrap_err();
    assert_eq!(failure.message(), "socket parent is not a directory: /t");
    let failure = ensure_socket_parent(
        &path("/t/s"),
        ParentProbe::Unreadable("denied".to_string()),
    )
    .unwrap_err();
    assert_eq!(failure.message(), "failed to inspect /t");
    assert_eq!(failure.cause().as_deref(), Some("denied"));
}

#[test]
fn sockets_are_removed() {
    let at = path("/run/s");
    assert_eq!(
        remove_socket_if_present(&at, &PathProbe::Socket),
        Ok(Some(FileAction::RemoveSocket(path("/run/s"))))
    );
    let failure =
        remove_socket_if_present(&at, &PathProbe::Unreadable("denied".to_string())).unwrap_err();
    assert_eq!(failure.message(), "failed to inspect /run/s");
}

#[test]
fn free_socket_is_taken() {
    let at = path("/run/s");
    assert_eq!(
        bind_socket(&at, &Occupant::Nobody),
        Ok(vec![
            FileAction::Listen(path("/run/s")),
            mode("/run/s", PRIVATE_FILE_MODE)
        ])
    );
    assert_eq!(
        bind_socket(&at, &Occupant::Silent(PathProbe::Socket)),
        Ok(vec![
            FileAction::RemoveSocket(path("/run/s")),
            FileAction::Listen(path("/run/s")),
            mode("/run/s", PRIVATE_FILE_MODE)
        ])
    );
    assert_eq!(PRIVATE_FILE_MODE, 0o600);
}

#[test]
fn socket_in_use_is_left_alone() {
    let at = path("/run/s");
    let failure = bind_socket(&at, &Occupant::Daemon).unwrap_err();
    assert_eq!(
        failure.message(),
        "daemon already appears to be running at /run/s"
    );
    assert_eq!(
        bind_socket(&at, &Occupant::Silent(PathProbe::Missing)),
        Err(Failure::NotRemoved(path("/run/s")))
    );
    assert_eq!(
        bind_socket(
            &at,
            &Occupant::Silent(PathProbe::Unreadable("denied".to_string()))
        ),
        Err(Failure::Uninspectable {
            path: path("/run/s"),
            cause: "denied".to_string()
        })
    );
}

#[test]
fn socket_status_is_told() {
    let at = path("/run/s");
    assert_eq!(
        daemon_socket_status(&at, &PathProbe::Socket),
        Ok("/run/s".to_string())
    );
    assert_eq!(
        daemon_socket_status(&at, &PathProbe::Missing)
            .unwrap_err()
            .message(),
        "missing /run/s"
    );
    assert_eq!(
        daemon_socket_status(&at, &PathProbe::Other)
            .unwrap_err()
            .message(),
        "not a Unix socket /run/s"
    );
    assert_eq!(
        daemon_socket_status(&at, &PathProbe::Unreadable("denied".to_string()))
            .unwrap_err()
            .message(),
        "failed to inspect /run/s"
    );
}

#[test]
fn saving_makes_the_directory_first() {
    let actions = save_file_config(
        &path("/c/tgdyk/config.toml"),
        &FileConfig {
            api_id: Some(1),
            ..FileConfig::default()
        },
    );
    assert_eq!(
        actions.unwrap(),
        vec![
            FileAction::CreateDir(path("/c/tgdyk")),
            mode("/c/tgdyk", 0o700),
            FileAction::WriteConfig {
                path: path("/c/tgdyk/config.toml"),
                mode: 0o600,
                text: "api_id = 1\n".to_string()
            },
            mode("/c/tgdyk/config.toml", 0o600)
        ]
    );
}

#[test]
fn session_directories_are_private() {
    let config = load_config(
        &None,
        no_overrides(),
        FileConfig::default(),
        XdgPaths {
            config_file: path("/c"),
            database_dir: path("/d/database"),
            files_dir: path("/d/files"),
            socket_path: path("/s"),
        },
    );
    assert_eq!(
        session_dirs(&config),
        vec![
            FileAction::CreateDir(path("/d/database")),
            mode("/d/database", 0o700),
            FileAction::CreateDir(path("/d/files")),
            mode("/d/files", 0o700)
        ]
    );
    assert_eq!(ensure_private_dir(&path("/p")).len(), 2);
}

#[test]
fn failed_actions_are_told() {
    assert_eq!(
        FileAction::CreateDir(path("/p")).failure_text(),
        "failed to create /p"
    );
    assert_eq!(
        set_private_file_permissions(&path("/p"), 0o600).failure_text(),
        "failed to set 600 permissions on /p"
    );
    assert_eq!(
        FileAction::WriteConfig {
            path: path("/p"),
            mode: 0o600,
            text: String::new()
        }
        .failure_text(),
        "failed to write config /p"
    );
    assert_eq!(
        FileAction::RemoveSocket(path("/p")).failure_text(),
        "failed to remove socket /p"
    );
    assert_eq!(
        FileAction::Listen(path("/p")).failure_text(),
        "failed to bind /p"
    );
}

#[test]
fn config_that_cannot_be_written_is_a_failure() {
    let file = FileConfig {
        files_dir: Some(OsPath { bytes: vec![0xff] }),
        ..FileConfig::default()
    };
    let failure = save_file_config(&path("/c"), &file).unwrap_err();
    assert_eq!(failure.message(), "failed to serialize config");
    assert_eq!(
        failure.cause().as_deref(),
        Some("path contains invalid UTF-8 characters")
    );
}

#[test]
fn socket_is_taken_after_its_parent_was_checked() {
    let start = BindStage::CheckParent;
    assert_eq!(start.next(true), BindStage::TakeSocket);
    assert_eq!(start.next(true).next(true), BindStage::Bound);
    assert_eq!(start.next(true).next(false), BindStage::Refused);
    assert_eq!(start.next(false), BindStage::Refused);
    assert_eq!(start.next(false).next(true), BindStage::Refused);
    assert_eq!(BindStage::Bound.next(false), BindStage::Bound);
}
