use tgdyk::failure::Failure;
use tgdyk::paths::{xdg_paths, OsPath, XdgEnvironment};

fn path(name: &str) -> OsPath {
    OsPath::from_name(name)
}

fn bare() -> XdgEnvironment {
    XdgEnvironment {
        config_home: None,
        data_home: None,
        runtime_dir: None,
        cache_home: None,
    }
}

#[test]
fn default_paths_lie_in_the_home_directory() {
    let paths = xdg_paths(Some(path("/home/ann")), &bare()).unwrap();
    assert_eq!(paths.config_file, path("/home/ann/.config/tgdyk/config.toml"));
    assert_eq!(
        paths.database_dir,
        path("/home/ann/.local/share/tgdyk/tdlib/database")
    );
    assert_eq!(
        paths.files_dir,
        path("/home/ann/.local/share/tgdyk/tdlib/files")
    );
    assert_eq!(
        paths.socket_path,
        path("/home/ann/.cache/tgdyk/run/tgdyk.sock")
    );
}

#[test]
fn environment_moves_the_paths() {
    let environment = XdgEnvironment {
        config_home: Some(path("/c")),
        data_home: Some(path("/d/")),
        runtime_dir: Some(path("/run/user/1000")),
        cache_home: Some(path("/unused")),
    };
    let paths = xdg_paths(Some(path("/home/ann")), &environment).unwrap();
    assert_eq!(paths.config_file, path("/c/tgdyk/config.toml"));
    assert_eq!(paths.database_dir, path("/d/tgdyk/tdlib/database"));
    assert_eq!(paths.files_dir, path("/d/tgdyk/tdlib/files"));
    assert_eq!(paths.socket_path, path("/run/user/1000/tgdyk/tgdyk.sock"));
}

#[test]
fn cache_holds_the_socket_without_a_runtime_directory() {
    let mut environment = bare();
    environment.cache_home = Some(path("/cache"));
    let paths = xdg_paths(Some(path("/home/ann")), &environment).unwrap();
    assert_eq!(paths.socket_path, path("/cache/tgdyk/run/tgdyk.sock"));
}

#[test]
fn no_home_directory_is_a_failure() {
    let mut environment = bare();
    environment.config_home = Some(path("/c"));
    let failure = xdg_paths(None, &environment).unwrap_err();
    assert_eq!(failure, Failure::HomeUnresolved);
    assert_eq!(failure.message(), "failed to resolve home directory");
}

#[test]
fn joins_as_the_standard_library_does() {
    for base in ["", "/", "a", "a/", "/a/b", "a//"] {
        for rest in ["b", "b/c", "/b", "", "."] {
            let wanted = std::path::Path::new(base).join(rest);
            assert_eq!(path(base).join(rest), path(wanted.to_str().unwrap()));
        }
    }
}

#[test]
fn shows_paths_that_are_no_text() {
    let odd = OsPath {
        bytes: vec![b'/', 0xff, b'a'],
    };
    assert_eq!(odd.display(), "/\u{fffd}a");
    assert_eq!(path("/\u{fc}").display(), "/\u{fc}");
    assert_eq!(odd.duplicate(), odd);
}

#[test]
fn four_paths_differ() {
    let same = XdgEnvironment {
        config_home: Some(path("/x")),
        data_home: Some(path("/x")),
        runtime_dir: Some(path("/x")),
        cache_home: Some(path("/x")),
    };
    let paths = xdg_paths(Some(path("/x")), &same).unwrap();
    assert_ne!(paths.config_file, paths.database_dir);
    assert_ne!(paths.config_file, paths.files_dir);
    assert_ne!(paths.config_file, paths.socket_path);
    assert_ne!(paths.database_dir, paths.files_dir);
    assert_ne!(paths.database_dir, paths.socket_path);
    assert_ne!(paths.files_dir, paths.socket_path);
}

#[test]
fn empty_directories_are_as_good_as_none() {
    let home = || Some(path("/home/u"));
    let mut environment = bare();
    environment.config_home = Some(path(""));
    let paths = xdg_paths(home(), &environment).unwrap();
    assert_eq!(paths.config_file, path("/home/u/.config/tgdyk/config.toml"));

    let mut environment = bare();
    environment.data_home = Some(path(""));
    let paths = xdg_paths(home(), &environment).unwrap();
    assert_eq!(
        paths.database_dir,
        path("/home/u/.local/share/tgdyk/tdlib/database")
    );
    assert_eq!(
        paths.files_dir,
        path("/home/u/.local/share/tgdyk/tdlib/files")
    );

    let mut environment = bare();
    environment.cache_home = Some(path(""));
    let paths = xdg_paths(home(), &environment).unwrap();
    assert_eq!(
        paths.socket_path,
        path("/home/u/.cache/tgdyk/run/tgdyk.sock")
    );
}

#[test]
fn paths_that_are_texts() {
    assert_eq!(path("/\u{fc}").text().as_deref(), Some("/\u{fc}"));
    assert_eq!(path("").text().as_deref(), Some(""));
    let odd = OsPath {
        bytes: vec![b'/', 0xff, b'a'],
    };
    assert_eq!(odd.text(), None);
    assert_eq!(path("/\u{fffd}").text().as_deref(), Some("/\u{fffd}"));
}

#[test]
fn parents_are_those_of_the_standard_library() {
    let pieces = ["", "/", ".", "..", "a", ".b", "/a", "a/", "./", "//", "/.", "c.d"];
    for first in pieces {
        for second in pieces {
            for third in pieces {
                for last in pieces {
                    let name = format!("{}{}{}{}", first, second, third, last);
                    let wanted = std::path::Path::new(&name)
                        .parent()
                        .map(|parent| path(parent.to_str().unwrap()));
                    assert_eq!(path(&name).parent(), wanted, "{}", name);
                }
            }
        }
    }
}

#[test]
fn parents_of_usual_paths() {
    assert_eq!(
        path("/home/u/.config/tgdyk/config.toml").parent(),
        Some(path("/home/u/.config/tgdyk"))
    );
    assert_eq!(path("/a").parent(), Some(path("/")));
    assert_eq!(path("a").parent(), Some(path("")));
    assert_eq!(path("/a//b//").parent(), Some(path("/a")));
    assert_eq!(path("/").parent(), None);
    assert_eq!(path("").parent(), None);
    for directory in ["", "/", ".", "/x", "a/b"] {
        assert_eq!(path(directory).join("n").parent(), Some(path(directory)));
    }
}
