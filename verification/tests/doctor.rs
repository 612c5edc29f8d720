use tgdyk::config::{load_config, Config, FileConfig, PathOverrides};
use tgdyk::doctor::{check, doctor, Connection, DoctorProbe};
use tgdyk::failure::Failure;
use tgdyk::files::PathProbe;
use tgdyk::paths::{OsPath, XdgPaths};

fn no_overrides() -> PathOverrides {
    PathOverrides {
        tdjson_path: None,
        database_dir: None,
        files_dir: None,
        socket_path: None,
    }
}

fn path(name: &str) -> OsPath {
    OsPath::from_name(name)
}

fn config(file: FileConfig) -> Config {
    load_config(
        &None,
        no_overrides(),
        file,
        XdgPaths {
            config_file: path("/c"),
            database_dir: path("/d/database"),
            files_dir: path("/d/files"),
            socket_path: path("/r/s"),
        },
    )
}

fn healthy() -> DoctorProbe {
    DoctorProbe {
        tdlib: Ok("libtdjson.so".to_string()),
        session_exists: true,
        files_dir_exists: true,
        socket: PathProbe::Socket,
        connection: Connection::Connected,
    }
}

fn credentials() -> FileConfig {
    FileConfig {
        api_id: Some(1),
        api_hash: Some("h".to_string()),
        ..FileConfig::default()
    }
}

#[test]
fn healthy_system_passes_every_check() {
    let report = doctor(&config(credentials()), healthy());
    assert_eq!(
        report.lines,
        vec![
            "ok   TDLib: loaded from libtdjson.so",
            "ok   Telegram API credentials: configured",
            "ok   TDLib database: /d/database",
            "ok   TDLib files directory: /d/files",
            "ok   daemon socket: /r/s",
            "ok   daemon connectivity: connected"
        ]
    );
    assert!(report.healthy);
    assert_eq!(report.verdict(), Ok(()));
}

#[test]
fn bare_system_fails_every_check() {
    let probe = DoctorProbe {
        tdlib: Err(Failure::NoLibraryFound("x.so: failed to open x.so".to_string())),
        session_exists: false,
        files_dir_exists: false,
        socket: PathProbe::Missing,
        connection: Connection::Failed("No such file or directory (os error 2)".to_string()),
    };
    let report = doctor(&config(FileConfig::default()), probe);
    assert_eq!(
        report.lines,
        vec![
            "fail TDLib: x.so: failed to open x.so",
            "fail Telegram API credentials: missing Telegram API credentials; run `tgdyk setup` first",
            "fail TDLib database: missing TDLib session in /d/database; run `tgdyk setup` first",
            "fail TDLib files directory: missing /d/files",
            "fail daemon socket: missing /r/s",
            "fail daemon connectivity: No such file or directory (os error 2)"
        ]
    );
    let failure = report.verdict().unwrap_err();
    assert_eq!(failure, Failure::ProblemsFound);
    assert_eq!(failure.message(), "doctor found problems");
}

#[test]
fn one_problem_is_enough() {
    let mut slow = healthy();
    slow.connection = Connection::TimedOut;
    let report = doctor(&config(credentials()), slow);
    assert_eq!(
        report.lines[5],
        "fail daemon connectivity: connection timed out"
    );
    assert!(!report.healthy);

    let mut occupied = healthy();
    occupied.socket = PathProbe::Other;
    let report = doctor(&config(credentials()), occupied);
    assert_eq!(report.lines[4], "fail daemon socket: not a Unix socket /r/s");
    assert!(!report.healthy);
    assert_eq!(report.lines.len(), 6);
}

#[test]
fn checks_are_told() {
    let good = check("socket", &Ok("/s".to_string()));
    assert_eq!(good.line, "ok   socket: /s");
    assert!(good.passed);
    let bad = check("socket", &Err(Failure::Missing(path("/s"))));
    assert_eq!(bad.line, "fail socket: missing /s");
    assert!(!bad.passed);
}
