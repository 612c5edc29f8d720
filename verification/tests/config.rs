use tgdyk::config::{
    answer_api_hash, answer_api_id, config_path, credentials, ensure_login_config, load_config,
    read_file_config, require_existing_session, Config, ConfigRead, FileConfig, LoginStep,
    PathOverrides, API_HASH_PROMPT, API_ID_PROMPT,
};
use tgdyk::failure::Failure;
use tgdyk::files::{save_file_config, FileAction, PRIVATE_FILE_MODE};
use tgdyk::paths::{OsPath, XdgPaths};
use tgdyk::text::IntegerError;

fn no_overrides() -> PathOverrides {
    PathOverrides {
        tdjson_path: None,
        database_dir: None,
        files_dir: None,
        socket_path: None,
    }
}

fn path(name: &str) -> OsPath {
    OsPath::from_name(name)
}

fn xdg() -> XdgPaths {
    XdgPaths {
        config_file: path("/c/config.toml"),
        database_dir: path("/d/database"),
        files_dir: path("/d/files"),
        socket_path: path("/r/tgdyk.sock"),
    }
}

fn config(api_id: Option<i64>, api_hash: Option<&str>) -> Config {
    let file = FileConfig {
        api_id,
        api_hash: api_hash.map(|hash| hash.to_string()),
        ..FileConfig::default()
    };
    load_config(&None, no_overrides(), file, xdg())
}

fn saved_text(file: &FileConfig) -> String {
    let actions = save_file_config(&path("/c/config.toml"), file).unwrap();
    match &actions[2] {
        FileAction::WriteConfig { text, .. } => text.clone(),
        other => panic!("{:?}", other),
    }
}

fn read_text(text: &str) -> Result<FileConfig, Failure> {
    read_file_config(
        &path("/c/config.toml"),
        &ConfigRead::Text(text.to_string()),
    )
}

#[test]
fn saves_api_credentials_to_config() {
    let config = FileConfig {
        api_id: Some(12345),
        api_hash: Some("hash".to_string()),
        ..FileConfig::default()
    };
    let actions = save_file_config(&path("/c/config.toml"), &config).unwrap();
    let saved = match &actions[2] {
        FileAction::WriteConfig { text, mode, path: at } => {
            assert_eq!(*mode, PRIVATE_FILE_MODE);
            assert_eq!(at, &path("/c/config.toml"));
            text.clone()
        }
        other => panic!("{:?}", other),
    };
    assert!(saved.contains("api_id = 12345"));
    assert!(saved.contains("api_hash = \"hash\""));
    assert_eq!(saved, "api_id = 12345\napi_hash = \"hash\"\n");
    assert_eq!(
        actions[3],
        FileAction::SetMode {
            path: path("/c/config.toml"),
            mode: PRIVATE_FILE_MODE
        }
    );
    assert_eq!(actions.len(), 4);
    assert_eq!(actions[0], FileAction::CreateDir(path("/c")));

    let file = read_text(&saved).unwrap();
    assert_eq!(file.api_id, Some(12345));
    assert_eq!(file.api_hash.as_deref(), Some("hash"));
}

#[test]
fn credentials_need_an_id_and_a_hash() {
    let whole = config(Some(7), Some("hash"));
    assert_eq!(credentials(&whole), Ok((7, "hash")));
    for partial in [
        config(None, Some("hash")),
        config(Some(7), None),
        config(Some(7), Some("")),
        config(None, None),
    ] {
        let failure = credentials(&partial).unwrap_err();
        assert_eq!(failure, Failure::MissingCredentials);
        assert_eq!(
            failure.message(),
            "missing Telegram API credentials; run `tgdyk setup` first"
        );
    }
}

#[test]
fn session_has_to_exist() {
    let config = config(None, None);
    assert_eq!(config.session_file(), path("/d/database/td.binlog"));
    assert_eq!(require_existing_session(&config, true), Ok(()));
    let failure = require_existing_session(&config, false).unwrap_err();
    assert_eq!(failure, Failure::MissingSession(path("/d/database")));
    assert_eq!(
        failure.message(),
        "missing TDLib session in /d/database; run `tgdyk setup` first"
    );
}

#[test]
fn config_comes_from_its_sources() {
    let file = FileConfig {
        api_id: Some(1),
        api_hash: Some("h".to_string()),
        ..FileConfig::default()
    };
    let config = load_config(
        &Some(path("/named.toml")),
        PathOverrides {
            tdjson_path: Some(path("/lib/libtdjson.so")),
            ..no_overrides()
        },
        file,
        xdg(),
    );
    assert_eq!(config.config_file, path("/named.toml"));
    assert_eq!(config.tdjson_path, Some(path("/lib/libtdjson.so")));
    assert_eq!(config.api_id, Some(1));
    assert_eq!(config.api_hash.as_deref(), Some("h"));
    assert_eq!(config.database_dir, path("/d/database"));
    assert_eq!(config.files_dir, path("/d/files"));
    assert_eq!(config.socket_path, path("/r/tgdyk.sock"));
    assert_eq!(config_path(&None, &xdg()), path("/c/config.toml"));
    assert_eq!(
        config_path(&Some(path("/named.toml")), &xdg()),
        path("/named.toml")
    );
}

#[test]
fn paths_can_be_configured_and_overridden() {
    let file = || FileConfig {
        database_dir: Some(path("/f/database")),
        files_dir: Some(path("/f/files")),
        socket_path: Some(path("/f/sock")),
        ..FileConfig::default()
    };
    let configured = load_config(&None, no_overrides(), file(), xdg());
    assert_eq!(configured.database_dir, path("/f/database"));
    assert_eq!(configured.files_dir, path("/f/files"));
    assert_eq!(configured.socket_path, path("/f/sock"));

    let overrides = PathOverrides {
        tdjson_path: None,
        database_dir: Some(path("/e/database")),
        files_dir: None,
        socket_path: Some(path("/e/sock")),
    };
    let overridden = load_config(&None, overrides, file(), xdg());
    assert_eq!(overridden.database_dir, path("/e/database"));
    assert_eq!(overridden.files_dir, path("/f/files"));
    assert_eq!(overridden.socket_path, path("/e/sock"));
}

#[test]
fn missing_config_file_is_an_empty_config() {
    let file = read_file_config(&path("/c"), &ConfigRead::Missing).unwrap();
    assert_eq!(file, FileConfig::default());
    assert_eq!(file.api_id, None);
    assert_eq!(file.api_hash, None);
}

#[test]
fn faulty_config_files_are_failures() {
    let unreadable =
        read_file_config(&path("/c"), &ConfigRead::Unreadable("denied".to_string())).unwrap_err();
    assert_eq!(unreadable.message(), "failed to read config /c");
    assert_eq!(unreadable.cause().as_deref(), Some("denied"));
    let unparsable =
        read_file_config(&path("/c"), &ConfigRead::Text("api_id =".to_string())).unwrap_err();
    assert_eq!(unparsable.message(), "failed to parse config /c");
    let cause = toml::from_str::<toml::Table>("api_id =").unwrap_err();
    assert_eq!(unparsable.cause(), Some(cause.to_string()));
}

#[test]
fn complete_login_does_nothing() {
    let config = config(Some(7), Some("hash"));
    assert_eq!(ensure_login_config(&config, false), LoginStep::Complete);
}

#[test]
fn login_asks_for_what_is_missing_and_saves_it() {
    let mut file = FileConfig::default();
    let mut config = config(None, None);
    assert_eq!(ensure_login_config(&config, false), LoginStep::ReadConfig);

    assert_eq!(ensure_login_config(&config, true), LoginStep::AskApiId);
    assert_eq!(API_ID_PROMPT, "Telegram API ID: ");
    assert_eq!(answer_api_id(&mut config, &mut file, "12345"), Ok(()));

    assert_eq!(ensure_login_config(&config, true), LoginStep::AskApiHash);
    assert_eq!(API_HASH_PROMPT, "Telegram API hash: ");
    assert_eq!(
        answer_api_hash(&mut config, &mut file, "hash".to_string()),
        Ok(())
    );

    assert_eq!(ensure_login_config(&config, true), LoginStep::Save);
    assert_eq!(file.api_id, Some(12345));
    assert_eq!(file.api_hash.as_deref(), Some("hash"));
    assert_eq!(credentials(&config), Ok((12345, "hash")));

    let read = read_text(&saved_text(&file)).unwrap();
    assert_eq!(read, file);
    let loaded = load_config(&None, no_overrides(), read, xdg());
    assert_eq!(credentials(&loaded), Ok((12345, "hash")));
    assert_eq!(ensure_login_config(&loaded, false), LoginStep::Complete);
}

#[test]
fn login_keeps_what_is_there() {
    let mut file = FileConfig {
        api_id: Some(5),
        api_hash: Some(String::new()),
        ..FileConfig::default()
    };
    let mut config = config(Some(5), Some(""));
    assert_eq!(ensure_login_config(&config, false), LoginStep::ReadConfig);
    assert_eq!(ensure_login_config(&config, true), LoginStep::AskApiHash);
    assert_eq!(
        answer_api_hash(&mut config, &mut file, "new".to_string()),
        Ok(())
    );
    assert_eq!(ensure_login_config(&config, true), LoginStep::Save);
    assert_eq!(file.api_id, Some(5));
    assert_eq!(config.api_id, Some(5));
}

#[test]
fn login_rejects_bad_answers() {
    let mut file = FileConfig::default();
    let mut config = config(None, None);
    let failure = answer_api_id(&mut config, &mut file, "12a").unwrap_err();
    assert_eq!(failure, Failure::InvalidApiId(IntegerError::InvalidDigit));
    assert_eq!(failure.message(), "invalid Telegram API ID");
    assert_eq!(
        failure.cause().as_deref(),
        Some("invalid digit found in string")
    );
    let empty = answer_api_id(&mut config, &mut file, "").unwrap_err();
    assert_eq!(
        empty.cause(),
        "".parse::<i64>().err().map(|error| error.to_string())
    );
    let large = answer_api_id(&mut config, &mut file, "9223372036854775808").unwrap_err();
    assert_eq!(
        large.cause(),
        "9223372036854775808"
            .parse::<i64>()
            .err()
            .map(|error| error.to_string())
    );
    let small = answer_api_id(&mut config, &mut file, "-9223372036854775809").unwrap_err();
    assert_eq!(
        small.cause(),
        "-9223372036854775809"
            .parse::<i64>()
            .err()
            .map(|error| error.to_string())
    );
    let hash = answer_api_hash(&mut config, &mut file, String::new()).unwrap_err();
    assert_eq!(hash, Failure::ApiHashRequired);
    assert_eq!(hash.message(), "Telegram API hash is required");
    assert_eq!(hash.cause(), None);
    assert_eq!(file, FileConfig::default());
    assert_eq!(config.api_id, None);
    assert_eq!(config.api_hash, None);
}
