use tgdyk::config::{load_config, Config, FileConfig, PathOverrides};
use tgdyk::failure::Failure;
use tgdyk::paths::{OsPath, XdgPaths};
use tgdyk::tdjson::{
    default_tdjson_name, judge_log_verbosity, load_one, log_verbosity_request, set_log_verbosity,
    tdjson_load_status, tdjson_sources, LoadStage, TdjsonSearch, TdjsonSymbol, LOG_VERBOSITY,
};

fn no_overrides() -> PathOverrides {
    PathOverrides {
        tdjson_path: None,
        database_dir: None,
        files_dir: None,
        socket_path: None,
    }
}

fn path(name: &str) -> OsPath {
    OsPath::from_name(name)
}

fn config(tdjson_path: Option<OsPath>) -> Config {
    load_config(
        &None,
        PathOverrides {
            tdjson_path,
            ..no_overrides()
        },
        FileConfig::default(),
        XdgPaths {
            config_file: path("/c"),
            database_dir: path("/d"),
            files_dir: path("/f"),
            socket_path: path("/s"),
        },
    )
}

#[test]
fn library_is_named_for_the_system() {
    assert_eq!(default_tdjson_name("macos"), "libtdjson.dylib");
    assert_eq!(default_tdjson_name("linux"), "libtdjson.so");
    assert_eq!(default_tdjson_name("freebsd"), "libtdjson.so");
}

#[test]
fn set_path_is_the_only_source() {
    let sources = tdjson_sources(
        &config(Some(path("/opt/td.so"))),
        &Some(path("/bin/tgdyk")),
        "linux",
    );
    assert_eq!(sources, vec![path("/opt/td.so")]);
}

#[test]
fn sources_are_the_program_directory_and_the_system() {
    assert_eq!(
        tdjson_sources(&config(None), &Some(path("/opt/tgdyk/run")), "linux"),
        vec![path("/opt/tgdyk/libtdjson.so"), path("libtdjson.so")]
    );
    assert_eq!(
        tdjson_sources(&config(None), &None, "macos"),
        vec![path("libtdjson.dylib")]
    );
    assert_eq!(
        tdjson_sources(&config(None), &Some(path("/")), "linux"),
        vec![path("libtdjson.so")]
    );
}

#[test]
fn loading_goes_through_every_symbol() {
    let source = path("libtdjson.so");
    let mut stage = LoadStage::Open;
    let mut names: Vec<&str> = Vec::new();
    while stage != LoadStage::Loaded {
        if let LoadStage::LookUp(symbol) = stage {
            names.push(symbol.name());
        }
        stage = load_one(stage, true, &source).unwrap();
    }
    assert_eq!(
        names,
        vec![
            "td_json_client_create",
            "td_json_client_send",
            "td_json_client_receive",
            "td_json_client_execute",
            "td_json_client_destroy"
        ]
    );
}

#[test]
fn loading_stops_at_the_first_failure() {
    let source = path("libtdjson.so");
    assert_eq!(
        load_one(LoadStage::Open, false, &source)
            .unwrap_err()
            .message(),
        "failed to open libtdjson.so"
    );
    let failure =
        load_one(LoadStage::LookUp(TdjsonSymbol::Receive), false, &source).unwrap_err();
    assert_eq!(failure, Failure::MissingSymbol(TdjsonSymbol::Receive));
    assert_eq!(failure.message(), "missing td_json_client_receive");
}

#[test]
fn search_reports_all_that_was_tried() {
    let mut search = TdjsonSearch::new(vec![path("/a/x.so"), path("x.so")]);
    assert_eq!(search.next_source(), Some(&path("/a/x.so")));
    assert!(tdjson_load_status(&search, false).is_none());
    search.failed(&Failure::LibraryNotOpened(path("/a/x.so")));
    assert_eq!(search.next_source(), Some(&path("x.so")));
    assert_eq!(
        tdjson_load_status(&search, true),
        Some(Ok("x.so".to_string()))
    );
    search.failed(&Failure::MissingSymbol(TdjsonSymbol::Create));
    assert_eq!(search.next_source(), None);
    let lines = "/a/x.so: failed to open /a/x.so; x.so: missing td_json_client_create";
    let failure = tdjson_load_status(&search, false).unwrap().unwrap_err();
    assert_eq!(failure.message(), lines);
    assert_eq!(
        search.load_failure().message(),
        format!(
            "failed to load TDLib JSON library; set TDJSON_PATH. Tried: {}",
            lines
        )
    );
}

#[test]
fn search_without_sources_ends_at_once() {
    let search = TdjsonSearch::new(vec![]);
    assert_eq!(
        tdjson_load_status(&search, false),
        Some(Err(Failure::NoLibraryFound(String::new())))
    );
}

#[test]
fn log_verbosity_is_requested() {
    assert_eq!(
        log_verbosity_request(LOG_VERBOSITY),
        "{\"@type\":\"setLogVerbosityLevel\",\"new_verbosity_level\":1}"
    );
}

#[test]
fn log_verbosity_answers_are_judged() {
    assert_eq!(set_log_verbosity(None), Ok(()));
    assert_eq!(set_log_verbosity(Some("{\"@type\":\"ok\"}")), Ok(()));
    let refused = set_log_verbosity(Some("{ \"message\": \"no\", \"@type\": \"error\" }"));
    assert_eq!(
        refused.unwrap_err().message(),
        "failed to set TDLib log verbosity: {\"@type\":\"error\",\"message\":\"no\"}"
    );
    let wanted = serde_json::from_str::<serde_json::Value>("{")
        .unwrap_err()
        .to_string();
    assert_eq!(set_log_verbosity(Some("{")).unwrap_err().message(), wanted);
    let fine: serde_json::Value = serde_json::from_str("[1.5]").unwrap();
    assert_eq!(judge_log_verbosity(&fine), Ok(()));
}
