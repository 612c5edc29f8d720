use std::collections::BTreeMap;

use tgdyk::config::FileConfig;
use tgdyk::document::{config_entries, config_found, config_text, parse_config, Finding, Scalar};
use tgdyk::paths::OsPath;

fn path(name: &str) -> OsPath {
    OsPath::from_name(name)
}

#[test]
fn whole_config_is_written_in_order() {
    let file = FileConfig {
        api_id: Some(-7),
        api_hash: Some("hash".to_string()),
        database_dir: Some(path("/d")),
        files_dir: Some(path("/f")),
        socket_path: Some(path("/s")),
    };
    assert_eq!(
        config_text(&file).unwrap(),
        "api_id = -7\napi_hash = \"hash\"\ndatabase_dir = \"/d\"\nfiles_dir = \"/f\"\nsocket_path = \"/s\"\n"
    );
    assert_eq!(
        config_entries(&file).unwrap(),
        vec![
            ("api_id".to_string(), Scalar::Integer(-7)),
            ("api_hash".to_string(), Scalar::Text("hash".to_string())),
            ("database_dir".to_string(), Scalar::Text("/d".to_string())),
            ("files_dir".to_string(), Scalar::Text("/f".to_string())),
            ("socket_path".to_string(), Scalar::Text("/s".to_string())),
        ]
    );
    assert_eq!(config_text(&FileConfig::default()).unwrap(), "");
}

#[test]
fn written_configs_read_back() {
    let pieces = [
        "", "a", "\"", "\"\"", "\"\"\"", "'", "''", "'''", "\\", "\n", "\r", "\r\n", "\t",
        "\u{0}", "\u{7f}", "\u{85}", "\u{fc}", "\u{1f600}", "#", "=", " ",
    ];
    for first in pieces {
        for second in pieces {
            for third in pieces {
                let text = format!("{}{}{}", first, second, third);
                let file = FileConfig {
                    api_id: Some(1),
                    api_hash: Some(text.clone()),
                    socket_path: Some(path(&text)),
                    ..FileConfig::default()
                };
                let written = config_text(&file).unwrap();
                assert_eq!(parse_config(&written), Ok(file));
            }
        }
    }
}

#[test]
fn written_numbers_read_back() {
    for number in [0, 1, -1, 12345, i64::MAX, i64::MIN] {
        let file = FileConfig {
            api_id: Some(number),
            ..FileConfig::default()
        };
        let written = config_text(&file).unwrap();
        assert_eq!(parse_config(&written), Ok(file));
    }
}

#[test]
fn reads_what_users_write() {
    let source =
        "# mine\n\"api_id\" = 0x10\napi_hash = 'h'\nother = [1, 2]\n\n[database_dirs]\nx = 1\n";
    let file = parse_config(source).unwrap();
    assert_eq!(
        file,
        FileConfig {
            api_id: Some(16),
            api_hash: Some("h".to_string()),
            ..FileConfig::default()
        }
    );
    assert_eq!(parse_config(""), Ok(FileConfig::default()));
    let file = parse_config("database_dir = \"/d\"\nfiles_dir = \"f\"\n").unwrap();
    assert_eq!(file.database_dir, Some(path("/d")));
    assert_eq!(file.files_dir, Some(path("f")));
    assert_eq!(file.socket_path, None);
}

#[test]
fn large_numbers_under_other_keys_are_passed_over() {
    let file = parse_config("api_id = 1\nother = 9223372036854775808\n").unwrap();
    assert_eq!(file.api_id, Some(1));
    assert!(parse_config("api_id = 9223372036854775808\n").is_err());
    assert!(parse_config("other = 1e999\n").is_err());
}

#[test]
fn values_of_the_wrong_kind_are_told() {
    for source in ["api_id = \"1\"", "\n\napi_id = 1.0\n", "[api_id]", "api_id = 0xffffffffffffffff"] {
        let wanted = toml::from_str::<BTreeMap<String, i64>>(source).unwrap_err();
        assert_eq!(parse_config(source), Err(wanted.to_string()));
    }
    for source in [
        "api_hash = 1",
        "database_dir = true",
        "# f\nfiles_dir = []",
        "[socket_path]",
        "api_hash = { a = 1 }",
    ] {
        let wanted = toml::from_str::<BTreeMap<String, String>>(source).unwrap_err();
        assert_eq!(parse_config(source), Err(wanted.to_string()));
    }
    assert_eq!(
        parse_config("api_id = \"1\""),
        Err(
            "TOML parse error at line 1, column 10\n  |\n1 | api_id = \"1\"\n  |          ^^^\ninvalid type: string \"1\", expected i64\n"
                .to_string()
        )
    );
}

#[test]
fn first_fault_in_the_file_is_told() {
    let said = parse_config("socket_path = 1\napi_id = \"x\"\n").unwrap_err();
    assert!(said.starts_with("TOML parse error at line 1, column 15\n"), "{}", said);
    let said = parse_config("api_id = \"x\"\nsocket_path = 1\n").unwrap_err();
    assert!(said.starts_with("TOML parse error at line 1, column 10\n"), "{}", said);
    let said = parse_config("other = 1e999\napi_id = \"x\"\n").unwrap_err();
    assert!(said.contains("floating-point number overflowed"), "{}", said);
    let said = parse_config("api_id = \"x\"\nother = 1e999\n").unwrap_err();
    assert!(said.contains("expected i64"), "{}", said);
}

#[test]
fn text_that_is_no_document_is_told() {
    for source in ["api_id", "api_id = 1\napi_id = 2", "= 1", "api_hash = \"h"] {
        let wanted = toml::from_str::<toml::Table>(source).unwrap_err();
        assert_eq!(parse_config(source), Err(wanted.to_string()));
    }
}

#[test]
fn findings_are_put_together() {
    let file = config_found(&vec![
        Finding::ApiId(Some(Ok(5))),
        Finding::Other(None),
        Finding::SocketPath(Some(Ok("/s".to_string()))),
        Finding::FilesDir(None),
    ])
    .unwrap();
    assert_eq!(file.api_id, Some(5));
    assert_eq!(file.api_hash, None);
    assert_eq!(file.files_dir, None);
    assert_eq!(file.socket_path, Some(path("/s")));
    assert_eq!(config_found(&vec![]), Ok(FileConfig::default()));

    let faulty = config_found(&vec![
        Finding::ApiHash(Some(Ok("h".to_string()))),
        Finding::Other(Some("no".to_string())),
        Finding::ApiId(Some(Err("bad".to_string()))),
    ]);
    assert_eq!(faulty, Err("no".to_string()));
    let first = config_found(&vec![
        Finding::DatabaseDir(Some(Err("worse".to_string()))),
        Finding::ApiId(Some(Err("bad".to_string()))),
    ]);
    assert_eq!(first, Err("worse".to_string()));
}
