use serde_json::Value;
use tgdyk::authorization::{
    announced_state, answer, drive_authorization, ensure_interactive, react, AuthStep, Question,
};
use tgdyk::config::{load_config, Config, FileConfig, PathOverrides};
use tgdyk::failure::Failure;
use tgdyk::paths::{OsPath, XdgPaths};
use tgdyk::request::{Request, APPLICATION_VERSION};

fn no_overrides() -> PathOverrides {
    PathOverrides {
        tdjson_path: None,
        database_dir: None,
        files_dir: None,
        socket_path: None,
    }
}

fn path(name: &str) -> OsPath {
    OsPath::from_name(name)
}

fn config(file: FileConfig) -> Config {
    load_config(
        &None,
        no_overrides(),
        file,
        XdgPaths {
            config_file: path("/c"),
            database_dir: path("/d/database"),
            files_dir: path("/d/files"),
            socket_path: path("/r/s"),
        },
    )
}

fn known() -> Config {
    config(FileConfig {
        api_id: Some(12345),
        api_hash: Some("hash".to_string()),
        ..FileConfig::default()
    })
}

fn state(name: &str, rest: &str) -> String {
    format!(
        "{{\"@type\":\"updateAuthorizationState\",\"authorization_state\":{{\"@type\":\"{}\"{}}}}}",
        name, rest
    )
}

fn step(name: &str, rest: &str, interactive: bool) -> Result<AuthStep, Failure> {
    drive_authorization(Some(&state(name, rest)), &known(), interactive, "linux")
}

fn parsed(source: &str) -> Value {
    serde_json::from_str(source).unwrap()
}

#[test]
fn parameters_are_sent_first() {
    let sent = step("authorizationStateWaitTdlibParameters", "", false).unwrap();
    let request = match sent {
        AuthStep::Send(request) => request,
        other => panic!("{:?}", other),
    };
    assert_eq!(
        request,
        Request::SetTdlibParameters {
            database_dir: path("/d/database"),
            files_dir: path("/d/files"),
            api_id: 12345,
            api_hash: "hash".to_string(),
            system_version: "linux".to_string(),
        }
    );
    let wanted = parsed(
        "{\"@type\": \"setTdlibParameters\", \"use_test_dc\": false, \"database_directory\": \"/d/database\", \"files_directory\": \"/d/files\", \"database_encryption_key\": \"\", \"use_file_database\": true, \"use_chat_info_database\": true, \"use_message_database\": true, \"use_secret_chats\": false, \"api_id\": 12345, \"api_hash\": \"hash\", \"system_language_code\": \"en\", \"device_model\": \"tgdyk\", \"system_version\": \"linux\", \"application_version\": \"0.1.2\"}",
    );
    assert_eq!(parsed(&request.to_json()), wanted);
    assert_eq!(APPLICATION_VERSION, "0.1.2");
}

#[test]
fn parameters_need_credentials() {
    let failure = drive_authorization(
        Some(&state("authorizationStateWaitTdlibParameters", "")),
        &config(FileConfig::default()),
        true,
        "linux",
    );
    assert_eq!(failure, Err(Failure::MissingCredentials));
}

#[test]
fn database_key_is_empty() {
    assert_eq!(
        step("authorizationStateWaitEncryptionKey", "", false),
        Ok(AuthStep::Send(Request::CheckDatabaseEncryptionKey))
    );
    assert_eq!(
        parsed(&Request::CheckDatabaseEncryptionKey.to_json()),
        parsed("{\"@type\": \"checkDatabaseEncryptionKey\", \"encryption_key\": \"\"}")
    );
}

#[test]
fn ready_ends_the_dialogue() {
    assert_eq!(step("authorizationStateReady", "", false), Ok(AuthStep::Ready));
    assert_eq!(step("authorizationStateReady", "", true), Ok(AuthStep::Ready));
}

#[test]
fn other_device_confirms_with_a_link() {
    assert_eq!(
        step(
            "authorizationStateWaitOtherDeviceConfirmation",
            ",\"link\":\"tg://login?token=a\"",
            true
        ),
        Ok(AuthStep::Show(
            "Confirm login in Telegram: tg://login?token=a".to_string()
        ))
    );
    assert_eq!(
        step("authorizationStateWaitOtherDeviceConfirmation", "", true),
        Ok(AuthStep::Show(
            "Confirm login in Telegram: <missing confirmation link>".to_string()
        ))
    );
}

#[test]
fn interactive_states_ask_the_user() {
    let cases = [
        ("authorizationStateWaitPhoneNumber", Question::PhoneNumber),
        ("authorizationStateWaitCode", Question::Code),
        (
            "authorizationStateWaitPassword",
            Question::Password {
                hint: String::new(),
            },
        ),
        ("authorizationStateWaitEmailAddress", Question::EmailAddress),
        ("authorizationStateWaitEmailCode", Question::EmailCode),
        ("authorizationStateWaitRegistration", Question::FirstName),
    ];
    for (name, question) in cases {
        assert_eq!(step(name, "", true), Ok(AuthStep::Ask(question)), "{}", name);
    }
    assert_eq!(
        step(
            "authorizationStateWaitPassword",
            ",\"password_hint\":\"cat\"",
            true
        ),
        Ok(AuthStep::Ask(Question::Password {
            hint: "cat".to_string()
        }))
    );
}

#[test]
fn background_states_point_to_the_setup() {
    let cases = [
        (
            "authorizationStateWaitOtherDeviceConfirmation",
            "run `tgdyk setup` to confirm login from another device",
        ),
        (
            "authorizationStateWaitPhoneNumber",
            "run `tgdyk setup` to enter the phone number",
        ),
        (
            "authorizationStateWaitCode",
            "run `tgdyk setup` to enter the Telegram code",
        ),
        (
            "authorizationStateWaitPassword",
            "run `tgdyk setup` to enter the 2FA password",
        ),
        (
            "authorizationStateWaitEmailAddress",
            "run `tgdyk setup` to enter the email address",
        ),
        (
            "authorizationStateWaitEmailCode",
            "run `tgdyk setup` to enter the email code",
        ),
        (
            "authorizationStateWaitRegistration",
            "run `tgdyk setup` to finish registration",
        ),
    ];
    for (name, advice) in cases {
        let failure = step(name, "", false).unwrap_err();
        assert_eq!(failure, Failure::SetupNeeded(advice.to_string()));
        assert_eq!(failure.message(), advice);
    }
    assert_eq!(ensure_interactive(true, "x"), Ok(()));
    assert_eq!(
        ensure_interactive(false, "x"),
        Err(Failure::SetupNeeded("x".to_string()))
    );
}

#[test]
fn closing_states_fail() {
    for name in [
        "authorizationStateLoggingOut",
        "authorizationStateClosing",
        "authorizationStateClosed",
    ] {
        let failure = step(name, "", true).unwrap_err();
        assert_eq!(failure, Failure::AuthorizationClosed);
        assert_eq!(
            failure.message(),
            "TDLib authorization closed before it became ready"
        );
    }
}

#[test]
fn unknown_states_fail() {
    let failure = step("authorizationStateWaitPremiumPurchase", "", true).unwrap_err();
    assert_eq!(
        failure.message(),
        "unsupported TDLib authorization state: authorizationStateWaitPremiumPurchase"
    );
}

#[test]
fn other_updates_are_ignored() {
    let config = known();
    for raw in ["{\"@type\":\"updateOption\"}", "{}", "[]", "null", "17"] {
        assert_eq!(
            drive_authorization(Some(raw), &config, false, "linux"),
            Ok(AuthStep::Listen)
        );
    }
    assert_eq!(
        drive_authorization(None, &config, false, "linux"),
        Ok(AuthStep::Listen)
    );
}

#[test]
fn faulty_updates_fail() {
    let config = known();
    let failure = drive_authorization(Some("{"), &config, true, "linux").unwrap_err();
    assert_eq!(failure.message(), "invalid TDLib JSON");
    assert_eq!(
        failure.cause(),
        serde_json::from_str::<Value>("{")
            .err()
            .map(|error| error.to_string())
    );
    let failure = drive_authorization(
        Some("{\"@type\":\"error\",\"code\":401,\"message\":\"Unauthorized\"}"),
        &config,
        true,
        "linux",
    )
    .unwrap_err();
    assert_eq!(failure.message(), "TDLib error: 401: Unauthorized");
    assert_eq!(
        react(
            &parsed("{\"@type\":\"updateAuthorizationState\"}"),
            &config,
            true,
            "linux"
        )
        .unwrap_err()
        .message(),
        "authorization update has no state"
    );
    assert_eq!(
        react(
            &parsed("{\"@type\":\"updateAuthorizationState\",\"authorization_state\":{}}"),
            &config,
            true,
            "linux"
        )
        .unwrap_err()
        .message(),
        "authorization state has no type"
    );
}

#[test]
fn states_are_announced() {
    assert_eq!(
        announced_state(&state("authorizationStateReady", "")).as_deref(),
        Some("authorizationStateReady")
    );
    assert_eq!(announced_state("{\"@type\":\"updateOption\"}"), None);
    assert_eq!(announced_state("{"), None);
}

#[test]
fn questions_have_labels() {
    let cases = [
        (Question::PhoneNumber, "Phone number: ", false),
        (Question::Code, "Telegram code: ", true),
        (
            Question::Password {
                hint: String::new(),
            },
            "2FA password: ",
            true,
        ),
        (
            Question::Password {
                hint: "cat".to_string(),
            },
            "2FA password (cat): ",
            true,
        ),
        (Question::EmailAddress, "Email address: ", false),
        (Question::EmailCode, "Email code: ", true),
        (Question::FirstName, "First name: ", false),
        (
            Question::LastName {
                first_name: "Ann".to_string(),
            },
            "Last name (optional): ",
            false,
        ),
    ];
    for (question, label, secret) in cases {
        assert_eq!(question.label(), label);
        assert_eq!(question.is_secret(), secret);
    }
}

#[test]
fn answers_become_requests() {
    let given = "a \"quoted\" \\ line\n\0\u{1f600}".to_string();
    let cases = [
        (
            Question::PhoneNumber,
            "{\"@type\": \"setAuthenticationPhoneNumber\", \"phone_number\": \"?\", \"settings\": null}",
        ),
        (
            Question::Code,
            "{\"@type\": \"checkAuthenticationCode\", \"code\": \"?\"}",
        ),
        (
            Question::Password {
                hint: "cat".to_string(),
            },
            "{\"@type\": \"checkAuthenticationPassword\", \"password\": \"?\"}",
        ),
        (
            Question::EmailAddress,
            "{\"@type\": \"setAuthenticationEmailAddress\", \"email_address\": \"?\"}",
        ),
        (
            Question::EmailCode,
            "{\"@type\": \"checkAuthenticationEmailCode\", \"code\": {\"@type\": \"emailAddressAuthenticationCode\", \"code\": \"?\"}}",
        ),
        (
            Question::LastName {
                first_name: "Ann".to_string(),
            },
            "{\"@type\": \"registerUser\", \"first_name\": \"Ann\", \"last_name\": \"?\", \"disable_notification\": false}",
        ),
    ];
    for (question, wanted) in cases {
        let request = match answer(question, given.clone()) {
            AuthStep::Send(request) => request,
            other => panic!("{:?}", other),
        };
        assert!(request.to_json().chars().all(|c| c >= ' '));
        let escaped = Value::String(given.clone()).to_string();
        assert_eq!(
            parsed(&request.to_json()),
            parsed(&wanted.replace("\"?\"", &escaped))
        );
    }
}

#[test]
fn registration_asks_for_both_names() {
    let next = answer(Question::FirstName, "Ann".to_string());
    assert_eq!(
        next,
        AuthStep::Ask(Question::LastName {
            first_name: "Ann".to_string()
        })
    );
    match next {
        AuthStep::Ask(question) => assert_eq!(
            answer(question, "Lee".to_string()),
            AuthStep::Send(Request::RegisterUser {
                first_name: "Ann".to_string(),
                last_name: "Lee".to_string()
            })
        ),
        other => panic!("{:?}", other),
    }
}

#[test]
fn requests_differ_when_their_contents_do() {
    let texts = [
        Request::CheckCode("1".to_string()).to_json(),
        Request::CheckCode("2".to_string()).to_json(),
        Request::CheckEmailCode("1".to_string()).to_json(),
        Request::CheckPassword("1".to_string()).to_json(),
        Request::SetLogVerbosity(1).to_json(),
        Request::SetLogVerbosity(-1).to_json(),
    ];
    for i in 0..texts.len() {
        for j in 0..i {
            assert_ne!(texts[i], texts[j]);
        }
    }
}

#[test]
fn background_dialogue_only_resumes() {
    let config = known();
    let updates = [
        state("authorizationStateWaitTdlibParameters", ""),
        "{\"@type\":\"updateOption\"}".to_string(),
        state("authorizationStateWaitEncryptionKey", ""),
        state("authorizationStateWaitPhoneNumber", ""),
        state("authorizationStateReady", ""),
    ];
    let mut kinds: Vec<String> = Vec::new();
    let mut ended = None;
    for raw in &updates {
        match drive_authorization(Some(raw), &config, false, "linux") {
            Ok(AuthStep::Send(request)) => {
                let sent = parsed(&request.to_json());
                kinds.push(sent["@type"].as_str().unwrap().to_string());
            }
            Ok(AuthStep::Listen) => {}
            Ok(other) => panic!("{:?}", other),
            Err(failure) => {
                ended = Some(failure);
                break;
            }
        }
    }
    assert_eq!(
        kinds,
        vec!["setTdlibParameters", "checkDatabaseEncryptionKey"]
    );
    assert_eq!(
        ended.unwrap().message(),
        "run `tgdyk setup` to enter the phone number"
    );
}
