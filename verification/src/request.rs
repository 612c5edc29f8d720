//! The requests that TDLib is sent.
use crate::json;
use crate::json::{JsonObject, JsonTree};
use crate::paths::OsPath;
use crate::text;
use vstd::prelude::*;
use vstd::utf8::*;

verus! {

/// The version that TDLib is told.
pub const APPLICATION_VERSION: &'static str = "0.1.2";

/// A request to TDLib, over paths `P` and texts `T`.
#[derive(Debug, PartialEq, Eq)]
pub enum RequestOf<P, T> {
    SetTdlibParameters {
        database_dir: P,
        files_dir: P,
        api_id: i64,
        api_hash: T,
        system_version: T,
    },
    CheckDatabaseEncryptionKey,
    SetPhoneNumber(T),
    CheckCode(T),
    CheckPassword(T),
    SetEmailAddress(T),
    CheckEmailCode(T),
    RegisterUser { first_name: T, last_name: T },
    SetLogVerbosity(i32),
}

pub type Request = RequestOf<OsPath, String>;

pub type RequestView = RequestOf<Seq<u8>, Seq<char>>;

impl View for Request {
    type V = RequestView;

    open spec fn view(&self) -> RequestView {
        match self {
            Request::SetTdlibParameters {
                database_dir,
                files_dir,
                api_id,
                api_hash,
                system_version,
            } => RequestView::SetTdlibParameters {
                database_dir: database_dir@,
                files_dir: files_dir@,
                api_id: *api_id,
                api_hash: api_hash@,
                system_version: system_version@,
            },
            Request::CheckDatabaseEncryptionKey => RequestView::CheckDatabaseEncryptionKey,
            Request::SetPhoneNumber(number) => RequestView::SetPhoneNumber(number@),
            Request::CheckCode(code) => RequestView::CheckCode(code@),
            Request::CheckPassword(password) => RequestView::CheckPassword(password@),
            Request::SetEmailAddress(address) => RequestView::SetEmailAddress(address@),
            Request::CheckEmailCode(code) => RequestView::CheckEmailCode(code@),
            Request::RegisterUser { first_name, last_name } => RequestView::RegisterUser {
                first_name: first_name@,
                last_name: last_name@,
            },
            Request::SetLogVerbosity(level) => RequestView::SetLogVerbosity(*level),
        }
    }
}

/// The TDLib type of a request.
pub open spec fn request_type(request: RequestView) -> Seq<char> {
    match request {
        RequestView::SetTdlibParameters { .. } => "setTdlibParameters"@,
        RequestView::CheckDatabaseEncryptionKey => "checkDatabaseEncryptionKey"@,
        RequestView::SetPhoneNumber(_) => "setAuthenticationPhoneNumber"@,
        RequestView::CheckCode(_) => "checkAuthenticationCode"@,
        RequestView::CheckPassword(_) => "checkAuthenticationPassword"@,
        RequestView::SetEmailAddress(_) => "setAuthenticationEmailAddress"@,
        RequestView::CheckEmailCode(_) => "checkAuthenticationEmailCode"@,
        RequestView::RegisterUser { .. } => "registerUser"@,
        RequestView::SetLogVerbosity(_) => "setLogVerbosityLevel"@,
    }
}

/// The members of the JSON object that makes a request.
pub open spec fn request_members(request: RequestView) -> Map<Seq<char>, JsonTree> {
    let kind = JsonTree::Text(request_type(request));
    match request {
        RequestView::SetTdlibParameters {
            database_dir,
            files_dir,
            api_id,
            api_hash,
            system_version,
        } => map![
            "@type"@ => kind,
            "use_test_dc"@ => JsonTree::Bool(false),
            "database_directory"@ => JsonTree::Text(decode_utf8(database_dir)),
            "files_directory"@ => JsonTree::Text(decode_utf8(files_dir)),
            "database_encryption_key"@ => JsonTree::Text(""@),
            "use_file_database"@ => JsonTree::Bool(true),
            "use_chat_info_database"@ => JsonTree::Bool(true),
            "use_message_database"@ => JsonTree::Bool(true),
            "use_secret_chats"@ => JsonTree::Bool(false),
            "api_id"@ => json::integer_tree(api_id as int),
            "api_hash"@ => JsonTree::Text(api_hash),
            "system_language_code"@ => JsonTree::Text("en"@),
            "device_model"@ => JsonTree::Text("tgdyk"@),
            "system_version"@ => JsonTree::Text(system_version),
            "application_version"@ => JsonTree::Text(APPLICATION_VERSION@),
        ],
        RequestView::CheckDatabaseEncryptionKey => map![
            "@type"@ => kind,
            "encryption_key"@ => JsonTree::Text(""@),
        ],
        RequestView::SetPhoneNumber(number) => map![
            "@type"@ => kind,
            "phone_number"@ => JsonTree::Text(number),
            "settings"@ => JsonTree::Null,
        ],
        RequestView::CheckCode(code) => map![
            "@type"@ => kind,
            "code"@ => JsonTree::Text(code),
        ],
        RequestView::CheckPassword(password) => map![
            "@type"@ => kind,
            "password"@ => JsonTree::Text(password),
        ],
        RequestView::SetEmailAddress(address) => map![
            "@type"@ => kind,
            "email_address"@ => JsonTree::Text(address),
        ],
        RequestView::CheckEmailCode(code) => map![
            "@type"@ => kind,
            "code"@ => JsonTree::Object(email_code_members(code)),
        ],
        RequestView::RegisterUser { first_name, last_name } => map![
            "@type"@ => kind,
            "first_name"@ => JsonTree::Text(first_name),
            "last_name"@ => JsonTree::Text(last_name),
            "disable_notification"@ => JsonTree::Bool(false),
        ],
        RequestView::SetLogVerbosity(level) => map![
            "@type"@ => kind,
            "new_verbosity_level"@ => json::integer_tree(level as int),
        ],
    }
}

/// The members of the JSON object that makes a code received by email.
pub open spec fn email_code_members(code: Seq<char>) -> Map<Seq<char>, JsonTree> {
    map![
        "@type"@ => JsonTree::Text("emailAddressAuthenticationCode"@),
        "code"@ => JsonTree::Text(code),
    ]
}

/// The JSON object that makes a request.
pub open spec fn request_tree(request: RequestView) -> JsonTree {
    JsonTree::Object(request_members(request))
}

/// Whether the paths in a request can be written in JSON, whose strings are Unicode.
pub open spec fn has_unicode_paths(request: RequestView) -> bool {
    match request {
        RequestView::SetTdlibParameters { database_dir, files_dir, .. } => valid_utf8(database_dir)
            && valid_utf8(files_dir),
        _ => true,
    }
}

fn put_path(members: &mut JsonObject, key: &str, path: &OsPath)
    requires
        valid_utf8(path@),
    ensures
        final(members)@ == old(members)@.insert(key@, JsonTree::Text(decode_utf8(path@))),
{
    let name = text::from_utf8_lossy(path.bytes.as_slice());
    members.put_text(key, name.as_str());
}

/// Every request is an object of strings, integers, booleans and nulls, with at most one such
/// object in it.
proof fn lemma_request_is_shallow(request: RequestView)
    ensures
        request_tree(request).is_shallow(),
{
    let members = request_members(request);
    assert forall|key: Seq<char>| #[trigger] members.contains_key(key) implies members[key].is_scalar()
        || members[key].is_flat() by {
        if let RequestView::CheckEmailCode(code) = request {
            assert(JsonTree::Object(email_code_members(code)).is_flat());
        }
    }
}

impl RequestOf<OsPath, String> {
    /// The request as the JSON value that makes it.
    fn value(&self) -> (value: serde_json::Value)
        requires
            has_unicode_paths(self@),
        ensures
            json::json_tree(value) == request_tree(self@),
    {
        match self {
            Request::SetTdlibParameters {
                database_dir,
                files_dir,
                api_id,
                api_hash,
                system_version,
            } => {
                let mut members = JsonObject::typed("setTdlibParameters");
                members.put_bool("use_test_dc", false);
                put_path(&mut members, "database_directory", database_dir);
                put_path(&mut members, "files_directory", files_dir);
                members.put_text("database_encryption_key", "");
                members.put_bool("use_file_database", true);
                members.put_bool("use_chat_info_database", true);
                members.put_bool("use_message_database", true);
                members.put_bool("use_secret_chats", false);
                members.put_integer("api_id", *api_id);
                members.put_text("api_hash", api_hash.as_str());
                members.put_text("system_language_code", "en");
                members.put_text("device_model", "tgdyk");
                members.put_text("system_version", system_version.as_str());
                members.put_text("application_version", APPLICATION_VERSION);
                members.into_value()
            },
            Request::CheckDatabaseEncryptionKey => {
                let mut members = JsonObject::typed("checkDatabaseEncryptionKey");
                members.put_text("encryption_key", "");
                members.into_value()
            },
            Request::SetPhoneNumber(number) => {
                let mut members = JsonObject::typed("setAuthenticationPhoneNumber");
                members.put_text("phone_number", number.as_str());
                members.put_null("settings");
                members.into_value()
            },
            Request::CheckCode(code) => {
                let mut members = JsonObject::typed("checkAuthenticationCode");
                members.put_text("code", code.as_str());
                members.into_value()
            },
            Request::CheckPassword(password) => {
                let mut members = JsonObject::typed("checkAuthenticationPassword");
                members.put_text("password", password.as_str());
                members.into_value()
            },
            Request::SetEmailAddress(address) => {
                let mut members = JsonObject::typed("setAuthenticationEmailAddress");
                members.put_text("email_address", address.as_str());
                members.into_value()
            },
            Request::CheckEmailCode(code) => {
                let mut inner = JsonObject::typed("emailAddressAuthenticationCode");
                inner.put_text("code", code.as_str());
                let mut members = JsonObject::typed("checkAuthenticationEmailCode");
                members.put_object("code", inner);
                members.into_value()
            },
            Request::RegisterUser { first_name, last_name } => {
                let mut members = JsonObject::typed("registerUser");
                members.put_text("first_name", first_name.as_str());
                members.put_text("last_name", last_name.as_str());
                members.put_bool("disable_notification", false);
                members.into_value()
            },
            Request::SetLogVerbosity(level) => {
                let mut members = JsonObject::typed("setLogVerbosityLevel");
                members.put_integer("new_verbosity_level", *level as i64);
                members.into_value()
            },
        }
    }

    /// The text that is sent: one JSON document, which reads back as the request. No control
    /// character is in it, so that it can be handed over as a C string.
    pub fn to_json(&self) -> (sent: String)
        requires
            has_unicode_paths(self@),
        ensures
            sent@ == json::json_text(request_tree(self@)),
            json::json_document(sent@) == Ok::<JsonTree, Seq<char>>(request_tree(self@)),
            forall|i: int| 0 <= i < sent@.len() ==> #[trigger] sent@[i] >= ' ',
    {
        proof {
            lemma_request_is_shallow(self@);
        }
        let value = self.value();
        json::write_json(&value)
    }
}

/// Every request names its type, by which TDLib tells requests apart.
pub proof fn requests_name_their_type(request: RequestView)
    ensures
        json::named_type(request_tree(request)) == Some(request_type(request)),
{
    lemma_keys_are_distinct();
}

/// No two keys of a request are the same.
proof fn lemma_keys_are_distinct()
    ensures
        "@type"@ != "use_test_dc"@,
        "@type"@ != "database_directory"@,
        "@type"@ != "files_directory"@,
        "@type"@ != "database_encryption_key"@,
        "@type"@ != "use_file_database"@,
        "@type"@ != "use_chat_info_database"@,
        "@type"@ != "use_message_database"@,
        "@type"@ != "use_secret_chats"@,
        "@type"@ != "api_id"@,
        "@type"@ != "api_hash"@,
        "@type"@ != "system_language_code"@,
        "@type"@ != "device_model"@,
        "@type"@ != "system_version"@,
        "@type"@ != "application_version"@,
        "@type"@ != "encryption_key"@,
        "@type"@ != "phone_number"@,
        "@type"@ != "settings"@,
        "@type"@ != "code"@,
        "@type"@ != "password"@,
        "@type"@ != "email_address"@,
        "@type"@ != "first_name"@,
        "@type"@ != "last_name"@,
        "@type"@ != "disable_notification"@,
        "@type"@ != "new_verbosity_level"@,
{
    reveal_strlit("@type");
    assert("@type"@[0] == '@');
    reveal_strlit("use_test_dc");
    reveal_strlit("database_directory");
    reveal_strlit("files_directory");
    reveal_strlit("database_encryption_key");
    reveal_strlit("use_file_database");
    reveal_strlit("use_chat_info_database");
    reveal_strlit("use_message_database");
    reveal_strlit("use_secret_chats");
    reveal_strlit("api_id");
    reveal_strlit("api_hash");
    reveal_strlit("system_language_code");
    reveal_strlit("device_model");
    reveal_strlit("system_version");
    reveal_strlit("application_version");
    reveal_strlit("encryption_key");
    reveal_strlit("phone_number");
    reveal_strlit("settings");
    reveal_strlit("code");
    reveal_strlit("password");
    reveal_strlit("email_address");
    reveal_strlit("first_name");
    reveal_strlit("last_name");
    reveal_strlit("disable_notification");
    reveal_strlit("new_verbosity_level");
}

/// What a request for parameters holds under the keys of its arguments.
proof fn lemma_parameters(request: RequestView)
    requires
        request is SetTdlibParameters,
    ensures
        request matches RequestView::SetTdlibParameters {
            database_dir,
            files_dir,
            api_id,
            api_hash,
            system_version,
        } && {
            let members = request_members(request);
            &&& members["database_directory"@] == JsonTree::Text(decode_utf8(database_dir))
            &&& members["files_directory"@] == JsonTree::Text(decode_utf8(files_dir))
            &&& members["api_id"@] == json::integer_tree(api_id as int)
            &&& members["api_hash"@] == JsonTree::Text(api_hash)
            &&& members["system_version"@] == JsonTree::Text(system_version)
        },
{
    reveal_strlit("database_directory");
    reveal_strlit("files_directory");
    reveal_strlit("database_encryption_key");
    reveal_strlit("use_file_database");
    reveal_strlit("use_chat_info_database");
    reveal_strlit("use_message_database");
    reveal_strlit("use_secret_chats");
    reveal_strlit("api_id");
    reveal_strlit("api_hash");
    reveal_strlit("system_language_code");
    reveal_strlit("device_model");
    reveal_strlit("system_version");
    reveal_strlit("application_version");
    assert("database_directory"@.len() == 18);
    assert("files_directory"@.len() == 15);
    assert("database_encryption_key"@.len() == 23);
    assert("use_file_database"@.len() == 17);
    assert("use_chat_info_database"@.len() == 22);
    assert("use_message_database"@.len() == 20);
    assert("use_secret_chats"@.len() == 16);
    assert("api_id"@.len() == 6);
    assert("api_hash"@.len() == 8);
    assert("system_language_code"@.len() == 20);
    assert("device_model"@.len() == 12);
    assert("system_version"@.len() == 14);
    assert("application_version"@.len() == 19);
}

/// What is sent tells TDLib all of a request: different requests are different documents.
pub proof fn requests_are_told_apart(left: RequestView, right: RequestView)
    requires
        has_unicode_paths(left),
        has_unicode_paths(right),
        request_tree(left) == request_tree(right),
    ensures
        left == right,
{
    requests_name_their_type(left);
    requests_name_their_type(right);
    lemma_types_are_distinct(left, right);
    let members = request_members(left);
    assert(members == request_members(right));
    match left {
        RequestView::SetTdlibParameters { database_dir, files_dir, .. } => {
            lemma_parameters(left);
            lemma_parameters(right);
            decode_utf8_encode_utf8(database_dir);
            decode_utf8_encode_utf8(files_dir);
            decode_utf8_encode_utf8(right->database_dir);
            decode_utf8_encode_utf8(right->files_dir);
            assert(JsonTree::Text(decode_utf8(database_dir)) == JsonTree::Text(
                decode_utf8(right->database_dir),
            ));
        },
        RequestView::CheckDatabaseEncryptionKey => {},
        RequestView::SetPhoneNumber(number) => {
            reveal_strlit("phone_number");
            reveal_strlit("settings");
            assert("phone_number"@.len() != "settings"@.len());
            assert(members["phone_number"@] == JsonTree::Text(number));
        },
        RequestView::CheckCode(code) => {
            assert(members["code"@] == JsonTree::Text(code));
        },
        RequestView::CheckPassword(password) => {
            assert(members["password"@] == JsonTree::Text(password));
        },
        RequestView::SetEmailAddress(address) => {
            assert(members["email_address"@] == JsonTree::Text(address));
        },
        RequestView::CheckEmailCode(code) => {
            assert(members["code"@] == JsonTree::Object(email_code_members(code)));
            assert(email_code_members(code)["code"@] == JsonTree::Text(code));
        },
        RequestView::RegisterUser { first_name, last_name } => {
            reveal_strlit("first_name");
            reveal_strlit("last_name");
            reveal_strlit("disable_notification");
            assert("first_name"@.len() == 10);
            assert("last_name"@.len() == 9);
            assert("disable_notification"@.len() == 20);
            assert(members["first_name"@] == JsonTree::Text(first_name));
            assert(members["last_name"@] == JsonTree::Text(last_name));
        },
        RequestView::SetLogVerbosity(level) => {
            assert(members["new_verbosity_level"@] == json::integer_tree(level as int));
        },
    }
}

/// Requests with the same type are of the same kind.
proof fn lemma_types_are_distinct(left: RequestView, right: RequestView)
    requires
        request_type(left) == request_type(right),
    ensures
        left is SetTdlibParameters == right is SetTdlibParameters,
        left is CheckDatabaseEncryptionKey == right is CheckDatabaseEncryptionKey,
        left is SetPhoneNumber == right is SetPhoneNumber,
        left is CheckCode == right is CheckCode,
        left is CheckPassword == right is CheckPassword,
        left is SetEmailAddress == right is SetEmailAddress,
        left is CheckEmailCode == right is CheckEmailCode,
        left is RegisterUser == right is RegisterUser,
        left is SetLogVerbosity == right is SetLogVerbosity,
{
    reveal_strlit("setTdlibParameters");
    reveal_strlit("checkDatabaseEncryptionKey");
    reveal_strlit("setAuthenticationPhoneNumber");
    reveal_strlit("checkAuthenticationCode");
    reveal_strlit("checkAuthenticationPassword");
    reveal_strlit("setAuthenticationEmailAddress");
    reveal_strlit("checkAuthenticationEmailCode");
    reveal_strlit("registerUser");
    reveal_strlit("setLogVerbosityLevel");
    assert("setTdlibParameters"@.len() == 18);
    assert("checkDatabaseEncryptionKey"@.len() == 26);
    assert("setAuthenticationPhoneNumber"@.len() == 28);
    assert("checkAuthenticationCode"@.len() == 23);
    assert("checkAuthenticationPassword"@.len() == 27);
    assert("setAuthenticationEmailAddress"@.len() == 29);
    assert("checkAuthenticationEmailCode"@.len() == 28);
    assert("registerUser"@.len() == 12);
    assert("setLogVerbosityLevel"@.len() == 20);
    assert("setAuthenticationPhoneNumber"@[0] != "checkAuthenticationEmailCode"@[0]);
}

/// The lengths of the keys of a request for parameters, by which they differ but for two.
proof fn lemma_parameter_keys()
    ensures
        "use_test_dc"@.len() == 11,
        "database_directory"@.len() == 18,
        "files_directory"@.len() == 15,
        "database_encryption_key"@.len() == 23,
        "use_file_database"@.len() == 17,
        "use_chat_info_database"@.len() == 22,
        "use_message_database"@.len() == 20,
        "use_secret_chats"@.len() == 16,
        "api_id"@.len() == 6,
        "api_hash"@.len() == 8,
        "system_language_code"@.len() == 20,
        "device_model"@.len() == 12,
        "system_version"@.len() == 14,
        "application_version"@.len() == 19,
        "use_message_database"@ != "system_language_code"@,
{
    reveal_strlit("use_test_dc");
    reveal_strlit("database_directory");
    reveal_strlit("files_directory");
    reveal_strlit("database_encryption_key");
    reveal_strlit("use_file_database");
    reveal_strlit("use_chat_info_database");
    reveal_strlit("use_message_database");
    reveal_strlit("use_secret_chats");
    reveal_strlit("api_id");
    reveal_strlit("api_hash");
    reveal_strlit("system_language_code");
    reveal_strlit("device_model");
    reveal_strlit("system_version");
    reveal_strlit("application_version");
    assert("use_message_database"@[0] == 'u');
    assert("system_language_code"@[0] == 's');
}

/// What TDLib is told in the parameters does not depend on the user but for five things: whatever
/// the directories, the credentials and the system version are, the session is on the production
/// servers, without secret chats, with all three databases, and with an empty database key.
pub proof fn parameters_have_fixed_members(
    database_dir: OsPath,
    files_dir: OsPath,
    api_id: i64,
    api_hash: String,
    system_version: String,
)
    ensures
        ({
            let sent = request_tree(
                (Request::SetTdlibParameters {
                    database_dir,
                    files_dir,
                    api_id,
                    api_hash,
                    system_version,
                })@,
            );
            &&& sent.member("@type"@) == Some(JsonTree::Text("setTdlibParameters"@))
            &&& sent.member("use_test_dc"@) == Some(JsonTree::Bool(false))
            &&& sent.member("use_secret_chats"@) == Some(JsonTree::Bool(false))
            &&& sent.member("use_file_database"@) == Some(JsonTree::Bool(true))
            &&& sent.member("use_chat_info_database"@) == Some(JsonTree::Bool(true))
            &&& sent.member("use_message_database"@) == Some(JsonTree::Bool(true))
            &&& sent.member("database_encryption_key"@) == Some(JsonTree::Text(Seq::empty()))
            &&& sent.member("system_language_code"@) == Some(JsonTree::Text("en"@))
            &&& sent.member("device_model"@) == Some(JsonTree::Text("tgdyk"@))
            &&& sent.member("application_version"@) == Some(JsonTree::Text("0.1.2"@))
        }),
{
    lemma_keys_are_distinct();
    lemma_parameter_keys();
    reveal_strlit("");
    assert(""@ =~= Seq::empty());
}

/// The five things that the user decides are in the parameters as they are, each under its key,
/// and there is no key but these and the fixed ones.
pub proof fn parameters_hold_what_the_user_decides(
    database_dir: OsPath,
    files_dir: OsPath,
    api_id: i64,
    api_hash: String,
    system_version: String,
    key: Seq<char>,
)
    ensures
        ({
            let sent = request_tree(
                (Request::SetTdlibParameters {
                    database_dir,
                    files_dir,
                    api_id,
                    api_hash,
                    system_version,
                })@,
            );
            &&& sent.member("database_directory"@) == Some(
                JsonTree::Text(decode_utf8(database_dir.bytes@)),
            )
            &&& sent.member("files_directory"@) == Some(
                JsonTree::Text(decode_utf8(files_dir.bytes@)),
            )
            &&& sent.member("api_id"@) matches Some(JsonTree::Number { integer, .. }) && integer
                == Some(api_id as int)
            &&& sent.member("api_hash"@) == Some(JsonTree::Text(api_hash@))
            &&& sent.member("system_version"@) == Some(JsonTree::Text(system_version@))
            &&& sent.member(key) is Some ==> key == "@type"@ || key == "use_test_dc"@ || key
                == "database_directory"@ || key == "files_directory"@ || key
                == "database_encryption_key"@ || key == "use_file_database"@ || key
                == "use_chat_info_database"@ || key == "use_message_database"@ || key
                == "use_secret_chats"@ || key == "api_id"@ || key == "api_hash"@ || key
                == "system_language_code"@ || key == "device_model"@ || key == "system_version"@
                || key == "application_version"@
        }),
{
    lemma_keys_are_distinct();
    lemma_parameter_keys();
}

/// Two requests for parameters differ in what the user decides and in nothing else.
pub proof fn parameters_differ_in_what_the_user_decides(
    left: RequestView,
    right: RequestView,
    key: Seq<char>,
)
    requires
        left is SetTdlibParameters,
        right is SetTdlibParameters,
        key != "database_directory"@,
        key != "files_directory"@,
        key != "api_id"@,
        key != "api_hash"@,
        key != "system_version"@,
    ensures
        request_tree(left).member(key) == request_tree(right).member(key),
{
    lemma_keys_are_distinct();
    lemma_parameter_keys();
}

/// Each of the other requests says what it is and holds what it is about, as it is, under one key,
/// and beside that only what never changes.
pub proof fn requests_hold_what_they_are_about(given: String, other: String, level: i32, key: Seq<char>)
    ensures
        ({
            let sent = request_tree((Request::SetPhoneNumber(given))@);
            &&& sent.member("@type"@) == Some(JsonTree::Text("setAuthenticationPhoneNumber"@))
            &&& sent.member("phone_number"@) == Some(JsonTree::Text(given@))
            &&& sent.member("settings"@) == Some(JsonTree::Null)
            &&& sent.member(key) is Some ==> key == "@type"@ || key == "phone_number"@ || key
                == "settings"@
        }),
        ({
            let sent = request_tree((Request::CheckCode(given))@);
            &&& sent.member("@type"@) == Some(JsonTree::Text("checkAuthenticationCode"@))
            &&& sent.member("code"@) == Some(JsonTree::Text(given@))
            &&& sent.member(key) is Some ==> key == "@type"@ || key == "code"@
        }),
        ({
            let sent = request_tree((Request::CheckPassword(given))@);
            &&& sent.member("@type"@) == Some(JsonTree::Text("checkAuthenticationPassword"@))
            &&& sent.member("password"@) == Some(JsonTree::Text(given@))
            &&& sent.member(key) is Some ==> key == "@type"@ || key == "password"@
        }),
        ({
            let sent = request_tree((Request::SetEmailAddress(given))@);
            &&& sent.member("@type"@) == Some(JsonTree::Text("setAuthenticationEmailAddress"@))
            &&& sent.member("email_address"@) == Some(JsonTree::Text(given@))
            &&& sent.member(key) is Some ==> key == "@type"@ || key == "email_address"@
        }),
        ({
            let sent = request_tree((Request::CheckEmailCode(given))@);
            &&& sent.member("@type"@) == Some(JsonTree::Text("checkAuthenticationEmailCode"@))
            &&& sent.member("code"@) matches Some(code) && {
                &&& code.member("@type"@) == Some(
                    JsonTree::Text("emailAddressAuthenticationCode"@),
                )
                &&& code.member("code"@) == Some(JsonTree::Text(given@))
                &&& code.member(key) is Some ==> key == "@type"@ || key == "code"@
            }
            &&& sent.member(key) is Some ==> key == "@type"@ || key == "code"@
        }),
        ({
            let sent = request_tree(
                (Request::RegisterUser { first_name: given, last_name: other })@,
            );
            &&& sent.member("@type"@) == Some(JsonTree::Text("registerUser"@))
            &&& sent.member("first_name"@) == Some(JsonTree::Text(given@))
            &&& sent.member("last_name"@) == Some(JsonTree::Text(other@))
            &&& sent.member("disable_notification"@) == Some(JsonTree::Bool(false))
            &&& sent.member(key) is Some ==> key == "@type"@ || key == "first_name"@ || key
                == "last_name"@ || key == "disable_notification"@
        }),
        ({
            let sent = request_tree(Request::CheckDatabaseEncryptionKey@);
            &&& sent.member("@type"@) == Some(JsonTree::Text("checkDatabaseEncryptionKey"@))
            &&& sent.member("encryption_key"@) == Some(JsonTree::Text(Seq::empty()))
            &&& sent.member(key) is Some ==> key == "@type"@ || key == "encryption_key"@
        }),
        ({
            let sent = request_tree((Request::SetLogVerbosity(level))@);
            &&& sent.member("@type"@) == Some(JsonTree::Text("setLogVerbosityLevel"@))
            &&& sent.member("new_verbosity_level"@) matches Some(
                JsonTree::Number { integer, .. },
            ) && integer == Some(level as int)
            &&& sent.member(key) is Some ==> key == "@type"@ || key == "new_verbosity_level"@
        }),
{
    lemma_keys_are_distinct();
    reveal_strlit("");
    assert(""@ =~= Seq::empty());
    reveal_strlit("phone_number");
    reveal_strlit("settings");
    reveal_strlit("first_name");
    reveal_strlit("last_name");
    reveal_strlit("disable_notification");
    assert("phone_number"@.len() == 12);
    assert("settings"@.len() == 8);
    assert("first_name"@.len() == 10);
    assert("last_name"@.len() == 9);
    assert("disable_notification"@.len() == 20);
}

/// Only a path that is no text keeps a request from being written, and only the parameters hold
/// paths.
pub proof fn only_paths_keep_requests_from_being_written(request: RequestView)
    ensures
        !has_unicode_paths(request) <==> (request matches RequestView::SetTdlibParameters {
            database_dir,
            files_dir,
            ..
        } && !(valid_utf8(database_dir) && valid_utf8(files_dir))),
{
}

} // verus!
