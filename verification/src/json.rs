//! JSON documents: what TDLib sends and what it is sent.
use crate::text;
use vstd::prelude::*;

verus! {

/// What a JSON value holds.
pub enum JsonTree {
    Null,
    Bool(bool),
    /// A number: its value where it is an integer between `i64::MIN` and `u64::MAX` that is
    /// written as one, and its text.
    Number { integer: Option<int>, text: Seq<char> },
    Text(Seq<char>),
    Array(Seq<JsonTree>),
    Object(Map<Seq<char>, JsonTree>),
}

impl JsonTree {
    /// The member of an object under `key`; no other value has members.
    pub open spec fn member(self, key: Seq<char>) -> Option<JsonTree> {
        match self {
            JsonTree::Object(members) => if members.contains_key(key) {
                Some(members[key])
            } else {
                None
            },
            _ => None,
        }
    }

    /// The characters of a string; no other value has any.
    pub open spec fn as_text(self) -> Option<Seq<char>> {
        match self {
            JsonTree::Text(held) => Some(held),
            _ => None,
        }
    }

    /// The value of a number that is an `i64`; no other value has one.
    pub open spec fn as_i64(self) -> Option<i64> {
        match self {
            JsonTree::Number { integer: Some(number), .. } => if text::fits_i64(number) {
                Some(number as i64)
            } else {
                None
            },
            _ => None,
        }
    }

    /// Whether this is a value without parts, and no fractional number.
    pub open spec fn is_scalar(self) -> bool {
        match self {
            JsonTree::Null | JsonTree::Bool(_) | JsonTree::Text(_) => true,
            JsonTree::Number { integer, .. } => integer is Some,
            JsonTree::Array(_) | JsonTree::Object(_) => false,
        }
    }

    /// Whether this is an object all of whose members are scalars.
    pub open spec fn is_flat(self) -> bool {
        self matches JsonTree::Object(members) && forall|key: Seq<char>| #[trigger]
            members.contains_key(key) ==> members[key].is_scalar()
    }

    /// Whether this is an object all of whose members are scalars or objects of scalars.
    pub open spec fn is_shallow(self) -> bool {
        self matches JsonTree::Object(members) && forall|key: Seq<char>| #[trigger]
            members.contains_key(key) ==> members[key].is_scalar() || members[key].is_flat()
    }
}

/// An integer as a JSON value.
pub open spec fn integer_tree(number: int) -> JsonTree {
    JsonTree::Number { integer: Some(number), text: text::decimal(number) }
}

/// The members of an empty object.
pub open spec fn no_members() -> Map<Seq<char>, JsonTree> {
    Map::empty()
}

/// A JSON value of `serde_json`; what it holds is named by [`json_tree`].
#[verifier::external_type_specification]
#[verifier::external_body]
pub struct ExValue(serde_json::Value);

/// The members of a JSON object of `serde_json`; what it holds is named by [`json_members`].
#[verifier::external_type_specification]
#[verifier::external_body]
#[verifier::reject_recursive_types(K)]
#[verifier::reject_recursive_types(V)]
pub struct ExMembers<K, V>(serde_json::Map<K, V>);

/// What a value of `serde_json` holds: itself, or all its items or members with what they hold.
pub uninterp spec fn json_tree(value: serde_json::Value) -> JsonTree;

/// What a map of `serde_json` holds.
pub uninterp spec fn json_members(
    members: serde_json::Map<String, serde_json::Value>,
) -> Map<Seq<char>, JsonTree>;

/// What `serde_json::from_str` makes of a text: the value that it holds, or the message that
/// says why it is no JSON document.
pub uninterp spec fn json_document(source: Seq<char>) -> Result<JsonTree, Seq<char>>;

/// The text that `serde_json` writes for a value.
pub uninterp spec fn json_text(tree: JsonTree) -> Seq<char>;

/// Calls `serde_json::from_str` for a `serde_json::Value`, and `to_string` on its error. What
/// a text parses to, and what the error says, depends on the text alone; it is only named.
#[verifier::external_body]
pub(crate) fn parse_json(source: &str) -> (parsed: Result<serde_json::Value, String>)
    ensures
        match parsed {
            Ok(value) => json_document(source@) matches Ok(tree) && tree == json_tree(value),
            Err(message) => json_document(source@) matches Err(said) && said == message@,
        },
{
    serde_json::from_str(source).map_err(|error: serde_json::Error| error.to_string())
}

/// Calls `to_string` on a `serde_json::Value`, which writes it in compact form. The text
/// depends on what the value holds alone and is only named; of an object whose members are
/// strings, integers, booleans, nulls or objects of such members, it parses back to that object.
/// It holds no control character: those in strings are escaped.
#[verifier::external_body]
pub(crate) fn write_json(value: &serde_json::Value) -> (written: String)
    ensures
        written@ == json_text(json_tree(*value)),
        match json_document(written@) {
            Ok(tree) => json_tree(*value).is_shallow() ==> tree == json_tree(*value),
            Err(_) => !json_tree(*value).is_shallow(),
        },
        forall|i: int| 0 <= i < written@.len() ==> #[trigger] written@[i] >= ' ',
{
    value.to_string()
}

/// Calls `serde_json::Value::get` with a string: the member of an object under that key, and
/// nothing where there is no such member or the value is no object.
#[verifier::external_body]
pub(crate) fn member<'a>(value: &'a serde_json::Value, key: &str) -> (found: Option<&'a serde_json::Value>)
    ensures
        match found {
            Some(held) => json_tree(*value).member(key@) matches Some(tree) && tree == json_tree(
                *held,
            ),
            None => json_tree(*value).member(key@) is None,
        },
{
    value.get(key)
}

/// `serde_json::Value::as_str` gives the characters of a string, and nothing for any other value.
pub assume_specification[ serde_json::Value::as_str ](value: &serde_json::Value) -> (held: Option<
    &str,
>)
    ensures
        match held {
            Some(chars) => json_tree(*value).as_text() matches Some(tree) && tree == chars@,
            None => json_tree(*value).as_text() is None,
        },
;

/// `serde_json::Value::as_i64` gives the value of an integer that fits, and nothing for any
/// other value.
pub assume_specification[ serde_json::Value::as_i64 ](value: &serde_json::Value) -> (held: Option<
    i64,
>)
    ensures
        held == json_tree(*value).as_i64(),
;

/// `serde_json::Map::new` gives a map without members.
pub assume_specification[ serde_json::Map::<String, serde_json::Value>::new ]() -> (members:
    serde_json::Map<String, serde_json::Value>)
    ensures
        json_members(members) == no_members(),
;

/// `serde_json::Map::insert` sets the member under a key, and gives back the one that it had.
pub assume_specification[ serde_json::Map::<String, serde_json::Value>::insert ](
    members: &mut serde_json::Map<String, serde_json::Value>,
    k: String,
    v: serde_json::Value,
) -> (previous: Option<serde_json::Value>)
    ensures
        json_members(*final(members)) == json_members(*old(members)).insert(k@, json_tree(v)),
        match previous {
            Some(held) => json_members(*old(members)).contains_key(k@) && json_members(
                *old(members),
            )[k@] == json_tree(held),
            None => !json_members(*old(members)).contains_key(k@),
        },
;

/// Makes the variant `serde_json::Value::Null`.
#[verifier::external_body]
fn null() -> (value: serde_json::Value)
    ensures
        json_tree(value) == JsonTree::Null,
{
    serde_json::Value::Null
}

/// Makes the variant `serde_json::Value::Bool`.
#[verifier::external_body]
fn boolean(held: bool) -> (value: serde_json::Value)
    ensures
        json_tree(value) == JsonTree::Bool(held),
{
    serde_json::Value::Bool(held)
}

/// Calls `serde_json::Value::from` with an integer, which is written in decimal.
#[verifier::external_body]
fn integer(held: i64) -> (value: serde_json::Value)
    ensures
        json_tree(value) == integer_tree(held as int),
{
    serde_json::Value::from(held)
}

/// Makes the variant `serde_json::Value::String`.
#[verifier::external_body]
fn string(held: String) -> (value: serde_json::Value)
    ensures
        json_tree(value) == JsonTree::Text(held@),
{
    serde_json::Value::String(held)
}

/// Makes the variant `serde_json::Value::Object`.
#[verifier::external_body]
fn object(members: serde_json::Map<String, serde_json::Value>) -> (value: serde_json::Value)
    ensures
        json_tree(value) == JsonTree::Object(json_members(members)),
{
    serde_json::Value::Object(members)
}

/// A JSON object that is being filled.
pub(crate) struct JsonObject {
    members: serde_json::Map<String, serde_json::Value>,
}

impl View for JsonObject {
    type V = Map<Seq<char>, JsonTree>;

    closed spec fn view(&self) -> Map<Seq<char>, JsonTree> {
        json_members(self.members)
    }
}

impl JsonObject {
    /// An object whose member `@type` is `kind`.
    pub(crate) fn typed(kind: &str) -> (made: JsonObject)
        ensures
            made@ == no_members().insert("@type"@, JsonTree::Text(kind@)),
    {
        let mut made = JsonObject { members: serde_json::Map::new() };
        made.put("@type", string(kind.to_owned()));
        made
    }

    fn put(&mut self, key: &str, value: serde_json::Value)
        ensures
            final(self)@ == old(self)@.insert(key@, json_tree(value)),
    {
        let _ = self.members.insert(key.to_owned(), value);
    }

    pub(crate) fn put_null(&mut self, key: &str)
        ensures
            final(self)@ == old(self)@.insert(key@, JsonTree::Null),
    {
        self.put(key, null());
    }

    pub(crate) fn put_bool(&mut self, key: &str, held: bool)
        ensures
            final(self)@ == old(self)@.insert(key@, JsonTree::Bool(held)),
    {
        self.put(key, boolean(held));
    }

    pub(crate) fn put_integer(&mut self, key: &str, held: i64)
        ensures
            final(self)@ == old(self)@.insert(key@, integer_tree(held as int)),
    {
        self.put(key, integer(held));
    }

    pub(crate) fn put_text(&mut self, key: &str, held: &str)
        ensures
            final(self)@ == old(self)@.insert(key@, JsonTree::Text(held@)),
    {
        self.put(key, string(held.to_owned()));
    }

    pub(crate) fn put_object(&mut self, key: &str, held: JsonObject)
        ensures
            final(self)@ == old(self)@.insert(key@, JsonTree::Object(held@)),
    {
        self.put(key, held.into_value());
    }

    /// The object as a JSON value.
    pub(crate) fn into_value(self) -> (value: serde_json::Value)
        ensures
            json_tree(value) == JsonTree::Object(self@),
    {
        object(self.members)
    }
}

/// The name of the TDLib type that a value has: its member `@type` or, where it has none, its
/// member `_`. A member that is no string names no type.
pub open spec fn named_type(tree: JsonTree) -> Option<Seq<char>> {
    match tree.member("@type"@) {
        Some(name) => name.as_text(),
        None => match tree.member("_"@) {
            Some(name) => name.as_text(),
            None => None,
        },
    }
}

/// The view of a text that may be absent.
pub open spec fn optional_text(held: Option<&str>) -> Option<Seq<char>> {
    match held {
        Some(chars) => Some(chars@),
        None => None,
    }
}

/// The name of the TDLib type of a value.
pub fn tdlib_type_name(value: &serde_json::Value) -> (name: Option<&str>)
    ensures
        optional_text(name) == named_type(json_tree(*value)),
{
    match member(value, "@type") {
        Some(name) => name.as_str(),
        None => match member(value, "_") {
            Some(name) => name.as_str(),
            None => None,
        },
    }
}

/// Whether a value has the TDLib type `kind`.
pub fn has_type(value: &serde_json::Value, kind: &str) -> (has: bool)
    ensures
        has == (named_type(json_tree(*value)) == Some(kind@)),
{
    match tdlib_type_name(value) {
        Some(name) => text::same_text(name, kind),
        None => false,
    }
}

/// The member of a value under `key` where it is a string.
pub open spec fn text_member(tree: JsonTree, key: Seq<char>) -> Option<Seq<char>> {
    match tree.member(key) {
        Some(held) => held.as_text(),
        None => None,
    }
}

/// The string that a value has under `key`.
pub fn text_under<'a>(value: &'a serde_json::Value, key: &str) -> (found: Option<&'a str>)
    ensures
        optional_text(found) == text_member(json_tree(*value), key@),
{
    match member(value, key) {
        Some(held) => held.as_str(),
        None => None,
    }
}

/// What TDLib says in an error: the code, where there is one, and the message. Nothing else of
/// the error is told.
pub open spec fn error_message(tree: JsonTree) -> Seq<char> {
    let message = match text_member(tree, "message"@) {
        Some(message) => message,
        None => "unknown TDLib error"@,
    };
    let code = match tree.member("code"@) {
        Some(held) => held.as_i64(),
        None => None,
    };
    match code {
        Some(number) => text::decimal(number as int) + ": "@ + message,
        None => message,
    }
}

/// The text of an error that TDLib sent.
pub fn tdlib_error_message(update: &serde_json::Value) -> (said: String)
    ensures
        said@ == error_message(json_tree(*update)),
{
    let message = match text_under(update, "message") {
        Some(message) => message,
        None => "unknown TDLib error",
    };
    let code = match member(update, "code") {
        Some(held) => held.as_i64(),
        None => None,
    };
    match code {
        Some(number) => {
            let mut said = text::decimal_text(number);
            said.append(": ");
            said.append(message);
            said
        },
        None => message.to_owned(),
    }
}

/// An error tells nothing of the update but its code and its message: two updates that agree
/// in these two are told alike, whatever else they hold.
pub proof fn error_tells_code_and_message_alone(left: JsonTree, right: JsonTree)
    requires
        left.member("message"@) == right.member("message"@),
        left.member("code"@) == right.member("code"@),
    ensures
        error_message(left) == error_message(right),
{
}

/// A value has the type that its member `@type` names, whatever else it holds; only one that has
/// no such member at all has the type that its member `_` names. Nothing but a string is a name.
pub proof fn types_are_named_by_strings(tree: JsonTree, name: Seq<char>)
    ensures
        tree.member("@type"@) == Some(JsonTree::Text(name)) ==> named_type(tree) == Some(name),
        tree.member("@type"@) is None && tree.member("_"@) == Some(JsonTree::Text(name))
            ==> named_type(tree) == Some(name),
        named_type(tree) == Some(name) ==> tree.member("@type"@) == Some(JsonTree::Text(name)) || (
        tree.member("@type"@) is None && tree.member("_"@) == Some(JsonTree::Text(name))),
{
}

/// A string is found under its key, whatever else is there, and nothing but a string is found.
pub proof fn strings_are_found_under_their_keys(tree: JsonTree, key: Seq<char>, held: Seq<char>)
    ensures
        text_member(tree, key) == Some(held) <==> tree.member(key) == Some(JsonTree::Text(held)),
        text_member(tree, key) is None <==> (tree.member(key) matches Some(value) ==> !(
        value is Text)),
{
}

/// An error is told as its message, or as an unknown one where the message is no string; before it
/// stands the code in decimal with a colon and a space, where there is one, and nothing where
/// there is none.
pub proof fn errors_are_told_by_code_and_message(tree: JsonTree, message: Seq<char>, code: i64)
    ensures
        ({
            let coded = tree.member("code"@) matches Some(held) && held.as_i64() == Some(code);
            let uncoded = tree.member("code"@) matches Some(held) ==> held.as_i64() is None;
            let named = tree.member("message"@) == Some(JsonTree::Text(message));
            let unnamed = tree.member("message"@) matches Some(held) ==> !(held is Text);
            &&& coded && named ==> error_message(tree) == text::decimal(code as int) + ": "@ + message
            &&& coded && unnamed ==> error_message(tree) == text::decimal(code as int) + ": "@
                + "unknown TDLib error"@
            &&& uncoded && named ==> error_message(tree) == message
            &&& uncoded && unnamed ==> error_message(tree) == "unknown TDLib error"@
        }),
{
}

} // verus!
