//! JSON documents as plain trees, read and written with `serde_json`.

use crate::error::{outcome, ErrorView, ZitadelCLIError};
use crate::text::{decimal, decimal_text, join3, numeral_u64, parse_u64, same_text};
use vstd::pervasive::unreached;
use vstd::prelude::*;
use vstd::string::StringExecFns;

verus! {

/// A JSON document.
#[derive(Debug, PartialEq, Eq)]
pub enum Json {
    Null,
    Bool(bool),
    /// A number, kept as the text that writes it.
    Number(String),
    Text(String),
    Array(Vec<Json>),
    /// An object: its members in order, each a name and a value.
    Object(Vec<(String, Json)>),
}

/// The mathematical value of a [`Json`].
pub ghost enum JsonValue {
    Null,
    Bool(bool),
    Number(Seq<char>),
    Text(Seq<char>),
    Array(Seq<JsonValue>),
    Object(Seq<(Seq<char>, JsonValue)>),
}

/// The mathematical value of a document.
pub open spec fn tree_value(tree: Json) -> JsonValue
    decreases tree,
{
    match tree {
        Json::Null => JsonValue::Null,
        Json::Bool(b) => JsonValue::Bool(b),
        Json::Number(n) => JsonValue::Number(n@),
        Json::Text(s) => JsonValue::Text(s@),
        Json::Array(items) => JsonValue::Array(
            Seq::new(
                items@.len(),
                |i: int|
                    if 0 <= i < items@.len() {
                        tree_value(items@[i])
                    } else {
                        JsonValue::Null
                    },
            ),
        ),
        Json::Object(members) => JsonValue::Object(
            Seq::new(
                members@.len(),
                |i: int|
                    if 0 <= i < members@.len() {
                        let member = members@[i];
                        (member.0@, tree_value(member.1))
                    } else {
                        (Seq::empty(), JsonValue::Null)
                    },
            ),
        ),
    }
}

impl View for Json {
    type V = JsonValue;

    open spec fn view(&self) -> JsonValue {
        tree_value(*self)
    }
}

/// The value of the first member called `name` among the members of an object.
pub open spec fn find_member(members: Seq<(Seq<char>, JsonValue)>, name: Seq<char>) -> Option<
    JsonValue,
>
    decreases members.len(),
{
    if members.len() == 0 {
        None
    } else if members[0].0 == name {
        Some(members[0].1)
    } else {
        find_member(members.drop_first(), name)
    }
}

/// The error for an object that lacks a member.
pub open spec fn missing_field(name: Seq<char>) -> ErrorView {
    ErrorView::JSONParse("missing field `"@ + name + "`"@)
}

/// The error for a member that holds a value of another kind than expected.
pub open spec fn invalid_field(name: Seq<char>) -> ErrorView {
    ErrorView::JSONParse("invalid type for field `"@ + name + "`"@)
}

impl JsonValue {
    /// The member called `name`, where this is an object that has one.
    pub open spec fn member(self, name: Seq<char>) -> Option<JsonValue> {
        match self {
            JsonValue::Object(members) => find_member(members, name),
            _ => None,
        }
    }

    /// The text, where this is a string.
    pub open spec fn text(self) -> Option<Seq<char>> {
        match self {
            JsonValue::Text(s) => Some(s),
            _ => None,
        }
    }

    /// The number, where this is a numeral of a natural number that a `u64`
    /// holds.
    pub open spec fn unsigned(self) -> Option<u64> {
        match self {
            JsonValue::Number(n) => numeral_u64(n),
            _ => None,
        }
    }

    /// The text of the member called `name`, which has to be there and to be
    /// a string.
    pub open spec fn text_field(self, name: Seq<char>) -> Result<Seq<char>, ErrorView> {
        match self.member(name) {
            None => Err(missing_field(name)),
            Some(value) => match value.text() {
                Some(text) => Ok(text),
                None => Err(invalid_field(name)),
            },
        }
    }

    /// The number of the member called `name`, which has to be there and to
    /// be a natural number that a `u64` holds.
    pub open spec fn unsigned_field(self, name: Seq<char>) -> Result<u64, ErrorView> {
        match self.member(name) {
            None => Err(missing_field(name)),
            Some(value) => match value.unsigned() {
                Some(number) => Ok(number),
                None => Err(invalid_field(name)),
            },
        }
    }
}

/// What `serde_json` reads from a text: the document, or the message of its
/// error where the text is not well-formed JSON.
pub uninterp spec fn json_document(text: Seq<char>) -> Result<JsonValue, Seq<char>>;

/// The sixteen digits of hexadecimal numerals, in order.
pub open spec fn hex_digits() -> Seq<char> {
    "0123456789abcdef"@
}

/// Whether a character stands in a JSON string as it is: every character
/// but the quote, the backslash and the control characters below the space.
pub open spec fn is_plain(c: char) -> bool {
    c != '"' && c != '\\' && c >= ' '
}

/// How a character stands in a JSON string: the quote and the backslash
/// behind a backslash, backspace, tab, line feed, form feed and carriage
/// return by their letters, any other control character below the space by
/// its number in four hexadecimal digits, and every other character as it
/// is.
pub open spec fn escaped_char(c: char) -> Seq<char> {
    if c == '"' {
        "\\\""@
    } else if c == '\\' {
        "\\\\"@
    } else if c == '\u{8}' {
        "\\b"@
    } else if c == '\t' {
        "\\t"@
    } else if c == '\n' {
        "\\n"@
    } else if c == '\u{c}' {
        "\\f"@
    } else if c == '\r' {
        "\\r"@
    } else if ' ' > c {
        "\\u00"@ + seq![hex_digits()[c as int / 16], hex_digits()[c as int % 16]]
    } else {
        seq![c]
    }
}

/// The characters of a text as they stand in a JSON string.
pub open spec fn escaped(text: Seq<char>) -> Seq<char>
    decreases text.len(),
{
    if text.len() == 0 {
        Seq::empty()
    } else {
        escaped(text.drop_last()) + escaped_char(text.last())
    }
}

/// The JSON string that writes a text: its characters, escaped, between
/// quotes.
pub open spec fn json_string_literal(text: Seq<char>) -> Seq<char> {
    "\""@ + escaped(text) + "\""@
}

/// A text of characters that stand as they are is written between quotes
/// as it is.
pub proof fn lemma_plain_text_is_quoted(text: Seq<char>)
    requires
        forall|i: int| 0 <= i < text.len() ==> is_plain(#[trigger] text[i]),
    ensures
        escaped(text) == text,
        json_string_literal(text) == "\""@ + text + "\""@,
    decreases text.len(),
{
    if text.len() > 0 {
        lemma_plain_text_is_quoted(text.drop_last());
    }
}

/// What a `serde_json::Value` holds.
pub uninterp spec fn value_tree(value: serde_json::Value) -> JsonValue;

/// The message that a `serde_json::Error` displays.
pub uninterp spec fn json_error_message(error: serde_json::Error) -> Seq<char>;

/// `serde_json::Error`, the error of reading and writing.
#[verifier::external_type_specification]
#[verifier::external_body]
pub struct ExJsonError(serde_json::Error);

/// `serde_json::Value`, a document as `serde_json` holds it.
#[verifier::external_type_specification]
#[verifier::external_body]
pub struct ExJsonTree(serde_json::Value);

/// Calls `serde_json::from_str` for a `serde_json::Value`. The contract names
/// what is read: the document that the value holds, or the message of the
/// error.
#[verifier::external_body]
fn read_value(text: &str) -> (r: Result<serde_json::Value, serde_json::Error>)
    ensures
        json_document(text@) == (match r {
            Ok(value) => Ok::<JsonValue, Seq<char>>(value_tree(value)),
            Err(e) => Err(json_error_message(e)),
        }),
{
    serde_json::from_str::<serde_json::Value>(text)
}

/// Turns a `serde_json::Value` into a [`Json`], variant by variant: the
/// items of an array and the members of an object in the order in which
/// `serde_json` hands them out, and a number as the text that
/// `serde_json::Number` displays. The contract names what the value holds as
/// the value of the result.
#[verifier::external_body]
fn tree_of(value: serde_json::Value) -> (tree: Json)
    ensures
        tree@ == value_tree(value),
{
    match value {
        serde_json::Value::Null => Json::Null,
        serde_json::Value::Bool(b) => Json::Bool(b),
        serde_json::Value::Number(n) => Json::Number(n.to_string()),
        serde_json::Value::String(s) => Json::Text(s),
        serde_json::Value::Array(a) => Json::Array(a.into_iter().map(tree_of).collect()),
        serde_json::Value::Object(o) => Json::Object(
            o.into_iter().map(|(k, v)| (k, tree_of(v))).collect(),
        ),
    }
}

/// Calls `to_string` of a `serde_json::Error`. The contract names the
/// message.
#[verifier::external_body]
fn json_error_text(error: &serde_json::Error) -> (message: String)
    ensures
        message@ == json_error_message(*error),
{
    error.to_string()
}

/// Calls `serde_json::to_string` on a text. The contract claims that the
/// call succeeds, and says what is written. `serde_json` documents two ways
/// for the call to fail, a value that refuses to be written and a map whose
/// keys are no strings, and a text is neither. What it writes is the text
/// between quotes, with the escapes of its table: one for each of the quote,
/// the backslash and the control characters below the space.
#[verifier::external_body]
fn write_string(text: &str) -> (r: Result<String, serde_json::Error>)
    ensures
        r is Ok,
        r->Ok_0@ == json_string_literal(text@),
{
    serde_json::to_string(text)
}

/// The document that a text holds, or the error that reading it gives.
pub open spec fn parsed(text: Seq<char>) -> Result<JsonValue, ErrorView> {
    match json_document(text) {
        Ok(document) => Ok(document),
        Err(message) => Err(ErrorView::JSONParse(message)),
    }
}

/// The first `n` of some texts, with commas between them.
pub open spec fn joined(parts: Seq<Seq<char>>, n: nat) -> Seq<char>
    decreases n,
{
    if n == 0 {
        Seq::empty()
    } else if n == 1 {
        parts[0]
    } else {
        joined(parts, (n - 1) as nat) + ","@ + parts[n - 1]
    }
}

/// The texts of the items of an array.
pub open spec fn item_texts(items: Seq<JsonValue>) -> Seq<Seq<char>>
    decreases items,
{
    Seq::new(
        items.len(),
        |i: int|
            if 0 <= i < items.len() {
                json_text(items[i])
            } else {
                Seq::empty()
            },
    )
}

/// The texts of the members of an object: of each its name as a JSON
/// string, a colon and its value.
pub open spec fn member_texts(members: Seq<(Seq<char>, JsonValue)>) -> Seq<Seq<char>>
    decreases members,
{
    Seq::new(
        members.len(),
        |i: int|
            if 0 <= i < members.len() {
                let member = members[i];
                json_string_literal(member.0) + ":"@ + json_text(member.1)
            } else {
                Seq::empty()
            },
    )
}

/// The text that writes a document, without spaces: a number as its own
/// text, a string as `serde_json` writes it, and the members of an object in
/// their order.
pub open spec fn json_text(value: JsonValue) -> Seq<char>
    decreases value,
{
    match value {
        JsonValue::Null => "null"@,
        JsonValue::Bool(b) => if b {
            "true"@
        } else {
            "false"@
        },
        JsonValue::Number(n) => n,
        JsonValue::Text(s) => json_string_literal(s),
        JsonValue::Array(items) => "["@ + joined(item_texts(items), items.len()) + "]"@,
        JsonValue::Object(members) => "{"@ + joined(member_texts(members), members.len()) + "}"@,
    }
}

/// The error for an object that lacks the member `name`.
pub fn missing(name: &str) -> (e: ZitadelCLIError)
    ensures
        e@ == missing_field(name@),
{
    ZitadelCLIError::JSONParse(join3("missing field `", name, "`"))
}

/// The error for a member `name` that holds a value of another kind than
/// expected.
pub fn invalid(name: &str) -> (e: ZitadelCLIError)
    ensures
        e@ == invalid_field(name@),
{
    ZitadelCLIError::JSONParse(join3("invalid type for field `", name, "`"))
}

/// Reads a JSON document from a text.
pub fn parse(text: &str) -> (r: Result<Json, ZitadelCLIError>)
    ensures
        outcome(r) == parsed(text@),
{
    match read_value(text) {
        Ok(value) => Ok(tree_of(value)),
        Err(e) => Err(ZitadelCLIError::JSONParse(json_error_text(&e))),
    }
}

/// Writes a text as a JSON string.
pub fn quote(text: &str) -> (literal: String)
    ensures
        literal@ == json_string_literal(text@),
{
    match write_string(text) {
        Ok(literal) => literal,
        Err(_) => unreached(),
    }
}

/// A member of an object.
pub fn member(name: &str, value: Json) -> (pair: (String, Json))
    ensures
        pair.0@ == name@,
        pair.1 == value,
{
    (String::from_str(name), value)
}

impl Json {
    /// The document of a text.
    pub fn text(text: &str) -> (document: Json)
        ensures
            document@ == JsonValue::Text(text@),
    {
        Json::Text(String::from_str(text))
    }

    /// The document of a natural number.
    pub fn number(number: u64) -> (document: Json)
        ensures
            document@ == JsonValue::Number(decimal(number as nat)),
    {
        Json::Number(decimal_text(number))
    }

    /// The member called `name`, where this is an object that has one; the
    /// first of them where it has several.
    pub fn get(&self, name: &str) -> (found: Option<&Json>)
        ensures
            match found {
                Some(value) => self@.member(name@) == Some(value@),
                None => self@.member(name@) is None,
            },
    {
        match self {
            Json::Object(members) => {
                let ghost all = self@->Object_0;
                assert(all.skip(0) =~= all);
                let mut i: usize = 0;
                while i < members.len()
                    invariant
                        i <= members.len(),
                        self@ == JsonValue::Object(all),
                        all.len() == members@.len(),
                        forall|k: int|
                            0 <= k < members@.len() ==> #[trigger] all[k] == (
                                members@[k].0@,
                                members@[k].1@,
                            ),
                        find_member(all, name@) == find_member(all.skip(i as int), name@),
                    decreases members.len() - i,
                {
                    proof {
                        assert(all.skip(i as int).drop_first() =~= all.skip(i + 1));
                    }
                    if same_text(members[i].0.as_str(), name) {
                        return Some(&members[i].1);
                    }
                    i = i + 1;
                }
                None
            },
            _ => None,
        }
    }

    /// The text, where this is a string.
    pub fn as_text(&self) -> (text: Option<&String>)
        ensures
            match text {
                Some(s) => self@.text() == Some(s@),
                None => self@.text() is None,
            },
    {
        match self {
            Json::Text(s) => Some(s),
            _ => None,
        }
    }

    /// The number, where this is a numeral of a natural number that a `u64`
    /// holds.
    pub fn as_u64(&self) -> (number: Option<u64>)
        ensures
            number == self@.unsigned(),
    {
        match self {
            Json::Number(n) => parse_u64(n.as_str()),
            _ => None,
        }
    }

    /// The text of the member called `name`, which has to be there and to be
    /// a string.
    pub fn text_field(&self, name: &str) -> (r: Result<String, ZitadelCLIError>)
        ensures
            outcome(r) == self@.text_field(name@),
    {
        match self.get(name) {
            None => Err(missing(name)),
            Some(value) => match value.as_text() {
                Some(text) => Ok(text.clone()),
                None => Err(invalid(name)),
            },
        }
    }

    /// The number of the member called `name`, which has to be there and to
    /// be a natural number that a `u64` holds.
    pub fn unsigned_field(&self, name: &str) -> (r: Result<u64, ZitadelCLIError>)
        ensures
            outcome(r) == self@.unsigned_field(name@),
    {
        match self.get(name) {
            None => Err(missing(name)),
            Some(value) => match value.as_u64() {
                Some(number) => Ok(number),
                None => Err(invalid(name)),
            },
        }
    }

    /// Writes the document as a text, without spaces.
    pub fn to_text(&self) -> (text: String)
        ensures
            text@ == json_text(self@),
        decreases self,
    {
        match self {
            Json::Null => String::from_str("null"),
            Json::Bool(b) => String::from_str(
                if *b {
                    "true"
                } else {
                    "false"
                },
            ),
            Json::Number(n) => n.clone(),
            Json::Text(s) => quote(s.as_str()),
            Json::Array(items) => {
                let ghost all = self@->Array_0;
                let mut text = String::from_str("[");
                let mut i: usize = 0;
                while i < items.len()
                    invariant
                        i <= items.len(),
                        self@ == JsonValue::Array(all),
                        all.len() == items@.len(),
                        forall|k: int| 0 <= k < items@.len() ==> #[trigger] all[k] == items@[k]@,
                        forall|k: int|
                            0 <= k < items@.len() ==> decreases_to!(self => #[trigger] items@[k]),
                        text@ == "["@ + joined(item_texts(all), i as nat),
                    decreases items.len() - i,
                {
                    let item = items[i].to_text();
                    if i > 0 {
                        text.append(",");
                    }
                    text.append(item.as_str());
                    i = i + 1;
                }
                text.append("]");
                text
            },
            Json::Object(members) => {
                let ghost all = self@->Object_0;
                let mut text = String::from_str("{");
                let mut i: usize = 0;
                while i < members.len()
                    invariant
                        i <= members.len(),
                        self@ == JsonValue::Object(all),
                        all.len() == members@.len(),
                        forall|k: int|
                            0 <= k < members@.len() ==> #[trigger] all[k] == (
                                members@[k].0@,
                                members@[k].1@,
                            ),
                        forall|k: int|
                            0 <= k < members@.len() ==> decreases_to!(
                                self => #[trigger] members@[k].1
                            ),
                        text@ == "{"@ + joined(member_texts(all), i as nat),
                    decreases members.len() - i,
                {
                    let name = quote(members[i].0.as_str());
                    let value = members[i].1.to_text();
                    if i > 0 {
                        text.append(",");
                    }
                    text.append(name.as_str());
                    text.append(":");
                    text.append(value.as_str());
                    i = i + 1;
                }
                text.append("}");
                text
            },
        }
    }

    /// Whether this is an object.
    pub fn is_object(&self) -> (object: bool)
        ensures
            object == (self@ is Object),
    {
        match self {
            Json::Object(_) => true,
            _ => false,
        }
    }
}

} // verus!
