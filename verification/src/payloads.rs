//! The resources that the client adds at the provider, as they are read from
//! and written to JSON.
//!
//! The mathematical value of a resource is the JSON object that writes it:
//! every field in the order of its declaration, and `null` for a field that
//! is not set.

pub mod idp;
pub mod organization;
pub mod project;
pub mod user;

use crate::error::{outcome, read_outcome, ErrorView, IoError, IoErrorView, ZitadelCLIError};
use crate::json::{
    find_member, invalid, invalid_field, missing, missing_field, parse, parsed, Json, JsonValue,
};
use vstd::prelude::*;
use vstd::string::StringExecFns;

verus! {

/// A resource that is read from and written to a JSON object.
pub trait Payload: Sized + View<V = JsonValue> {
    /// The value of the resource that a document describes: the document has
    /// to be an object whose members are of the kinds of the fields; members
    /// that are no fields are passed over.
    spec fn described(document: JsonValue) -> Result<JsonValue, ErrorView>;

    /// Reads the resource from a document.
    fn from_json(document: &Json) -> (r: Result<Self, ZitadelCLIError>)
        ensures
            outcome(r) == Self::described(document@),
    ;

    /// Writes the resource as a document.
    fn to_json(&self) -> (document: Json)
        ensures
            document@ == self@,
    ;

    /// What is written of a resource describes that resource: it is read
    /// back as it was.
    proof fn lemma_reads_back(&self)
        ensures
            Self::described(self@) == Ok::<JsonValue, ErrorView>(self@),
    ;
}

/// The error for a document that is no object.
pub open spec fn not_an_object() -> ErrorView {
    ErrorView::JSONParse("invalid type: expected an object"@)
}

/// The first error among the readings of some fields, from the field
/// `start` on.
pub open spec fn first_error(
    readings: Seq<(Seq<char>, Result<JsonValue, ErrorView>)>,
    start: int,
) -> Option<ErrorView>
    decreases readings.len() - start,
{
    if start < 0 || start >= readings.len() {
        None
    } else {
        match readings[start].1 {
            Err(e) => Some(e),
            Ok(_) => first_error(readings, start + 1),
        }
    }
}

/// The resource that a document describes, given the names of its fields
/// and what is read for each of them from the document: the document has to
/// be an object, the first field that cannot be read is the error, and else
/// the resource is the object of the fields as they were read.
pub open spec fn object_of(
    document: JsonValue,
    readings: Seq<(Seq<char>, Result<JsonValue, ErrorView>)>,
) -> Result<JsonValue, ErrorView> {
    if !(document is Object) {
        Err(not_an_object())
    } else {
        match first_error(readings, 0) {
            Some(e) => Err(e),
            None => Ok(
                JsonValue::Object(
                    Seq::new(readings.len(), |i: int| (readings[i].0, readings[i].1->Ok_0)),
                ),
            ),
        }
    }
}

/// The document of a text that may be missing.
pub open spec fn text_or_null(text: Option<String>) -> JsonValue {
    match text {
        Some(s) => JsonValue::Text(s@),
        None => JsonValue::Null,
    }
}

/// The document of a truth value that may be missing.
pub open spec fn bool_or_null(truth: Option<bool>) -> JsonValue {
    match truth {
        Some(b) => JsonValue::Bool(b),
        None => JsonValue::Null,
    }
}

/// The document of a resource that may be missing.
pub open spec fn payload_or_null<T: Payload>(payload: Option<T>) -> JsonValue {
    match payload {
        Some(p) => p@,
        None => JsonValue::Null,
    }
}

/// The document of a list of resources that may be missing.
pub open spec fn payloads_or_null<T: Payload>(payloads: Option<Vec<T>>) -> JsonValue {
    match payloads {
        Some(v) => JsonValue::Array(v@.map_values(|p: T| p@)),
        None => JsonValue::Null,
    }
}

/// The document of a list of texts that may be missing.
pub open spec fn texts_or_null(texts: Option<Vec<String>>) -> JsonValue {
    match texts {
        Some(v) => JsonValue::Array(v@.map_values(|s: String| JsonValue::Text(s@))),
        None => JsonValue::Null,
    }
}

/// The member `name` of a document, read as a text that has to be there.
pub open spec fn required_text(document: JsonValue, name: Seq<char>) -> Result<
    JsonValue,
    ErrorView,
> {
    match document.text_field(name) {
        Ok(text) => Ok(JsonValue::Text(text)),
        Err(e) => Err(e),
    }
}

/// The member `name` of a document, read as a text that may be missing or
/// `null`.
pub open spec fn optional_text(document: JsonValue, name: Seq<char>) -> Result<
    JsonValue,
    ErrorView,
> {
    match document.member(name) {
        None => Ok(JsonValue::Null),
        Some(JsonValue::Null) => Ok(JsonValue::Null),
        Some(JsonValue::Text(s)) => Ok(JsonValue::Text(s)),
        Some(_) => Err(invalid_field(name)),
    }
}

/// The member `name` of a document, read as a truth value that may be
/// missing or `null`.
pub open spec fn optional_bool(document: JsonValue, name: Seq<char>) -> Result<
    JsonValue,
    ErrorView,
> {
    match document.member(name) {
        None => Ok(JsonValue::Null),
        Some(JsonValue::Null) => Ok(JsonValue::Null),
        Some(JsonValue::Bool(b)) => Ok(JsonValue::Bool(b)),
        Some(_) => Err(invalid_field(name)),
    }
}

/// The member `name` of a document, read as a resource that has to be there.
pub open spec fn required_payload<T: Payload>(document: JsonValue, name: Seq<char>) -> Result<
    JsonValue,
    ErrorView,
> {
    match document.member(name) {
        None => Err(missing_field(name)),
        Some(value) => T::described(value),
    }
}

/// The member `name` of a document, read as a resource that may be missing
/// or `null`.
pub open spec fn optional_payload<T: Payload>(document: JsonValue, name: Seq<char>) -> Result<
    JsonValue,
    ErrorView,
> {
    match document.member(name) {
        None => Ok(JsonValue::Null),
        Some(JsonValue::Null) => Ok(JsonValue::Null),
        Some(value) => T::described(value),
    }
}

/// The resources that the first `n` of some documents describe, or the error
/// of the first of them that describes none.
pub open spec fn described_all<T: Payload>(items: Seq<JsonValue>, n: nat) -> Result<
    Seq<JsonValue>,
    ErrorView,
>
    decreases n,
{
    if n == 0 {
        Ok(Seq::empty())
    } else {
        match described_all::<T>(items, (n - 1) as nat) {
            Err(e) => Err(e),
            Ok(before) => match T::described(items[n - 1]) {
                Err(e) => Err(e),
                Ok(value) => Ok(before.push(value)),
            },
        }
    }
}

/// The member `name` of a document, read as a list of resources that may be
/// missing or `null`.
pub open spec fn optional_payloads<T: Payload>(document: JsonValue, name: Seq<char>) -> Result<
    JsonValue,
    ErrorView,
> {
    match document.member(name) {
        None => Ok(JsonValue::Null),
        Some(JsonValue::Null) => Ok(JsonValue::Null),
        Some(JsonValue::Array(items)) => match described_all::<T>(items, items.len()) {
            Err(e) => Err(e),
            Ok(values) => Ok(JsonValue::Array(values)),
        },
        Some(_) => Err(invalid_field(name)),
    }
}

/// Whether every one of some documents is a string.
pub open spec fn all_texts(items: Seq<JsonValue>) -> bool {
    forall|i: int| 0 <= i < items.len() ==> (#[trigger] items[i]) is Text
}

/// The member `name` of a document, read as a list of texts that may be
/// missing or `null`.
pub open spec fn optional_texts(document: JsonValue, name: Seq<char>) -> Result<
    JsonValue,
    ErrorView,
> {
    match document.member(name) {
        None => Ok(JsonValue::Null),
        Some(JsonValue::Null) => Ok(JsonValue::Null),
        Some(JsonValue::Array(items)) => if all_texts(items) {
            Ok(JsonValue::Array(items))
        } else {
            Err(invalid_field(name))
        },
        Some(_) => Err(invalid_field(name)),
    }
}

/// The error for a document that is no object.
pub fn no_object() -> (e: ZitadelCLIError)
    ensures
        e@ == not_an_object(),
{
    ZitadelCLIError::JSONParse(String::from_str("invalid type: expected an object"))
}

/// Reads the member `name` as a text that has to be there.
pub fn text_member(document: &Json, name: &str) -> (r: Result<String, ZitadelCLIError>)
    ensures
        match r {
            Ok(text) => required_text(document@, name@) == Ok::<JsonValue, ErrorView>(
                JsonValue::Text(text@),
            ),
            Err(e) => required_text(document@, name@) == Err::<JsonValue, ErrorView>(e@),
        },
{
    document.text_field(name)
}

/// Reads the member `name` as a text that may be missing or `null`.
pub fn optional_text_member(document: &Json, name: &str) -> (r: Result<
    Option<String>,
    ZitadelCLIError,
>)
    ensures
        match r {
            Ok(text) => optional_text(document@, name@) == Ok::<JsonValue, ErrorView>(
                text_or_null(text),
            ),
            Err(e) => optional_text(document@, name@) == Err::<JsonValue, ErrorView>(e@),
        },
{
    match document.get(name) {
        None => Ok(None),
        Some(value) => match value {
            Json::Null => Ok(None),
            Json::Text(s) => Ok(Some(s.clone())),
            _ => Err(invalid(name)),
        },
    }
}

/// Reads the member `name` as a truth value that may be missing or `null`.
pub fn optional_bool_member(document: &Json, name: &str) -> (r: Result<
    Option<bool>,
    ZitadelCLIError,
>)
    ensures
        match r {
            Ok(truth) => optional_bool(document@, name@) == Ok::<JsonValue, ErrorView>(
                bool_or_null(truth),
            ),
            Err(e) => optional_bool(document@, name@) == Err::<JsonValue, ErrorView>(e@),
        },
{
    match document.get(name) {
        None => Ok(None),
        Some(value) => match value {
            Json::Null => Ok(None),
            Json::Bool(b) => Ok(Some(*b)),
            _ => Err(invalid(name)),
        },
    }
}

/// Reads the member `name` as a resource that has to be there.
pub fn payload_member<T: Payload>(document: &Json, name: &str) -> (r: Result<T, ZitadelCLIError>)
    ensures
        outcome(r) == required_payload::<T>(document@, name@),
{
    match document.get(name) {
        None => Err(missing(name)),
        Some(value) => T::from_json(value),
    }
}

/// Reads the member `name` as a resource that may be missing or `null`.
pub fn optional_payload_member<T: Payload>(document: &Json, name: &str) -> (r: Result<
    Option<T>,
    ZitadelCLIError,
>)
    ensures
        match r {
            Ok(payload) => optional_payload::<T>(document@, name@) == Ok::<JsonValue, ErrorView>(
                payload_or_null(payload),
            ),
            Err(e) => optional_payload::<T>(document@, name@) == Err::<JsonValue, ErrorView>(e@),
        },
{
    match document.get(name) {
        None => Ok(None),
        Some(value) => match value {
            Json::Null => Ok(None),
            _ => match T::from_json(value) {
                Ok(payload) => Ok(Some(payload)),
                Err(e) => Err(e),
            },
        },
    }
}

/// Reads the member `name` as a list of resources that may be missing or
/// `null`.
pub fn optional_payloads_member<T: Payload>(document: &Json, name: &str) -> (r: Result<
    Option<Vec<T>>,
    ZitadelCLIError,
>)
    ensures
        match r {
            Ok(payloads) => optional_payloads::<T>(document@, name@) == Ok::<
                JsonValue,
                ErrorView,
            >(payloads_or_null(payloads)),
            Err(e) => optional_payloads::<T>(document@, name@) == Err::<JsonValue, ErrorView>(e@),
        },
{
    match document.get(name) {
        None => Ok(None),
        Some(value) => match value {
            Json::Null => Ok(None),
            Json::Array(items) => {
                let ghost all = value@->Array_0;
                let mut payloads: Vec<T> = Vec::new();
                assert(payloads@.map_values(|p: T| p@) =~= Seq::empty());
                let mut i: usize = 0;
                while i < items.len()
                    invariant
                        i <= items.len(),
                        document@.member(name@) == Some(JsonValue::Array(all)),
                        all.len() == items@.len(),
                        forall|k: int| 0 <= k < items@.len() ==> #[trigger] all[k] == items@[k]@,
                        described_all::<T>(all, i as nat) == Ok::<Seq<JsonValue>, ErrorView>(
                            payloads@.map_values(|p: T| p@),
                        ),
                    decreases items.len() - i,
                {
                    match T::from_json(&items[i]) {
                        Ok(payload) => {
                            let ghost before = payloads@.map_values(|p: T| p@);
                            payloads.push(payload);
                            assert(payloads@.map_values(|p: T| p@) =~= before.push(payload@));
                        },
                        Err(e) => {
                            proof {
                                lemma_described_all_fails::<T>(all, i as nat, all.len());
                            }
                            return Err(e);
                        },
                    }
                    i = i + 1;
                }
                Ok(Some(payloads))
            },
            _ => Err(invalid(name)),
        },
    }
}

/// Where one of some documents describes no resource, the first of them that
/// does not gives the error of all.
pub proof fn lemma_described_all_fails<T: Payload>(items: Seq<JsonValue>, i: nat, n: nat)
    requires
        i < n,
        described_all::<T>(items, i) is Ok,
        T::described(items[i as int]) is Err,
    ensures
        described_all::<T>(items, n) == Err::<Seq<JsonValue>, ErrorView>(
            T::described(items[i as int])->Err_0,
        ),
    decreases n,
{
    if n == i + 1 {
    } else {
        lemma_described_all_fails::<T>(items, i, (n - 1) as nat);
    }
}

/// Reads the member `name` as a list of texts that may be missing or `null`.
pub fn optional_texts_member(document: &Json, name: &str) -> (r: Result<
    Option<Vec<String>>,
    ZitadelCLIError,
>)
    ensures
        match r {
            Ok(texts) => optional_texts(document@, name@) == Ok::<JsonValue, ErrorView>(
                texts_or_null(texts),
            ),
            Err(e) => optional_texts(document@, name@) == Err::<JsonValue, ErrorView>(e@),
        },
{
    match document.get(name) {
        None => Ok(None),
        Some(value) => match value {
            Json::Null => Ok(None),
            Json::Array(items) => {
                let ghost all = value@->Array_0;
                let mut texts: Vec<String> = Vec::new();
                let mut i: usize = 0;
                while i < items.len()
                    invariant
                        i <= items.len(),
                        document@.member(name@) == Some(JsonValue::Array(all)),
                        all.len() == items@.len(),
                        forall|k: int| 0 <= k < items@.len() ==> #[trigger] all[k] == items@[k]@,
                        texts@.len() == i,
                        forall|k: int|
                            0 <= k < i ==> all[k] == JsonValue::Text((#[trigger] texts@[k])@),
                    decreases items.len() - i,
                {
                    match &items[i] {
                        Json::Text(s) => {
                            texts.push(s.clone());
                        },
                        _ => {
                            assert(!(all[i as int] is Text));
                            return Err(invalid(name));
                        },
                    }
                    i = i + 1;
                }
                assert(all =~= texts@.map_values(|s: String| JsonValue::Text(s@)));
                Ok(Some(texts))
            },
            _ => Err(invalid(name)),
        },
    }
}

/// The document of a text that may be missing.
pub fn optional_text_json(text: &Option<String>) -> (document: Json)
    ensures
        document@ == text_or_null(*text),
{
    match text {
        Some(s) => Json::text(s.as_str()),
        None => Json::Null,
    }
}

/// The document of a truth value that may be missing.
pub fn optional_bool_json(truth: &Option<bool>) -> (document: Json)
    ensures
        document@ == bool_or_null(*truth),
{
    match truth {
        Some(b) => Json::Bool(*b),
        None => Json::Null,
    }
}

/// The document of a resource that may be missing.
pub fn optional_payload_json<T: Payload>(payload: &Option<T>) -> (document: Json)
    ensures
        document@ == payload_or_null(*payload),
{
    match payload {
        Some(p) => p.to_json(),
        None => Json::Null,
    }
}

/// The document of a list of resources that may be missing.
pub fn optional_payloads_json<T: Payload>(payloads: &Option<Vec<T>>) -> (document: Json)
    ensures
        document@ == payloads_or_null(*payloads),
{
    match payloads {
        Some(v) => {
            let mut items: Vec<Json> = Vec::new();
            let mut i: usize = 0;
            while i < v.len()
                invariant
                    i <= v.len(),
                    items@.len() == i,
                    forall|k: int| 0 <= k < i ==> (#[trigger] items@[k])@ == v@[k]@,
                decreases v.len() - i,
            {
                items.push(v[i].to_json());
                i = i + 1;
            }
            let document = Json::Array(items);
            assert(document@->Array_0 =~= v@.map_values(|p: T| p@));
            document
        },
        None => Json::Null,
    }
}

/// The document of a list of texts that may be missing.
pub fn optional_texts_json(texts: &Option<Vec<String>>) -> (document: Json)
    ensures
        document@ == texts_or_null(*texts),
{
    match texts {
        Some(v) => {
            let mut items: Vec<Json> = Vec::new();
            let mut i: usize = 0;
            while i < v.len()
                invariant
                    i <= v.len(),
                    items@.len() == i,
                    forall|k: int|
                        0 <= k < i ==> (#[trigger] items@[k])@ == JsonValue::Text(v@[k]@),
                decreases v.len() - i,
            {
                items.push(Json::Text(v[i].clone()));
                i = i + 1;
            }
            let document = Json::Array(items);
            assert(document@->Array_0 =~= v@.map_values(|s: String| JsonValue::Text(s@)));
            document
        },
        None => Json::Null,
    }
}

/// The member of an object whose name no member before it has is the one
/// that is found by that name.
pub proof fn lemma_member_at(members: Seq<(Seq<char>, JsonValue)>, i: int)
    requires
        0 <= i < members.len(),
        forall|j: int| 0 <= j < i ==> (#[trigger] members[j]).0 != members[i].0,
    ensures
        find_member(members, members[i].0) == Some(members[i].1),
    decreases i,
{
    if i > 0 {
        let rest = members.drop_first();
        assert forall|j: int| 0 <= j < i - 1 implies (#[trigger] rest[j]).0 != rest[i - 1].0 by {
            assert(rest[j] == members[j + 1]);
        }
        lemma_member_at(rest, i - 1);
    }
}

/// What is written of a list of resources describes those resources.
pub proof fn lemma_all_read_back<T: Payload>(payloads: Seq<T>, n: nat)
    requires
        n <= payloads.len(),
    ensures
        described_all::<T>(payloads.map_values(|p: T| p@), n) == Ok::<Seq<JsonValue>, ErrorView>(
            payloads.map_values(|p: T| p@).take(n as int),
        ),
    decreases n,
{
    let written = payloads.map_values(|p: T| p@);
    if n == 0 {
        assert(written.take(0) =~= Seq::empty());
    } else {
        lemma_all_read_back::<T>(payloads, (n - 1) as nat);
        payloads[n - 1].lemma_reads_back();
        assert(written.take(n as int) =~= written.take(n - 1).push(written[n - 1]));
    }
}

/// What is written of a resource that may be missing is read back as it
/// was.
pub proof fn lemma_optional_reads_back<T: Payload>(payload: Option<T>)
    ensures
        payload matches Some(p) ==> T::described(p@) == Ok::<JsonValue, ErrorView>(p@),
{
    match payload {
        Some(p) => p.lemma_reads_back(),
        None => {},
    }
}

/// What is written of a list of resources that may be missing is read back
/// as it was.
pub proof fn lemma_optional_list_reads_back<T: Payload>(payloads: Option<Vec<T>>)
    ensures
        payloads matches Some(v) ==> described_all::<T>(
            v@.map_values(|p: T| p@),
            v@.len(),
        ) == Ok::<Seq<JsonValue>, ErrorView>(v@.map_values(|p: T| p@)),
{
    match payloads {
        Some(v) => {
            lemma_all_read_back::<T>(v@, v@.len());
            assert(v@.map_values(|p: T| p@).take(v@.len() as int) =~= v@.map_values(|p: T| p@));
        },
        None => {},
    }
}

/// The resource in what was read from a file: the file has to be there and
/// to hold a JSON document that describes a resource of the kind.
pub open spec fn loaded<T: Payload>(read: Result<Seq<char>, IoErrorView>) -> Result<
    JsonValue,
    ErrorView,
> {
    match read {
        Err(failure) => Err(ErrorView::IO(failure)),
        Ok(text) => match parsed(text) {
            Err(e) => Err(e),
            Ok(document) => T::described(document),
        },
    }
}

/// Takes a resource from what was read from the file that describes it.
pub fn load_from_file<T: Payload>(read: Result<String, IoError>) -> (r: Result<
    T,
    ZitadelCLIError,
>)
    ensures
        outcome(r) == loaded::<T>(read_outcome(read)),
{
    match read {
        Err(failure) => Err(ZitadelCLIError::IO(failure)),
        Ok(text) => match parse(text.as_str()) {
            Err(e) => Err(e),
            Ok(document) => T::from_json(&document),
        },
    }
}

} // verus!
