//! The boundary to `serde_json`: reading a text as JSON and looking into the value read.

use vstd::prelude::*;

verus! {

#[verifier::external_type_specification]
#[verifier::external_body]
pub struct ExJsonValue(serde_json::Value);

#[verifier::external_type_specification]
#[verifier::external_body]
pub struct ExJsonError(serde_json::Error);

/// What `serde_json::from_str` makes of a text: the value read, or the parser's error.
pub uninterp spec fn json_reading(text: Seq<char>) -> Result<serde_json::Value, serde_json::Error>;

/// The member of a value under a key, as indexing a `serde_json::Value` by a string gives it.
pub uninterp spec fn json_member(value: serde_json::Value, key: Seq<char>) -> serde_json::Value;

/// The string that a value holds, as `serde_json::Value::as_str` gives it.
pub uninterp spec fn json_string(value: serde_json::Value) -> Option<Seq<char>>;

/// The compact text of a value, as its `Display` impl writes it.
pub uninterp spec fn json_rendering(value: serde_json::Value) -> Seq<char>;

/// The message of a parser error, as its `Display` impl writes it.
pub uninterp spec fn json_fault_text(fault: serde_json::Error) -> Seq<char>;

/// Calls `serde_json::from_str` for a `serde_json::Value`. Trusted: the outcome is a function
/// of the text alone, named `json_reading`.
#[verifier::external_body]
pub(crate) fn read_json(text: &str) -> (r: Result<serde_json::Value, serde_json::Error>)
    ensures
        r == json_reading(text@),
{
    serde_json::from_str::<serde_json::Value>(text)
}

/// Indexes a `serde_json::Value` by a string key. Trusted: the member is a function of value
/// and key, named `json_member`.
#[verifier::external_body]
pub(crate) fn member<'a>(value: &'a serde_json::Value, key: &str) -> (r: &'a serde_json::Value)
    ensures
        *r == json_member(*value, key@),
{
    &value[key]
}

/// Calls `serde_json::Value::as_str`. Trusted: the string is the one named `json_string`,
/// present exactly when the value is a JSON string.
#[verifier::external_body]
pub(crate) fn string_of(value: &serde_json::Value) -> (r: Option<String>)
    ensures
        r is Some <==> json_string(*value) is Some,
        r is Some ==> r->Some_0@ == json_string(*value)->Some_0,
{
    value.as_str().map(String::from)
}

/// Calls `to_string` on a `serde_json::Value`. Trusted: the text is the one named
/// `json_rendering`.
#[verifier::external_body]
pub(crate) fn render_json(value: &serde_json::Value) -> (r: String)
    ensures
        r@ == json_rendering(*value),
{
    value.to_string()
}

/// Calls `to_string` on a `serde_json::Error`. Trusted: the text is the one named
/// `json_fault_text`.
#[verifier::external_body]
pub(crate) fn fault_text(fault: &serde_json::Error) -> (r: String)
    ensures
        r@ == json_fault_text(*fault),
{
    fault.to_string()
}

/// The JSON string that holds a text, as `serde_json::Value::from` makes it of a `&str`.
pub uninterp spec fn json_of_text(text: Seq<char>) -> serde_json::Value;

/// The JSON number of an integer, as `serde_json::Value::from` makes it of an `i64`.
pub uninterp spec fn json_of_number(number: int) -> serde_json::Value;

/// The JSON boolean, as `serde_json::Value::from` makes it of a `bool`.
pub uninterp spec fn json_of_flag(flag: bool) -> serde_json::Value;

/// The JSON array of these items, as `serde_json::Value::from` makes it of a `Vec`.
pub uninterp spec fn json_of_items(items: Seq<serde_json::Value>) -> serde_json::Value;

/// The JSON object collected from these members, as `serde_json::Value::from_iter` makes it
/// of key-value pairs.
pub uninterp spec fn json_of_members(
    members: Seq<(Seq<char>, serde_json::Value)>,
) -> serde_json::Value;

/// The keys of members by their content, each with its value.
pub open spec fn member_views(members: Seq<(String, serde_json::Value)>) -> Seq<
    (Seq<char>, serde_json::Value),
> {
    Seq::new(members.len(), |i: int| (members[i].0@, members[i].1))
}

/// Calls `serde_json::Value::from` on a `&str`. Trusted: the value is a function of the
/// text, named `json_of_text`.
#[verifier::external_body]
pub(crate) fn text_value(text: &str) -> (r: serde_json::Value)
    ensures
        r == json_of_text(text@),
{
    serde_json::Value::from(text)
}

/// Calls `serde_json::Value::from` on an `i64`. Trusted: the value is a function of the
/// number, named `json_of_number`.
#[verifier::external_body]
pub(crate) fn number_value(number: i64) -> (r: serde_json::Value)
    ensures
        r == json_of_number(number as int),
{
    serde_json::Value::from(number)
}

/// Calls `serde_json::Value::from` on a `bool`. Trusted: the value is a function of the
/// flag, named `json_of_flag`.
#[verifier::external_body]
pub(crate) fn flag_value(flag: bool) -> (r: serde_json::Value)
    ensures
        r == json_of_flag(flag),
{
    serde_json::Value::from(flag)
}

/// Calls `serde_json::Value::from` on a `Vec` of values. Trusted: the value is a function of
/// the items in their order, named `json_of_items`.
#[verifier::external_body]
pub(crate) fn list_value(items: Vec<serde_json::Value>) -> (r: serde_json::Value)
    ensures
        r == json_of_items(items@),
{
    serde_json::Value::from(items)
}

/// Collects key-value pairs into a `serde_json::Value` through its `FromIterator` impl.
/// Trusted: the value is a function of the pairs in their order, named `json_of_members`.
#[verifier::external_body]
pub(crate) fn object_value(members: Vec<(String, serde_json::Value)>) -> (r: serde_json::Value)
    ensures
        r == json_of_members(member_views(members@)),
{
    members.into_iter().collect::<serde_json::Value>()
}

} // verus!
