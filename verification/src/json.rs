use vstd::prelude::*;

verus! {

/// `serde_json::Value`, carried through as an opaque value.
#[verifier::external_type_specification]
#[verifier::external_body]
pub struct ExJsonValue(serde_json::Value);

/// Whether a JSON value is an object: what `serde_json::Value::is_object`
/// returns for it.
pub uninterp spec fn json_object(value: serde_json::Value) -> bool;

/// The member of a JSON value under a name: what `serde_json::Value::get`
/// returns for that name.
pub uninterp spec fn json_member_of(value: serde_json::Value, name: Seq<char>) -> Option<
    serde_json::Value,
>;

/// The text that a JSON value is, where it is a string: what
/// `serde_json::Value::as_str` returns for it.
pub uninterp spec fn json_text_of(value: serde_json::Value) -> Option<Seq<char>>;

/// Calls `serde_json::Value::get` with a member's name. Trusted: the member
/// handed back is the one that `json_member_of` names.
#[verifier::external_body]
pub(crate) fn json_member<'a>(value: &'a serde_json::Value, name: &str) -> (r: Option<
    &'a serde_json::Value,
>)
    ensures
        match r {
            Some(member) => json_member_of(*value, name@) == Some(*member),
            None => json_member_of(*value, name@) is None,
        },
{
    value.get(name)
}

/// Calls `serde_json::Value::as_str`. Trusted: the text handed back is the
/// one that `json_text_of` names.
#[verifier::external_body]
pub(crate) fn json_text<'a>(value: &'a serde_json::Value) -> (r: Option<&'a str>)
    ensures
        match r {
            Some(text) => json_text_of(*value) == Some(text@),
            None => json_text_of(*value) is None,
        },
{
    value.as_str()
}

/// Calls `serde_json::Value::is_object`. Trusted: the answer is the one that
/// `json_object` names.
#[verifier::external_body]
pub(crate) fn json_is_object(value: &serde_json::Value) -> (r: bool)
    ensures
        r == json_object(*value),
{
    value.is_object()
}

} // verus!
