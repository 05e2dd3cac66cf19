//! What a call of the tool asks for.

use crate::text::optional_view;
use crate::text::own_optional;
use vstd::prelude::*;

verus! {

/// A JSON value.
#[verifier::external_type_specification]
#[verifier::external_body]
pub struct ExJsonValue(serde_json::Value);

/// The members of a JSON object that are strings, each with its text, by name. A value that is no
/// object has none.
pub uninterp spec fn string_members(value: serde_json::Value) -> Map<Seq<char>, Seq<char>>;

/// The members of a JSON object that are integers from 0 to `u64::MAX`, by name. A value that is
/// no object has none.
pub uninterp spec fn integer_members(value: serde_json::Value) -> Map<Seq<char>, u64>;

/// Calls `serde_json::Value::get` with a member's name, and `serde_json::Value::as_str` on what it
/// gives. The claim: the result is the text of the member of that name, where the value is an
/// object that has one and it is a string, and else `None`.
#[verifier::external_body]
fn string_member<'a>(value: &'a serde_json::Value, name: &str) -> (r: Option<&'a str>)
    ensures
        match r {
            Some(text) => string_members(*value).contains_key(name@) && string_members(
                *value,
            )[name@] == text@,
            None => !string_members(*value).contains_key(name@),
        },
{
    value.get(name).and_then(serde_json::Value::as_str)
}

/// Calls `serde_json::Value::get` with a member's name, and `serde_json::Value::as_u64` on what it
/// gives. The claim: the result is the member of that name, where the value is an object that has
/// one and it is an integer from 0 to `u64::MAX`, and else `None`.
#[verifier::external_body]
fn integer_member(value: &serde_json::Value, name: &str) -> (r: Option<u64>)
    ensures
        match r {
            Some(n) => integer_members(*value).contains_key(name@) && integer_members(
                *value,
            )[name@] == n,
            None => !integer_members(*value).contains_key(name@),
        },
{
    value.get(name).and_then(serde_json::Value::as_u64)
}

/// The arguments of a call, as mathematical values.
pub struct ArgsView {
    pub query: Option<Seq<char>>,
    pub categories: Option<Seq<char>>,
    pub language: Option<Seq<char>>,
    pub max_results: Option<u64>,
}

/// The arguments of a call. An argument of another type than the one it must have counts as
/// absent.
pub struct SearchArgs {
    pub query: Option<String>,
    /// Comma-separated.
    pub categories: Option<String>,
    pub language: Option<String>,
    pub max_results: Option<u64>,
}

impl View for SearchArgs {
    type V = ArgsView;

    open spec fn view(&self) -> ArgsView {
        ArgsView {
            query: optional_view(self.query),
            categories: optional_view(self.categories),
            language: optional_view(self.language),
            max_results: self.max_results,
        }
    }
}

/// The string that a JSON value has under `name`.
pub open spec fn string_under(value: serde_json::Value, name: Seq<char>) -> Option<Seq<char>> {
    if string_members(value).contains_key(name) {
        Some(string_members(value)[name])
    } else {
        None
    }
}

/// The arguments that a JSON value holds.
pub open spec fn json_args(value: serde_json::Value) -> ArgsView {
    ArgsView {
        query: string_under(value, "query"@),
        categories: string_under(value, "categories"@),
        language: string_under(value, "language"@),
        max_results: if integer_members(value).contains_key("max_results"@) {
            Some(integer_members(value)["max_results"@])
        } else {
            None
        },
    }
}

impl SearchArgs {
    /// The arguments that a JSON value holds.
    pub fn from_json(value: &serde_json::Value) -> (r: Self)
        ensures
            r@ == json_args(*value),
    {
        SearchArgs {
            query: own_optional(string_member(value, "query")),
            categories: own_optional(string_member(value, "categories")),
            language: own_optional(string_member(value, "language")),
            max_results: integer_member(value, "max_results"),
        }
    }
}

// ---------------------------------------------------------------------------
// Laws
// ---------------------------------------------------------------------------

/// Each argument is the member of its own name, whole, and absent where there is no such member of
/// the right type.
pub proof fn law_json_args(value: serde_json::Value)
    ensures
        json_args(value).query == (if string_members(value).contains_key("query"@) {
            Some(string_members(value)["query"@])
        } else {
            None
        }),
        json_args(value).categories == (if string_members(value).contains_key("categories"@) {
            Some(string_members(value)["categories"@])
        } else {
            None
        }),
        json_args(value).language == (if string_members(value).contains_key("language"@) {
            Some(string_members(value)["language"@])
        } else {
            None
        }),
        json_args(value).max_results == (if integer_members(value).contains_key("max_results"@) {
            Some(integer_members(value)["max_results"@])
        } else {
            None
        }),
{
}

/// The arguments as mathematical values are those of the fields.
pub proof fn law_args_view(args: SearchArgs)
    ensures
        args.query matches Some(text) ==> args@.query == Some(text@),
        args.query is None ==> args@.query is None,
        args.categories matches Some(text) ==> args@.categories == Some(text@),
        args.categories is None ==> args@.categories is None,
        args.language matches Some(text) ==> args@.language == Some(text@),
        args.language is None ==> args@.language is None,
        args@.max_results == args.max_results,
{
}

} // verus!
