//! What an error says was asked for: the operation, with the table and key or the
//! text of the query.

use vstd::prelude::*;
use vstd::string::StringExecFns;

verus! {

/// The text that `{:?}` writes for a string.
pub uninterp spec fn debug_text(text: Seq<char>) -> Seq<char>;

/// Calls `format!` with `{:?}` on a string. The contract names what it writes: the same
/// string always gives the same text.
#[verifier::external_body]
fn debug_quoted(text: &str) -> (quoted: String)
    ensures
        quoted@ == debug_text(text@),
{
    format!("{:?}", text)
}

/// How an error speaks of a key that may be missing.
pub open spec fn key_text(key: Option<Seq<char>>) -> Seq<char> {
    match key {
        Some(key) => "Some("@ + debug_text(key) + ")"@,
        None => "None"@,
    }
}

pub open spec fn get_context(table: Seq<char>, key: Seq<char>) -> Seq<char> {
    "Error getting table: "@ + table + " id: "@ + key
}

pub open spec fn delete_context(table: Seq<char>, key: Option<Seq<char>>) -> Seq<char> {
    "Error getting table: "@ + table + " id: "@ + key_text(key)
}

pub open spec fn insert_context(table: Seq<char>, key: Option<Seq<char>>) -> Seq<char> {
    "Error querying table: "@ + table + " key: "@ + key_text(key)
}

pub open spec fn insert_syntax_context(table: Seq<char>, key: Option<Seq<char>>) -> Seq<char> {
    "Error parsing json result from insert at table: "@ + table + " key: "@ + key_text(key)
}

pub open spec fn insert_shape_context(table: Seq<char>, key: Option<Seq<char>>) -> Seq<char> {
    "Error interpreting json result from insert at table: "@ + table + " key: "@ + key_text(key)
}

pub open spec fn query_context(query: Seq<char>) -> Seq<char> {
    "Error querying: "@ + query
}

pub open spec fn decode_context(query: Seq<char>) -> Seq<char> {
    "Error parsing json result: "@ + query
}

/// Writes a lead and what follows it.
pub(crate) fn describe(lead: &str, subject: &str) -> (context: String)
    ensures
        context@ == lead@ + subject@,
{
    let mut context = String::from_str(lead);
    context.append(subject);
    context
}

/// Writes a table and a key, each behind its lead.
pub(crate) fn describe_record(lead: &str, table: &str, link: &str, key: &str) -> (context: String)
    ensures
        context@ == lead@ + table@ + link@ + key@,
{
    let mut context = String::from_str(lead);
    context.append(table);
    context.append(link);
    context.append(key);
    context
}

/// Writes a table and a key that may be missing, each behind its lead.
pub(crate) fn describe_key(
    lead: &str,
    table: &str,
    link: &str,
    key: Option<&str>,
) -> (context: String)
    ensures
        context@ == lead@ + table@ + link@ + key_text(key.deep_view()),
{
    let mut context = String::from_str(lead);
    context.append(table);
    context.append(link);
    match key {
        Some(key) => {
            context.append("Some(");
            context.append(debug_quoted(key).as_str());
            context.append(")");
        },
        None => {
            context.append("None");
        },
    }
    context
}

} // verus!
