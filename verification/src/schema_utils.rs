//! Classification of the strings a caller may hand in as a schema reference,
//! and the parsing of schema text.
//!
//! The classes only steer dispatch. They are decided from the first few
//! characters and never fail; whether an identifier resolves or a text parses
//! is found out afterwards.

use crate::json::{diagnostic, diagnostic_text, parse_text, parsed_text};
use serde_json::Value;
use vstd::prelude::*;
use vstd::string::StringExecFns;
use vstd::std_specs::iter::IteratorSpec;

verus! {

broadcast use vstd::string::group_string_axioms;

/// The characters of `prefix` are the first characters of `s`.
pub open spec fn has_prefix(s: Seq<char>, prefix: Seq<char>) -> bool {
    prefix.len() <= s.len() && s.subrange(0, prefix.len() as int) == prefix
}

/// Whether `s` begins with `prefix`, character by character.
pub fn starts_with(s: &str, prefix: &str) -> (r: bool)
    ensures
        r == has_prefix(s@, prefix@),
{
    let mut rest = s.chars();
    let mut want = prefix.chars();
    let ghost mut seen: int = 0;
    loop
        invariant
            0 <= seen <= s@.len(),
            seen <= prefix@.len(),
            rest.remaining() == s@.subrange(seen, s@.len() as int),
            want.remaining() == prefix@.subrange(seen, prefix@.len() as int),
            s@.subrange(0, seen) == prefix@.subrange(0, seen),
        decreases prefix@.len() - seen,
    {
        match want.next() {
            None => {
                assert(prefix@.subrange(0, seen) == prefix@);
                return true;
            },
            Some(p) => {
                match rest.next() {
                    None => {
                        return false;
                    },
                    Some(c) => {
                        if c != p {
                            assert(has_prefix(s@, prefix@) ==> s@.subrange(
                                0,
                                prefix@.len() as int,
                            )[seen] == prefix@[seen]);
                            return false;
                        }
                        proof {
                            assert(s@.subrange(0, seen + 1) == s@.subrange(0, seen).push(c));
                            assert(prefix@.subrange(0, seen + 1) == prefix@.subrange(0, seen).push(p));
                            seen = seen + 1;
                        }
                    },
                }
            },
        }
    }
}

/// A registered identifier of the custom scheme: the text begins with `id://`.
pub open spec fn is_id_spec(s: Seq<char>) -> bool {
    has_prefix(s, "id://"@)
}

/// A remote reference: the text begins with `http://` or with `https://`.
/// The scheme is matched by case and only at the start; what follows is free.
pub open spec fn is_http_spec(s: Seq<char>) -> bool {
    has_prefix(s, "http://"@) || has_prefix(s, "https://"@)
}

/// An identifier the store can resolve: registered or remote.
pub open spec fn is_uri_spec(s: Seq<char>) -> bool {
    is_id_spec(s) || is_http_spec(s)
}

/// Inline JSON text: the very first character is `{`. Nothing is trimmed and
/// nothing after the brace is looked at.
pub open spec fn is_json_spec(s: Seq<char>) -> bool {
    has_prefix(s, "{"@)
}

/// Whether `uri` is an identifier of the custom scheme `id://`.
pub fn is_id(uri: &str) -> (r: bool)
    ensures
        r == is_id_spec(uri@),
{
    starts_with(uri, "id://")
}

/// Whether `uri` is a remote reference, `http://` or `https://`.
pub fn is_http(uri: &str) -> (r: bool)
    ensures
        r == is_http_spec(uri@),
{
    starts_with(uri, "http://") || starts_with(uri, "https://")
}

/// Whether `uri` is an identifier of either family.
pub fn is_uri(uri: &str) -> (r: bool)
    ensures
        r == is_uri_spec(uri@),
{
    is_id(uri) || is_http(uri)
}

/// Whether `uri` is to be read as inline JSON: it opens with a brace.
pub fn is_json(uri: &str) -> (r: bool)
    ensures
        r == is_json_spec(uri@),
{
    starts_with(uri, "{")
}

/// Whatever follows `http://` or `https://`, the text is a remote reference.
pub proof fn law_remote_whatever_follows(rest: Seq<char>)
    ensures
        is_http_spec("http://"@ + rest),
        is_http_spec("https://"@ + rest),
{
    assert(("http://"@ + rest).subrange(0, "http://"@.len() as int) =~= "http://"@);
    assert(("https://"@ + rest).subrange(0, "https://"@.len() as int) =~= "https://"@);
}

/// A remote reference is one of the two scheme markers and a remainder.
pub proof fn law_remote_has_scheme(s: Seq<char>)
    requires
        is_http_spec(s),
    ensures
        exists|rest: Seq<char>| s == "http://"@ + rest || s == "https://"@ + rest,
{
    if has_prefix(s, "http://"@) {
        let rest = s.subrange("http://"@.len() as int, s.len() as int);
        assert(s =~= "http://"@ + rest);
    } else {
        let rest = s.subrange("https://"@.len() as int, s.len() as int);
        assert(s =~= "https://"@ + rest);
    }
}

/// Whatever follows an opening brace, well formed or not, the text counts as
/// inline JSON.
pub proof fn law_brace_whatever_follows(rest: Seq<char>)
    ensures
        is_json_spec("{"@ + rest),
{
    assert(("{"@ + rest).subrange(0, "{"@.len() as int) =~= "{"@);
}

/// The classes exclude each other: no text is both a registered and a remote
/// identifier, and no identifier counts as inline JSON.
pub proof fn law_classes_are_disjoint(s: Seq<char>)
    ensures
        !(is_id_spec(s) && is_http_spec(s)),
        !(is_uri_spec(s) && is_json_spec(s)),
{
    reveal_strlit("id://");
    reveal_strlit("http://");
    reveal_strlit("https://");
    reveal_strlit("{");
    if is_id_spec(s) {
        assert(s.subrange(0, 5)[0] == 'i');
    }
    if has_prefix(s, "http://"@) {
        assert(s.subrange(0, 7)[0] == 'h');
    }
    if has_prefix(s, "https://"@) {
        assert(s.subrange(0, 8)[0] == 'h');
    }
    if is_json_spec(s) {
        assert(s.subrange(0, 1)[0] == '{');
    }
}

/// The message with which a schema text that is not JSON is turned down.
pub open spec fn invalid_schema_message(error: serde_json::Error) -> Seq<char> {
    "Invalid schema. "@ + diagnostic_text(error)
}

/// What `to_json_value` returns for a schema text.
pub open spec fn to_json_value_spec(schema: Seq<char>) -> Result<Value, Seq<char>> {
    match parsed_text(schema) {
        Ok(document) => Ok(document),
        Err(error) => Err(invalid_schema_message(error)),
    }
}

/// The two results agree: the same document, or messages of the same text.
pub open spec fn same_outcome<T>(got: Result<T, String>, want: Result<T, Seq<char>>) -> bool {
    match (got, want) {
        (Ok(a), Ok(b)) => a == b,
        (Err(a), Err(b)) => a@ == b,
        _ => false,
    }
}

/// Parses a schema text. A text that is not JSON gives the parser's
/// diagnostic behind the words `Invalid schema. `.
pub fn to_json_value(schema: &str) -> (r: Result<Value, String>)
    ensures
        same_outcome(r, to_json_value_spec(schema@)),
{
    match parse_text(schema) {
        Ok(document) => Ok(document),
        Err(error) => {
            let cause = diagnostic(&error);
            Err(String::from_str("Invalid schema. ").concat(cause.as_str()))
        },
    }
}

} // verus!
