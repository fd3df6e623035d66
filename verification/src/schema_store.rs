//! The schema store: a mapping from identifier to schema document, and the
//! protocol by which an identifier is resolved against it.
//!
//! Resolution never performs a request itself. `retrieve` answers from the
//! mapping or asks the caller to fetch; `fetched` takes what the fetch gave.

use crate::json::{diagnostic, diagnostic_text, parse_bytes, parsed_bytes};
use crate::schema_utils::{is_http, is_http_spec};
use serde_json::Value;
use vstd::hash_map::StringHashMap;
use vstd::prelude::*;
use vstd::string::StringExecFns;

verus! {

/// Why an identifier could not be resolved.
#[derive(Debug)]
pub enum ResolveError {
    /// The identifier is not in the store and is not an http(s) reference.
    Unresolvable { uri: String },
    /// The request for the identifier failed; `cause` is the transport's word.
    Fetch { uri: String, cause: String },
    /// The response body is not JSON; `cause` is the parser's diagnostic.
    Parse { uri: String, cause: String },
    /// The validation engine asked for a reference of a scheme that it may
    /// not resolve.
    Unsupported { uri: String },
}

/// A `ResolveError` as plain text values.
pub enum ResolveFailure {
    Unresolvable { uri: Seq<char> },
    Fetch { uri: Seq<char>, cause: Seq<char> },
    Parse { uri: Seq<char>, cause: Seq<char> },
    Unsupported { uri: Seq<char> },
}

impl View for ResolveError {
    type V = ResolveFailure;

    open spec fn view(&self) -> ResolveFailure {
        match *self {
            ResolveError::Unresolvable { uri } => ResolveFailure::Unresolvable { uri: uri@ },
            ResolveError::Fetch { uri, cause } => ResolveFailure::Fetch { uri: uri@, cause: cause@ },
            ResolveError::Parse { uri, cause } => ResolveFailure::Parse { uri: uri@, cause: cause@ },
            ResolveError::Unsupported { uri } => ResolveFailure::Unsupported { uri: uri@ },
        }
    }
}

impl ResolveFailure {
    /// The sentence that reports this failure. Each names the identifier.
    pub open spec fn message(self) -> Seq<char> {
        match self {
            ResolveFailure::Unresolvable { uri } => "unresolvable identifier: '"@ + uri
                + "'. Only previously-registered identifiers or http(s) references can be resolved."@,
            ResolveFailure::Fetch { uri, cause } => "failed to fetch '"@ + uri + "': "@ + cause,
            ResolveFailure::Parse { uri, cause } => "invalid JSON received from '"@ + uri + "': "@
                + cause,
            ResolveFailure::Unsupported { uri } => "unsupported protocol: '"@ + uri + "'"@,
        }
    }
}

impl ResolveError {
    pub fn message(&self) -> (r: String)
        ensures
            r@ == self@.message(),
    {
        match self {
            ResolveError::Unresolvable { uri } => String::from_str(
                "unresolvable identifier: '",
            ).concat(uri.as_str()).concat(
                "'. Only previously-registered identifiers or http(s) references can be resolved.",
            ),
            ResolveError::Fetch { uri, cause } => String::from_str("failed to fetch '").concat(
                uri.as_str(),
            ).concat("': ").concat(cause.as_str()),
            ResolveError::Parse { uri, cause } => String::from_str(
                "invalid JSON received from '",
            ).concat(uri.as_str()).concat("': ").concat(cause.as_str()),
            ResolveError::Unsupported { uri } => String::from_str(
                "unsupported protocol: '",
            ).concat(uri.as_str()).concat("'"),
        }
    }
}

/// One step of resolving an identifier.
#[derive(Debug)]
pub enum Retrieval {
    /// The document, served from the store.
    Found(Value),
    /// The identifier is remote and not in the store: the caller is to GET
    /// it and hand the outcome to `fetched`.
    Fetch(String),
    /// The identifier cannot be resolved.
    Failed(ResolveError),
}

/// A `Retrieval` as plain values.
pub enum RetrievalStep {
    Found(Value),
    Fetch(Seq<char>),
    Failed(ResolveFailure),
}

impl View for Retrieval {
    type V = RetrievalStep;

    open spec fn view(&self) -> RetrievalStep {
        match *self {
            Retrieval::Found(document) => RetrievalStep::Found(document),
            Retrieval::Fetch(uri) => RetrievalStep::Fetch(uri@),
            Retrieval::Failed(error) => RetrievalStep::Failed(error@),
        }
    }
}

/// How `uri` is resolved against the mapping `schemas`: a stored document
/// wins over everything; a remote identifier is fetched; any other is
/// refused.
pub open spec fn retrieve_spec(schemas: Map<Seq<char>, Value>, uri: Seq<char>) -> RetrievalStep {
    if schemas.contains_key(uri) {
        RetrievalStep::Found(schemas[uri])
    } else if is_http_spec(uri) {
        RetrievalStep::Fetch(uri)
    } else {
        RetrievalStep::Failed(ResolveFailure::Unresolvable { uri })
    }
}

/// What the outcome of a fetch resolves to: the parsed body, or the failure.
pub open spec fn decode_spec(uri: Seq<char>, body: Result<Seq<u8>, Seq<char>>) -> Result<
    Value,
    ResolveFailure,
> {
    match body {
        Err(cause) => Err(ResolveFailure::Fetch { uri, cause }),
        Ok(bytes) => match parsed_bytes(bytes) {
            Ok(document) => Ok(document),
            Err(error) => Err(ResolveFailure::Parse { uri, cause: diagnostic_text(error) }),
        },
    }
}

/// The mapping after the outcome of a fetch was taken in: a body that parses
/// is stored under the identifier, anything else leaves the mapping as it was.
pub open spec fn fetched_spec(
    schemas: Map<Seq<char>, Value>,
    uri: Seq<char>,
    body: Result<Seq<u8>, Seq<char>>,
) -> Map<Seq<char>, Value> {
    match decode_spec(uri, body) {
        Ok(document) => schemas.insert(uri, document),
        Err(_) => schemas,
    }
}

/// The outcome of a fetch as plain values.
pub open spec fn body_view(body: Result<Vec<u8>, String>) -> Result<Seq<u8>, Seq<char>> {
    match body {
        Ok(bytes) => Ok(bytes@),
        Err(cause) => Err(cause@),
    }
}

/// The two results agree: the same document, or the same failure.
pub open spec fn same_resolution(
    got: Result<Value, ResolveError>,
    want: Result<Value, ResolveFailure>,
) -> bool {
    match (got, want) {
        (Ok(a), Ok(b)) => a == b,
        (Err(a), Err(b)) => a@ == b,
        _ => false,
    }
}

/// A remote identifier that the store does not hold is asked for once: the
/// first step is a fetch, and once a fetch that gave a document was taken in,
/// the same identifier is served from the store.
pub proof fn law_fetched_once_then_served(
    schemas: Map<Seq<char>, Value>,
    uri: Seq<char>,
    body: Result<Seq<u8>, Seq<char>>,
)
    requires
        is_http_spec(uri),
        !schemas.contains_key(uri),
        decode_spec(uri, body) is Ok,
    ensures
        retrieve_spec(schemas, uri) == RetrievalStep::Fetch(uri),
        retrieve_spec(fetched_spec(schemas, uri, body), uri) == RetrievalStep::Found(
            decode_spec(uri, body)->Ok_0,
        ),
{
}

/// An identifier that the store holds is served from it, whatever its
/// scheme: no step asks for a fetch.
pub proof fn law_stored_is_served(schemas: Map<Seq<char>, Value>, uri: Seq<char>)
    requires
        schemas.contains_key(uri),
    ensures
        retrieve_spec(schemas, uri) == RetrievalStep::Found(schemas[uri]),
{
}

/// Taking in the outcome of a fetch removes nothing: every identifier the
/// store held it still holds, and only the fetched one can change.
pub proof fn law_fetch_keeps_entries(
    schemas: Map<Seq<char>, Value>,
    uri: Seq<char>,
    body: Result<Seq<u8>, Seq<char>>,
    other: Seq<char>,
)
    requires
        schemas.contains_key(other),
    ensures
        fetched_spec(schemas, uri, body).contains_key(other),
        other != uri ==> fetched_spec(schemas, uri, body)[other] == schemas[other],
{
}

/// Identifier to schema document. A key occurs once; adding under a key that
/// is present replaces the document. Nothing is ever removed.
pub struct SchemaStore {
    schema_store: StringHashMap<Value>,
}

impl View for SchemaStore {
    type V = Map<Seq<char>, Value>;

    closed spec fn view(&self) -> Map<Seq<char>, Value> {
        self.schema_store@
    }
}

impl SchemaStore {
    pub fn new() -> (store: Self)
        ensures
            store@ == Map::<Seq<char>, Value>::empty(),
    {
        SchemaStore { schema_store: StringHashMap::new() }
    }

    /// Stores a copy of `content` under `uri`, replacing what was there.
    pub fn add(&mut self, uri: &String, content: &Value)
        ensures
            final(self)@ == old(self)@.insert(uri@, *content),
    {
        self.schema_store.insert(uri.clone(), content.clone());
    }

    /// A copy of the document stored under `uri`, if there is one.
    pub fn get(&self, uri: &String) -> (found: Option<Value>)
        ensures
            found == if self@.contains_key(uri@) {
                Some(self@[uri@])
            } else {
                None
            },
    {
        match self.schema_store.get(uri.as_str()) {
            Some(document) => Some(document.clone()),
            None => None,
        }
    }

    /// The first step of resolving `uri`. It reads the store and performs no
    /// request: a miss on a remote identifier is handed back as `Fetch`.
    pub fn retrieve(&self, uri: String) -> (step: Retrieval)
        ensures
            step@ == retrieve_spec(self@, uri@),
    {
        match self.get(&uri) {
            Some(document) => Retrieval::Found(document),
            None => {
                if is_http(uri.as_str()) {
                    Retrieval::Fetch(uri)
                } else {
                    Retrieval::Failed(ResolveError::Unresolvable { uri })
                }
            },
        }
    }

    /// Turns the outcome of a fetch into the resolved document, without a
    /// store: a transport failure and a body that is not JSON are told apart.
    pub fn decode(uri: String, body: Result<Vec<u8>, String>) -> (r: Result<Value, ResolveError>)
        ensures
            same_resolution(r, decode_spec(uri@, body_view(body))),
    {
        match body {
            Err(cause) => Err(ResolveError::Fetch { uri, cause }),
            Ok(bytes) => match parse_bytes(bytes.as_slice()) {
                Ok(document) => Ok(document),
                Err(error) => {
                    let cause = diagnostic(&error);
                    Err(ResolveError::Parse { uri, cause })
                },
            },
        }
    }

    /// The second step of resolving a remote `uri`: takes the outcome of the
    /// fetch, stores the document if there is one, and returns it.
    pub fn fetched(&mut self, uri: String, body: Result<Vec<u8>, String>) -> (r: Result<
        Value,
        ResolveError,
    >)
        ensures
            same_resolution(r, decode_spec(uri@, body_view(body))),
            final(self)@ == fetched_spec(old(self)@, uri@, body_view(body)),
    {
        let key = uri.clone();
        match Self::decode(uri, body) {
            Ok(document) => {
                self.add(&key, &document);
                Ok(document)
            },
            Err(error) => Err(error),
        }
    }
}

} // verus!
