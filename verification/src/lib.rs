//! A session for validating JSON documents against JSON Schemas that are
//! registered under identifiers, given inline, or fetched on demand.
//!
//! The session decides; it performs no request and runs no validation engine.
//! `validate` and `schema_fetched` say what is to be done next, and
//! `violations::conclude` shapes what the engine found.

pub mod json;
pub mod schema_retriever;
pub mod schema_store;
pub mod schema_utils;
pub mod violations;

use crate::json::{diagnostic, diagnostic_text, parse_text, parsed_text};
use crate::schema_store::{
    body_view, decode_spec, fetched_spec, retrieve_spec, ResolveFailure, Retrieval, RetrievalStep,
    SchemaStore,
};
use crate::schema_utils::{
    is_json, is_json_spec, is_uri, is_uri_spec, to_json_value, to_json_value_spec,
};
use serde_json::Value;
use vstd::prelude::*;
use vstd::string::StringExecFns;

verus! {

/// What `validate` asks of its caller next.
#[derive(Debug)]
pub enum ValidationStep {
    /// The schema is a remote identifier that the store does not hold: GET
    /// it and hand the outcome to `schema_fetched`.
    Fetch(String),
    /// Schema and content are at hand: compile the first, evaluate the
    /// second against it, and hand the findings to `violations::conclude`.
    Compile { schema: Value, content: Value },
    /// The validation ends here, with this message.
    Failed(String),
}

/// A `ValidationStep` as plain values.
pub enum ValidationPlan {
    Fetch(Seq<char>),
    Compile { schema: Value, content: Value },
    Failed(Seq<char>),
}

impl View for ValidationStep {
    type V = ValidationPlan;

    open spec fn view(&self) -> ValidationPlan {
        match *self {
            ValidationStep::Fetch(uri) => ValidationPlan::Fetch(uri@),
            ValidationStep::Compile { schema, content } => ValidationPlan::Compile {
                schema,
                content,
            },
            ValidationStep::Failed(message) => ValidationPlan::Failed(message@),
        }
    }
}

/// The message for an identifier that `add_schema` does not take.
pub open spec fn invalid_identifier_message() -> Seq<char> {
    "Schema ID is invalid. It should start with http(s):// or id://."@
}

/// The message for a schema argument that is neither identifier nor JSON.
pub open spec fn invalid_reference_message() -> Seq<char> {
    "Schema must be a valid identifier or JSON text"@
}

/// The message for a schema that could not be resolved.
pub open spec fn not_found_message(failure: ResolveFailure) -> Seq<char> {
    "schema not found: "@ + failure.message()
}

/// The message for a content text that is not JSON.
pub open spec fn invalid_content_message(error: serde_json::Error) -> Seq<char> {
    "invalid content: "@ + diagnostic_text(error)
}

/// The message for a schema that the engine could not compile.
pub open spec fn compilation_failed_message(cause: Seq<char>) -> Seq<char> {
    "schema compilation failed: "@ + cause
}

/// The document that `add_schema` registers, or the message with which it
/// refuses: the identifier is checked first, then the text is parsed.
pub open spec fn add_schema_outcome(uri: Seq<char>, schema: Seq<char>) -> Result<Value, Seq<char>> {
    if !is_uri_spec(uri) {
        Err(invalid_identifier_message())
    } else {
        to_json_value_spec(schema)
    }
}

/// The store after `add_schema`: the document under the identifier where the
/// call succeeds, the store as it was where it does not.
pub open spec fn add_schema_spec(
    schemas: Map<Seq<char>, Value>,
    uri: Seq<char>,
    schema: Seq<char>,
) -> Map<Seq<char>, Value> {
    match add_schema_outcome(uri, schema) {
        Ok(document) => schemas.insert(uri, document),
        Err(_) => schemas,
    }
}

/// The step that follows once the schema document is at hand: the content is
/// parsed, and a content that is not JSON ends the validation.
pub open spec fn with_content(schema: Value, content: Seq<char>) -> ValidationPlan {
    match parsed_text(content) {
        Ok(document) => ValidationPlan::Compile { schema, content: document },
        Err(error) => ValidationPlan::Failed(invalid_content_message(error)),
    }
}

/// The first step of a validation. An identifier is resolved against the
/// store; text that opens with a brace is parsed as the schema itself;
/// anything else is refused before anything is parsed or fetched.
pub open spec fn validate_spec(
    schemas: Map<Seq<char>, Value>,
    schema: Seq<char>,
    content: Seq<char>,
) -> ValidationPlan {
    if is_uri_spec(schema) {
        match retrieve_spec(schemas, schema) {
            RetrievalStep::Found(document) => with_content(document, content),
            RetrievalStep::Fetch(uri) => ValidationPlan::Fetch(uri),
            RetrievalStep::Failed(failure) => ValidationPlan::Failed(not_found_message(failure)),
        }
    } else if is_json_spec(schema) {
        match to_json_value_spec(schema) {
            Ok(document) => with_content(document, content),
            Err(message) => ValidationPlan::Failed(message),
        }
    } else {
        ValidationPlan::Failed(invalid_reference_message())
    }
}

/// The step that follows a fetch: a failed fetch or a body that is not JSON
/// ends the validation before the content is looked at.
pub open spec fn schema_fetched_spec(
    uri: Seq<char>,
    body: Result<Seq<u8>, Seq<char>>,
    content: Seq<char>,
) -> ValidationPlan {
    match decode_spec(uri, body) {
        Ok(document) => with_content(document, content),
        Err(failure) => ValidationPlan::Failed(not_found_message(failure)),
    }
}

/// Registering the same schema under the same identifier a second time
/// changes nothing: the store is as after the first call. What the call
/// returns depends on its arguments alone, so it ends as the first did.
pub proof fn law_add_schema_is_idempotent(
    schemas: Map<Seq<char>, Value>,
    uri: Seq<char>,
    schema: Seq<char>,
)
    ensures
        add_schema_spec(add_schema_spec(schemas, uri, schema), uri, schema) == add_schema_spec(
            schemas,
            uri,
            schema,
        ),
{
    let once = add_schema_spec(schemas, uri, schema);
    assert(add_schema_spec(once, uri, schema) =~= once);
}

/// Of two registrations under one identifier the later one stands: the store
/// is as if the earlier had not been made.
pub proof fn law_last_registration_wins(
    schemas: Map<Seq<char>, Value>,
    uri: Seq<char>,
    earlier: Seq<char>,
    later: Seq<char>,
)
    requires
        add_schema_outcome(uri, later) is Ok,
    ensures
        add_schema_spec(add_schema_spec(schemas, uri, earlier), uri, later) == add_schema_spec(
            schemas,
            uri,
            later,
        ),
{
    let first = add_schema_spec(schemas, uri, earlier);
    assert(add_schema_spec(first, uri, later) =~= add_schema_spec(schemas, uri, later));
}

/// A registration removes nothing: every identifier the store held it still
/// holds, and only the registered one can change.
pub proof fn law_registration_keeps_entries(
    schemas: Map<Seq<char>, Value>,
    uri: Seq<char>,
    schema: Seq<char>,
    other: Seq<char>,
)
    requires
        schemas.contains_key(other),
    ensures
        add_schema_spec(schemas, uri, schema).contains_key(other),
        other != uri ==> add_schema_spec(schemas, uri, schema)[other] == schemas[other],
{
}

/// A refused registration leaves the store as it was, so an identifier that
/// was refused resolves afterwards as it did before.
pub proof fn law_refused_registration_changes_nothing(
    schemas: Map<Seq<char>, Value>,
    uri: Seq<char>,
    schema: Seq<char>,
)
    requires
        add_schema_outcome(uri, schema) is Err,
    ensures
        add_schema_spec(schemas, uri, schema) == schemas,
        retrieve_spec(add_schema_spec(schemas, uri, schema), uri) == retrieve_spec(schemas, uri),
{
}

/// Once an inline schema was registered under an identifier, validating by
/// the identifier takes the same step as validating by the schema text
/// itself, in whatever session the latter is done.
pub proof fn law_registered_schema_validates_as_inline(
    schemas: Map<Seq<char>, Value>,
    elsewhere: Map<Seq<char>, Value>,
    uri: Seq<char>,
    schema: Seq<char>,
    content: Seq<char>,
)
    requires
        add_schema_outcome(uri, schema) is Ok,
        is_json_spec(schema),
    ensures
        validate_spec(add_schema_spec(schemas, uri, schema), uri, content) == validate_spec(
            elsewhere,
            schema,
            content,
        ),
{
    crate::schema_utils::law_classes_are_disjoint(schema);
}

/// A validation fetches at most once: the step after a fetch is never
/// another fetch. A fetch that gave no document ends the validation without
/// a compile step.
pub proof fn law_fetch_is_followed_by_no_other(
    uri: Seq<char>,
    body: Result<Seq<u8>, Seq<char>>,
    content: Seq<char>,
)
    ensures
        !(schema_fetched_spec(uri, body, content) is Fetch),
        decode_spec(uri, body) is Err ==> schema_fetched_spec(uri, body, content)
            == ValidationPlan::Failed(not_found_message(decode_spec(uri, body)->Err_0)),
{
}

/// A validation session: the schemas registered or fetched so far.
pub struct WasmSchemaValidator {
    schema_store: SchemaStore,
}

impl View for WasmSchemaValidator {
    type V = Map<Seq<char>, Value>;

    closed spec fn view(&self) -> Map<Seq<char>, Value> {
        self.schema_store@
    }
}

impl WasmSchemaValidator {
    pub fn new() -> (session: WasmSchemaValidator)
        ensures
            session@ == Map::<Seq<char>, Value>::empty(),
    {
        WasmSchemaValidator { schema_store: SchemaStore::new() }
    }

    /// The store of the session, for the retrieval adapter.
    pub fn schema_store(&self) -> (store: &SchemaStore)
        ensures
            store@ == self@,
    {
        &self.schema_store
    }

    /// Registers the schema `schema` under the identifier `uri`, which must
    /// be an `id://` or http(s) identifier. A refused call leaves the store
    /// as it was.
    pub fn add_schema(&mut self, uri: String, schema: &str) -> (r: Result<(), String>)
        ensures
            final(self)@ == add_schema_spec(old(self)@, uri@, schema@),
            match (r, add_schema_outcome(uri@, schema@)) {
                (Ok(_), Ok(_)) => true,
                (Err(message), Err(named)) => message@ == named,
                _ => false,
            },
    {
        if !is_uri(uri.as_str()) {
            return Err(
                String::from_str("Schema ID is invalid. It should start with http(s):// or id://."),
            );
        }
        match to_json_value(schema) {
            Ok(document) => {
                self.schema_store.add(&uri, &document);
                Ok(())
            },
            Err(message) => Err(message),
        }
    }

    /// Parses the content for a schema document that is at hand.
    fn content_step(schema: Value, content: &str) -> (step: ValidationStep)
        ensures
            step@ == with_content(schema, content@),
    {
        match parse_text(content) {
            Ok(document) => ValidationStep::Compile { schema, content: document },
            Err(error) => {
                let cause = diagnostic(&error);
                ValidationStep::Failed(String::from_str("invalid content: ").concat(cause.as_str()))
            },
        }
    }

    /// The first step of validating `content` against `schema`, which is an
    /// identifier or inline JSON. The store is read, not changed.
    pub fn validate(&self, schema: &str, content: &str) -> (step: ValidationStep)
        ensures
            step@ == validate_spec(self@, schema@, content@),
    {
        if is_uri(schema) {
            match self.schema_store.retrieve(String::from_str(schema)) {
                Retrieval::Found(document) => Self::content_step(document, content),
                Retrieval::Fetch(uri) => ValidationStep::Fetch(uri),
                Retrieval::Failed(error) => {
                    let cause = error.message();
                    ValidationStep::Failed(
                        String::from_str("schema not found: ").concat(cause.as_str()),
                    )
                },
            }
        } else if is_json(schema) {
            match to_json_value(schema) {
                Ok(document) => Self::content_step(document, content),
                Err(message) => ValidationStep::Failed(message),
            }
        } else {
            ValidationStep::Failed(String::from_str("Schema must be a valid identifier or JSON text"))
        }
    }

    /// The step after `validate` asked for a fetch: `body` is the response
    /// body, or the transport's word for why there is none. A body that
    /// parses is stored under `uri`. The step is never another `Fetch`.
    pub fn schema_fetched(&mut self, uri: String, body: Result<Vec<u8>, String>, content: &str) -> (step:
        ValidationStep)
        ensures
            step@ == schema_fetched_spec(uri@, body_view(body), content@),
            final(self)@ == fetched_spec(old(self)@, uri@, body_view(body)),
    {
        match self.schema_store.fetched(uri, body) {
            Ok(document) => Self::content_step(document, content),
            Err(error) => {
                let cause = error.message();
                ValidationStep::Failed(String::from_str("schema not found: ").concat(cause.as_str()))
            },
        }
    }

    /// The step after a fetch where the store cannot be reached: the same
    /// step as `schema_fetched` takes, with nothing stored. Caching is best
    /// effort; the validation goes on without it.
    pub fn schema_fetched_uncached(uri: String, body: Result<Vec<u8>, String>, content: &str) -> (step:
        ValidationStep)
        ensures
            step@ == schema_fetched_spec(uri@, body_view(body), content@),
    {
        match SchemaStore::decode(uri, body) {
            Ok(document) => Self::content_step(document, content),
            Err(error) => {
                let cause = error.message();
                ValidationStep::Failed(String::from_str("schema not found: ").concat(cause.as_str()))
            },
        }
    }

    /// The step after the engine asked the adapter for a reference and the
    /// adapter asked for a fetch: the outcome is decoded and a document is
    /// stored under `uri`.
    pub fn reference_fetched(&mut self, uri: String, body: Result<Vec<u8>, String>) -> (r: Result<
        Value,
        String,
    >)
        ensures
            final(self)@ == fetched_spec(old(self)@, uri@, body_view(body)),
            match (r, decode_spec(uri@, body_view(body))) {
                (Ok(document), Ok(named)) => document == named,
                (Err(message), Err(failure)) => message@ == failure.message(),
                _ => false,
            },
    {
        match self.schema_store.fetched(uri, body) {
            Ok(document) => Ok(document),
            Err(error) => Err(error.message()),
        }
    }

    /// The message with which a validation ends where the engine could not
    /// compile the schema; `cause` is the engine's word.
    pub fn compilation_failed(cause: &str) -> (message: String)
        ensures
            message@ == compilation_failed_message(cause@),
    {
        String::from_str("schema compilation failed: ").concat(cause)
    }
}

} // verus!
