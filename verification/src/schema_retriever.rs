//! The adapter through which the validation engine resolves the references
//! it meets inside a schema.
//!
//! The engine is told less than a caller of the store: by default only
//! http(s) references pass, whatever the store holds under other names.

use crate::schema_store::{
    retrieve_spec, ResolveError, ResolveFailure, Retrieval, RetrievalStep, SchemaStore,
};
use crate::schema_utils::{is_http, is_http_spec, is_id, is_id_spec};
use vstd::prelude::*;
use vstd::string::StringExecFns;

verus! {

/// Whether the adapter lets the reference `uri` through to the store.
pub open spec fn admits(forward_local: bool, uri: Seq<char>) -> bool {
    is_http_spec(uri) || (forward_local && is_id_spec(uri))
}

/// The step the adapter answers with: a reference it does not admit is
/// refused even where the store holds a document under it; an admitted one is
/// resolved as the store resolves it.
pub open spec fn adapter_spec(
    schemas: Map<Seq<char>, serde_json::Value>,
    forward_local: bool,
    uri: Seq<char>,
) -> RetrievalStep {
    if admits(forward_local, uri) {
        retrieve_spec(schemas, uri)
    } else {
        RetrievalStep::Failed(ResolveFailure::Unsupported { uri })
    }
}

/// A view of the store for the validation engine. It holds no state of its
/// own.
pub struct SchemaRetriever<'a> {
    schema_store: &'a SchemaStore,
    forward_local: bool,
}

impl<'a> SchemaRetriever<'a> {
    /// The store the adapter resolves against.
    pub closed spec fn schemas(&self) -> Map<Seq<char>, serde_json::Value> {
        self.schema_store@
    }

    /// Whether registered `id://` identifiers pass as well.
    pub closed spec fn forwards_local(&self) -> bool {
        self.forward_local
    }

    /// The adapter of the base design: http(s) references only.
    pub fn new(schema_store: &'a SchemaStore) -> (r: Self)
        ensures
            r.schemas() == schema_store@,
            !r.forwards_local(),
    {
        SchemaRetriever { schema_store, forward_local: false }
    }

    /// The adapter of the extended design: `id://` identifiers that were
    /// registered are served to the engine too.
    pub fn forwarding_local(schema_store: &'a SchemaStore) -> (r: Self)
        ensures
            r.schemas() == schema_store@,
            r.forwards_local(),
    {
        SchemaRetriever { schema_store, forward_local: true }
    }

    /// The first step of resolving a reference for the engine. A `Fetch` is
    /// completed with `SchemaStore::fetched`.
    pub fn retrieve(&self, uri: &str) -> (step: Retrieval)
        ensures
            step@ == adapter_spec(self.schemas(), self.forwards_local(), uri@),
    {
        if is_http(uri) || (self.forward_local && is_id(uri)) {
            self.schema_store.retrieve(String::from_str(uri))
        } else {
            Retrieval::Failed(ResolveError::Unsupported { uri: String::from_str(uri) })
        }
    }
}

} // verus!
