//! Strict structural decoding of boundary text into operation descriptors.
//!
//! Every structured payload crosses the boundary as serialized-object text.
//! Before any engine work is planned, the payload is parsed structurally;
//! malformed text yields the parser's positional diagnostic and never
//! reaches the engine.

use vstd::prelude::*;

verus! {

/// Whether the text is structurally well-formed serialized-object text.
pub uninterp spec fn json_wellformed(s: Seq<char>) -> bool;

/// The parser's positional diagnostic for text that is not well-formed.
pub uninterp spec fn json_error_text(s: Seq<char>) -> Seq<char>;

/// Relies on `serde_json::from_str::<serde_json::Value>`: whether the text
/// parses as JSON, and the positional message on failure, depend on the
/// text alone.
#[verifier::external_body]
pub(crate) fn parse_json_structure(s: &str) -> (r: Result<(), String>)
    ensures
        r is Ok <==> json_wellformed(s@),
        r is Err ==> r->Err_0@ == json_error_text(s@),
{
    match serde_json::from_str::<serde_json::Value>(s) {
        Ok(_) => Ok(()),
        Err(e) => Err(format!("{}", e)),
    }
}

/// The three operations the boundary supports.
#[derive(Clone, Copy, PartialEq, Eq, Structural, Debug)]
pub enum OperationKind {
    CreateCollection,
    Update,
    Search,
}

/// A typed, decoded representation of one engine operation, built fresh per
/// call and discarded after dispatch.
pub enum OperationDescriptor {
    /// Create a collection with the given serialized schema.
    CreateCollection { name: String, schema: String },
    /// Apply a mutation; the clock tag is absent at this boundary.
    Update { collection: String, payload: String, clock_tag: Option<u64> },
    /// Execute a single query.
    Search { collection: String, query: String },
}

/// What a successful decode of the given kind, target and payload holds.
pub open spec fn descriptor_decoded(
    d: OperationDescriptor,
    kind: OperationKind,
    target: Seq<char>,
    payload: Seq<char>,
) -> bool {
    match kind {
        OperationKind::CreateCollection => {
            &&& d matches OperationDescriptor::CreateCollection { name, schema }
            &&& name@ == target
            &&& schema@ == payload
        },
        OperationKind::Update => {
            &&& d matches OperationDescriptor::Update { collection, payload: p, clock_tag }
            &&& collection@ == target
            &&& p@ == payload
            &&& clock_tag is None
        },
        OperationKind::Search => {
            &&& d matches OperationDescriptor::Search { collection, query }
            &&& collection@ == target
            &&& query@ == payload
        },
    }
}

/// Decode boundary text into an operation descriptor.
///
/// Succeeds exactly when the payload is structurally well-formed; on failure
/// the parser's positional diagnostic is returned verbatim.
pub fn decode(kind: OperationKind, target: String, payload: String) -> (r: Result<
    OperationDescriptor,
    String,
>)
    ensures
        r is Ok <==> json_wellformed(payload@),
        r matches Ok(d) ==> descriptor_decoded(d, kind, target@, payload@),
        r matches Err(m) ==> m@ == json_error_text(payload@),
{
    match parse_json_structure(payload.as_str()) {
        Ok(_) => Ok(
            match kind {
                OperationKind::CreateCollection => OperationDescriptor::CreateCollection {
                    name: target,
                    schema: payload,
                },
                OperationKind::Update => OperationDescriptor::Update {
                    collection: target,
                    payload,
                    clock_tag: None,
                },
                OperationKind::Search => OperationDescriptor::Search {
                    collection: target,
                    query: payload,
                },
            },
        ),
        Err(e) => Err(e),
    }
}

} // verus!
