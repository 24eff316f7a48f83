//! The three operation handlers.
//!
//! Each handler is stateless per call: it composes the codec, the
//! pre-initialization guard and the fixed access/ordering/telemetry
//! parameters into a plan — either an immediate answer, issued without any
//! engine call, or the exact engine call to perform. The blocking wait on
//! the engine and the call itself are the unverified adapter's part; its
//! outcome comes back to the `*_conclude` functions, which say what crosses
//! the boundary for every value of it.

use crate::codec::OperationDescriptor;
use crate::codec::OperationKind;
use crate::codec::decode;
use crate::codec::descriptor_decoded;
use crate::codec::json_error_text;
use crate::codec::json_wellformed;
use crate::codec::parse_json_structure;
use crate::envelope::ErrorClass;
use crate::envelope::dec_digits;
use crate::envelope::decimal_string;
use crate::envelope::flat_text;
use crate::envelope::flatten_error;
use vstd::prelude::*;
use vstd::string::StringExecFns;

verus! {

/// The access scope a call runs under. A single fixed full-access
/// principal is used throughout; the field exists so a caller-scoped
/// principal would be a non-breaking extension.
pub struct AccessScope {
    pub principal: String,
}

/// The fixed full-access principal of this boundary.
pub fn full_access_scope() -> (r: AccessScope)
    ensures
        r.principal@ == "Offline"@,
{
    AccessScope { principal: "Offline".to_owned() }
}

/// Shard selection; this boundary is not partition-aware.
pub enum ShardSelector {
    All,
}

/// Write ordering for mutations; the engine's weakest, default ordering is
/// used throughout.
pub enum WriteOrdering {
    Weak,
}

/// Telemetry accounting; a disposable handle, nothing retained or
/// aggregated for offline use.
pub enum AccountingMode {
    Disposable,
}

/// The bounded wait, in seconds, on a collection-creation call.
pub const CREATE_TIMEOUT_SECS: u64 = 60;

// --- create-collection ---
/// What one `createCollection` call must do.
pub enum CreatePlan {
    /// Answer the boolean-failure value at once; no engine call is issued.
    Reject,
    /// Submit this meta-operation to the engine with a bounded wait.
    Issue { descriptor: OperationDescriptor, timeout_secs: u64, access: AccessScope },
}

/// Decide one `createCollection` call: the engine is reached exactly when
/// both arguments were readable, the schema text decoded, and a handle is
/// published; everything else is rejected on the spot.
pub fn create_collection_plan(initialized: bool, name: Option<String>, schema: Option<
    String,
>) -> (r: CreatePlan)
    ensures
        (r is Issue) <==> (initialized && name is Some && (schema matches Some(s)
            && json_wellformed(s@))),
        r matches CreatePlan::Issue { descriptor, timeout_secs, access } ==> {
            &&& name matches Some(n) && schema matches Some(s) && descriptor_decoded(
                descriptor,
                OperationKind::CreateCollection,
                n@,
                s@,
            )
            &&& timeout_secs == CREATE_TIMEOUT_SECS
            &&& access.principal@ == "Offline"@
        },
{
    match (name, schema) {
        (Some(n), Some(s)) => match decode(OperationKind::CreateCollection, n, s) {
            Ok(d) => {
                if initialized {
                    CreatePlan::Issue {
                        descriptor: d,
                        timeout_secs: CREATE_TIMEOUT_SECS,
                        access: full_access_scope(),
                    }
                } else {
                    CreatePlan::Reject
                }
            },
            Err(_) => CreatePlan::Reject,
        },
        _ => CreatePlan::Reject,
    }
}

/// Collapse the engine's answer to a meta-operation into the boundary's
/// boolean: acceptance and nothing else yields success. Every failure kind
/// collapses to the same flag; no diagnostic text crosses this path.
pub fn create_collection_conclude(outcome: Result<bool, String>) -> (r: bool)
    ensures
        r <==> (outcome matches Ok(true)),
{
    match outcome {
        Ok(accepted) => accepted,
        Err(_) => false,
    }
}

// --- update ---
/// What one `update` call must do.
pub enum UpdatePlan {
    /// Answer the boolean-failure value at once; no engine call is issued.
    Reject,
    /// Apply this tagged mutation with the fixed parameters.
    Issue {
        descriptor: OperationDescriptor,
        wait: bool,
        ordering: WriteOrdering,
        shards: ShardSelector,
        access: AccessScope,
        accounting: AccountingMode,
    },
}

/// Decide one `update` call: the engine is reached exactly when both
/// arguments were readable, the operation text decoded, and a handle is
/// published. An issued mutation waits for completion, under the default
/// ordering, across all shards, with the fixed principal and a disposable
/// accounting handle.
pub fn update_plan(initialized: bool, collection: Option<String>, operation: Option<
    String,
>) -> (r: UpdatePlan)
    ensures
        (r is Issue) <==> (initialized && collection is Some && (operation matches Some(p)
            && json_wellformed(p@))),
        r matches UpdatePlan::Issue { descriptor, wait, ordering, shards, access, accounting }
            ==> {
            &&& collection matches Some(c) && operation matches Some(p) && descriptor_decoded(
                descriptor,
                OperationKind::Update,
                c@,
                p@,
            )
            &&& wait == true
            &&& ordering is Weak
            &&& shards is All
            &&& access.principal@ == "Offline"@
            &&& accounting is Disposable
        },
{
    match (collection, operation) {
        (Some(c), Some(p)) => match decode(OperationKind::Update, c, p) {
            Ok(d) => {
                if initialized {
                    UpdatePlan::Issue {
                        descriptor: d,
                        wait: true,
                        ordering: WriteOrdering::Weak,
                        shards: ShardSelector::All,
                        access: full_access_scope(),
                        accounting: AccountingMode::Disposable,
                    }
                } else {
                    UpdatePlan::Reject
                }
            },
            Err(_) => UpdatePlan::Reject,
        },
        _ => UpdatePlan::Reject,
    }
}

/// Collapse the engine's answer to a mutation into the boundary's boolean:
/// success exactly when the engine applied it.
pub fn update_conclude(outcome: Result<(), String>) -> (r: bool)
    ensures
        r <==> outcome is Ok,
{
    match outcome {
        Ok(_) => true,
        Err(_) => false,
    }
}

// --- search ---
/// Read consistency on a query; this boundary requires none, leaving the
/// engine's own default in force.
pub enum ConsistencyRequirement {
    NoneRequired,
}

/// The outcome of the decode stage of one `search` call.
pub enum SearchDecode {
    /// Answer the caller at once with this boundary text; the payload
    /// reaches neither the schema check nor the engine.
    Respond { text: String },
    /// Both arguments were read and the query text is structurally
    /// well-formed; the typed parse against the engine's request schema
    /// comes next, before the published state is consulted.
    Decoded { collection: String, query: String },
}

/// Decode one `search` call's arguments: an unreadable argument or
/// structurally malformed query text is answered on the spot, with the
/// parser's positional message, whatever the published state.
pub fn search_decode(collection: Result<String, String>, query: Result<String, String>) -> (r:
    SearchDecode)
    ensures
        collection is Err ==> (r matches SearchDecode::Respond { text } && text@ == flat_text(
            ErrorClass::Arg,
            "name "@ + collection->Err_0@,
        )),
        collection is Ok && query is Err ==> (r matches SearchDecode::Respond { text } && text@
            == flat_text(ErrorClass::Arg, "json "@ + query->Err_0@)),
        collection is Ok && query is Ok && !json_wellformed(query->Ok_0@) ==> (
        r matches SearchDecode::Respond { text } && text@ == flat_text(
            ErrorClass::Json,
            json_error_text(query->Ok_0@),
        )),
        collection is Ok && query is Ok && json_wellformed(query->Ok_0@) ==> (
        r matches SearchDecode::Decoded { collection: target, query: q } && target@
            == collection->Ok_0@ && q@ == query->Ok_0@),
{
    let target = match collection {
        Ok(c) => c,
        Err(m) => {
            let mut msg: String = "name ".to_owned();
            msg.append(m.as_str());
            return SearchDecode::Respond { text: flatten_error(ErrorClass::Arg, msg.as_str()) };
        },
    };
    let q = match query {
        Ok(q) => q,
        Err(m) => {
            let mut msg: String = "json ".to_owned();
            msg.append(m.as_str());
            return SearchDecode::Respond { text: flatten_error(ErrorClass::Arg, msg.as_str()) };
        },
    };
    match parse_json_structure(q.as_str()) {
        Ok(_) => SearchDecode::Decoded { collection: target, query: q },
        Err(e) => SearchDecode::Respond { text: flatten_error(ErrorClass::Json, e.as_str()) },
    }
}

/// What one decoded `search` call must do.
pub enum SearchPlan {
    /// Answer the caller at once with this boundary text; no engine call
    /// is issued.
    Respond { text: String },
    /// Execute this query batch. The batch always holds exactly the one
    /// query of the call: the engine's query API is batch-shaped even for
    /// a single query.
    Issue {
        collection: String,
        batch: Vec<String>,
        shards: ShardSelector,
        access: AccessScope,
        consistency: ConsistencyRequirement,
        timeout_secs: Option<u64>,
        accounting: AccountingMode,
    },
}

/// Guard and dispatch one decoded `search` call. The adapter consults this
/// only after the query decoded, structurally and against the engine's
/// request schema: an uninitialized engine is answered without any engine
/// call; otherwise the batch is issued across all shards, under the fixed
/// principal, with no consistency requirement, no deadline, and a
/// disposable accounting handle.
pub fn search_dispatch(initialized: bool, collection: String, query: String) -> (r: SearchPlan)
    ensures
        !initialized ==> (r matches SearchPlan::Respond { text } && text@ == flat_text(
            ErrorClass::State,
            "TOC not initialized"@,
        )),
        initialized ==> (r matches SearchPlan::Issue {
            collection: target,
            batch,
            shards,
            access,
            consistency,
            timeout_secs,
            accounting,
        } && {
            &&& target@ == collection@
            &&& batch@.len() == 1
            &&& batch@[0]@ == query@
            &&& shards is All
            &&& access.principal@ == "Offline"@
            &&& consistency is NoneRequired
            &&& timeout_secs is None
            &&& accounting is Disposable
        }),
{
    if initialized {
        let mut batch: Vec<String> = Vec::new();
        batch.push(query);
        SearchPlan::Issue {
            collection,
            batch,
            shards: ShardSelector::All,
            access: full_access_scope(),
            consistency: ConsistencyRequirement::NoneRequired,
            timeout_secs: None,
            accounting: AccountingMode::Disposable,
        }
    } else {
        SearchPlan::Respond { text: flatten_error(ErrorClass::State, "TOC not initialized") }
    }
}

/// Take the engine's one batch slot — the batch was issued with a single
/// query — defaulting to an empty result set if the engine returned none.
pub fn take_batch_slot<T>(batch: Vec<Vec<T>>) -> (r: Vec<T>)
    ensures
        batch@.len() > 0 ==> r == batch@.last(),
        batch@.len() == 0 ==> r@ == Seq::<T>::empty(),
{
    let mut b = batch;
    match b.pop() {
        Some(slot) => slot,
        None => Vec::new(),
    }
}

/// How one issued search ended, after the adapter's blocking wait.
pub enum SearchOutcome {
    /// The engine rejected or failed the query batch.
    EngineRejected { message: String },
    /// The engine succeeded, but re-encoding the scored results to text
    /// failed; engine faults and format faults stay distinguishable.
    SerializeFailed { point_count: usize, message: String },
    /// The serialized scored-result sequence.
    Serialized { body: String },
}

/// The message of a serialization failure: the number of scored points,
/// then the encoder's own message.
pub open spec fn serialize_failure_text(count: int, msg: Seq<char>) -> Seq<char> {
    "pts="@ + dec_digits(count) + " err="@ + msg
}

/// Turn a search outcome into boundary text: a serialized result passes
/// through unchanged — an empty result sequence is a success, not an
/// error — and each failure is flattened under its own class.
pub fn search_conclude(outcome: SearchOutcome) -> (r: String)
    ensures
        outcome matches SearchOutcome::EngineRejected { message } ==> r@ == flat_text(
            ErrorClass::Search,
            message@,
        ),
        outcome matches SearchOutcome::SerializeFailed { point_count, message } ==> r@
            == flat_text(
            ErrorClass::Serialize,
            serialize_failure_text(point_count as int, message@),
        ),
        outcome matches SearchOutcome::Serialized { body } ==> r@ == body@,
{
    match outcome {
        SearchOutcome::EngineRejected { message } => flatten_error(
            ErrorClass::Search,
            message.as_str(),
        ),
        SearchOutcome::SerializeFailed { point_count, message } => {
            let mut msg: String = "pts=".to_owned();
            let count_text = decimal_string(point_count as u64);
            msg.append(count_text.as_str());
            msg.append(" err=");
            msg.append(message.as_str());
            flatten_error(ErrorClass::Serialize, msg.as_str())
        },
        SearchOutcome::Serialized { body } => body,
    }
}

} // verus!
