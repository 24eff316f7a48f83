//! One-time construction and publication of the shared engine state.
//!
//! The bridge's only stateful progression lives here: uninitialized, then —
//! after a racing construction that is not externally observable —
//! initialized, terminally. `initialize_plan` decides what a call must do
//! given the published state and its path argument; `initialize_conclude`
//! turns the outcome of a construction attempt into boundary text; the
//! publish model at the end states what the set-once primitive guarantees
//! under concurrent initializers.

use crate::envelope::ErrorClass;
use crate::envelope::flat_text;
use crate::envelope::flatten_error;
use crate::envelope::ok_string;
use crate::envelope::ok_text;
use vstd::prelude::*;
use vstd::string::StringExecFns;

verus! {

// --- the configuration template ---
/// The template text before the first occurrence of the storage path.
pub open spec fn config_head() -> Seq<char> {
    "\n    {\n        \"storage_path\": \""@
}

/// The template text between the storage path and the snapshots path.
pub open spec fn config_mid() -> Seq<char> {
    "\",\n        \"snapshots_path\": \""@
}

/// The fixed tuning constants that close the template.
pub open spec fn config_tail() -> Seq<char> {
    "/snapshots\",\n        \"on_disk_payload\": false,\n        \"optimizers\": {\n            \"deleted_threshold\": 0.2,\n            \"vacuum_min_vector_number\": 1000,\n            \"default_segment_number\": 2,\n            \"max_segment_size_kb\": 200000,\n            \"memmap_threshold_kb\": 50000,\n            \"indexing_threshold_kb\": 20000,\n            \"flush_interval_sec\": 5,\n            \"max_optimization_threads\": 1\n        },\n        \"wal\": {\n            \"wal_capacity_mb\": 32,\n            \"wal_segments_ahead\": 0\n        },\n        \"performance\": {\n            \"max_search_threads\": 0,\n            \"max_optimization_runtime_threads\": 0,\n            \"optimizer_cpu_budget\": 0,\n            \"optimizer_io_budget\": 0\n        },\n        \"hnsw_index\": {\n            \"m\": 16,\n            \"ef_construct\": 100,\n            \"full_scan_threshold_kb\": 10000,\n            \"max_indexing_threads\": 0,\n            \"on_disk\": false\n        }\n    }\n    "@
}

/// The configuration text for a storage path: the fixed template with the
/// path spliced in as both the storage and the snapshots location.
pub open spec fn config_json_of(path: Seq<char>) -> Seq<char> {
    config_head() + path + config_mid() + path + config_tail()
}

/// Materialize the configuration text for the given storage path.
pub fn build_config_json(path: &str) -> (r: String)
    ensures
        r@ == config_json_of(path@),
{
    let mut s: String = "\n    {\n        \"storage_path\": \"".to_owned();
    s.append(path);
    s.append("\",\n        \"snapshots_path\": \"");
    s.append(path);
    s.append(
        "/snapshots\",\n        \"on_disk_payload\": false,\n        \"optimizers\": {\n            \"deleted_threshold\": 0.2,\n            \"vacuum_min_vector_number\": 1000,\n            \"default_segment_number\": 2,\n            \"max_segment_size_kb\": 200000,\n            \"memmap_threshold_kb\": 50000,\n            \"indexing_threshold_kb\": 20000,\n            \"flush_interval_sec\": 5,\n            \"max_optimization_threads\": 1\n        },\n        \"wal\": {\n            \"wal_capacity_mb\": 32,\n            \"wal_segments_ahead\": 0\n        },\n        \"performance\": {\n            \"max_search_threads\": 0,\n            \"max_optimization_runtime_threads\": 0,\n            \"optimizer_cpu_budget\": 0,\n            \"optimizer_io_budget\": 0\n        },\n        \"hnsw_index\": {\n            \"m\": 16,\n            \"ef_construct\": 100,\n            \"full_scan_threshold_kb\": 10000,\n            \"max_indexing_threads\": 0,\n            \"on_disk\": false\n        }\n    }\n    ",
    );
    s
}

// --- the plan of one initialize call ---
/// What one `initialize` call must do, decided from the published state and
/// the call's own path argument.
pub enum InitPlan {
    /// Answer the caller at once with this boundary text.
    Respond { text: String },
    /// Construct the engine and its execution contexts from this
    /// configuration text, then try to publish them.
    Construct { config_json: String },
}

/// Decide one `initialize` call.
///
/// Initialization is idempotent by policy: once a handle is published,
/// every call answers success immediately and its own argument is ignored —
/// the first successful initializer's configuration stays authoritative.
/// On a first call, an unreadable path argument is rejected; otherwise the
/// engine is constructed from the template configuration.
pub fn initialize_plan(initialized: bool, path_arg: Result<String, String>) -> (r: InitPlan)
    ensures
        initialized ==> (r matches InitPlan::Respond { text } && text@ == ok_text()),
        !initialized ==> match path_arg {
            Ok(p) => r matches InitPlan::Construct { config_json } && config_json@
                == config_json_of(p@),
            Err(m) => r matches InitPlan::Respond { text } && text@ == flat_text(
                ErrorClass::Init,
                "path arg "@ + m@,
            ),
        },
{
    if initialized {
        InitPlan::Respond { text: ok_string() }
    } else {
        match path_arg {
            Ok(p) => InitPlan::Construct { config_json: build_config_json(p.as_str()) },
            Err(m) => {
                let mut msg: String = "path arg ".to_owned();
                msg.append(m.as_str());
                InitPlan::Respond { text: flatten_error(ErrorClass::Init, msg.as_str()) }
            },
        }
    }
}

/// How one construction attempt ended.
pub enum InitOutcome {
    /// The configuration text was rejected before construction; nothing was
    /// built and nothing was published.
    ConfigRejected { message: String },
    /// Constructing the engine or its execution contexts failed; nothing
    /// was published.
    ConstructFailed { message: String },
    /// This attempt's construction became the published engine state.
    PublishWon,
    /// A concurrent attempt published first; this attempt's construction
    /// was released, never left partially live. The caller still observes
    /// the single publication as a success.
    PublishLost,
}

/// Turn the outcome of a construction attempt into boundary text: a failure
/// before publication is an initialization error; once some attempt's
/// construction is published, winners and losers alike answer success,
/// consistently with the one publication.
pub fn initialize_conclude(outcome: InitOutcome) -> (r: String)
    ensures
        outcome matches InitOutcome::ConfigRejected { message } ==> r@ == flat_text(
            ErrorClass::Init,
            "config parse "@ + message@,
        ),
        outcome matches InitOutcome::ConstructFailed { message } ==> r@ == flat_text(
            ErrorClass::Init,
            "construction "@ + message@,
        ),
        outcome is PublishWon ==> r@ == ok_text(),
        outcome is PublishLost ==> r@ == ok_text(),
{
    match outcome {
        InitOutcome::ConfigRejected { message } => {
            let mut msg: String = "config parse ".to_owned();
            msg.append(message.as_str());
            flatten_error(ErrorClass::Init, msg.as_str())
        },
        InitOutcome::ConstructFailed { message } => {
            let mut msg: String = "construction ".to_owned();
            msg.append(message.as_str());
            flatten_error(ErrorClass::Init, msg.as_str())
        },
        InitOutcome::PublishWon => ok_string(),
        InitOutcome::PublishLost => ok_string(),
    }
}

// --- the set-once publish model ---
/// The state of the set-once publication point: vacant until one
/// construction is published, then terminally occupied by it. Attempts are
/// identified by their position in the interleaving order.
#[derive(Clone, Copy, PartialEq, Eq, Structural, Debug)]
pub enum PublishState {
    Vacant,
    Published { winner: u64 },
}

/// One set-if-absent attempt: into a vacant state it publishes; once a
/// value is published, later attempts change nothing.
pub open spec fn publish_step(s: PublishState, attempt: u64) -> PublishState {
    match s {
        PublishState::Vacant => PublishState::Published { winner: attempt },
        PublishState::Published { .. } => s,
    }
}

/// One set-if-absent attempt, executably: what the publication primitive
/// does to its state.
pub fn try_publish(s: PublishState, attempt: u64) -> (r: PublishState)
    ensures
        r == publish_step(s, attempt),
{
    match s {
        PublishState::Vacant => PublishState::Published { winner: attempt },
        PublishState::Published { .. } => s,
    }
}

/// Whether an attempt made in state `s` is the one that publishes.
pub open spec fn publish_wins(s: PublishState) -> bool {
    s is Vacant
}

/// The state after a sequence of attempts, applied in interleaving order.
pub open spec fn run_publishes(s: PublishState, attempts: Seq<u64>) -> PublishState
    decreases attempts.len(),
{
    if attempts.len() == 0 {
        s
    } else {
        run_publishes(publish_step(s, attempts[0]), attempts.drop_first())
    }
}

/// Once published, the state never changes again: initialization is
/// terminal, and the configuration in effect remains the winner's whatever
/// later calls attempt.
pub proof fn lemma_published_is_terminal(s: PublishState, attempts: Seq<u64>)
    requires
        s is Published,
    ensures
        run_publishes(s, attempts) == s,
    decreases attempts.len(),
{
    if attempts.len() > 0 {
        lemma_published_is_terminal(s, attempts.drop_first());
    }
}

/// Under concurrent first-time initializers, exactly one construction is
/// published: the first attempt in interleaving order, whatever the others
/// carried.
pub proof fn lemma_exactly_once_publish(attempts: Seq<u64>)
    requires
        attempts.len() > 0,
    ensures
        run_publishes(PublishState::Vacant, attempts) == (PublishState::Published {
            winner: attempts[0],
        }),
{
    lemma_published_is_terminal(
        PublishState::Published { winner: attempts[0] },
        attempts.drop_first(),
    );
}

/// Whether the attempt at position `i` of the interleaving is the one that
/// publishes.
pub open spec fn wins_at(attempts: Seq<u64>, i: int) -> bool {
    publish_wins(run_publishes(PublishState::Vacant, attempts.take(i)))
}

/// Exactly one attempt wins the publication: the first; every other
/// attempt finds the state already occupied.
pub proof fn lemma_single_winner(attempts: Seq<u64>, i: int)
    requires
        0 <= i < attempts.len(),
    ensures
        wins_at(attempts, i) <==> i == 0,
{
    if i > 0 {
        lemma_exactly_once_publish(attempts.take(i));
    }
}

} // verus!
