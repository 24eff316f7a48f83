use qdrant_offline_android::codec::OperationDescriptor;
use qdrant_offline_android::codec::OperationKind;
use qdrant_offline_android::codec::decode;
use qdrant_offline_android::dispatch::AccountingMode;
use qdrant_offline_android::dispatch::ConsistencyRequirement;
use qdrant_offline_android::dispatch::CreatePlan;
use qdrant_offline_android::dispatch::SearchDecode;
use qdrant_offline_android::dispatch::SearchOutcome;
use qdrant_offline_android::dispatch::SearchPlan;
use qdrant_offline_android::dispatch::ShardSelector;
use qdrant_offline_android::dispatch::UpdatePlan;
use qdrant_offline_android::dispatch::WriteOrdering;
use qdrant_offline_android::dispatch::create_collection_conclude;
use qdrant_offline_android::dispatch::create_collection_plan;
use qdrant_offline_android::dispatch::search_conclude;
use qdrant_offline_android::dispatch::search_decode;
use qdrant_offline_android::dispatch::search_dispatch;
use qdrant_offline_android::dispatch::take_batch_slot;
use qdrant_offline_android::dispatch::update_conclude;
use qdrant_offline_android::dispatch::update_plan;

fn parser_message(payload: &str) -> String {
    serde_json::from_str::<serde_json::Value>(payload)
        .expect_err("payload expected to be malformed")
        .to_string()
}

#[test]
fn decode_accepts_wellformed_payloads() {
    match decode(
        OperationKind::CreateCollection,
        String::from("docs"),
        String::from("{\"vectors\":{\"size\":4,\"distance\":\"Dot\"}}"),
    ) {
        Ok(OperationDescriptor::CreateCollection { name, schema }) => {
            assert_eq!(name, "docs");
            assert_eq!(schema, "{\"vectors\":{\"size\":4,\"distance\":\"Dot\"}}");
        }
        other => panic!("unexpected decode result: {:?}", other.is_ok()),
    }
    match decode(OperationKind::Update, String::from("docs"), String::from("{}")) {
        Ok(OperationDescriptor::Update { collection, payload, clock_tag }) => {
            assert_eq!(collection, "docs");
            assert_eq!(payload, "{}");
            assert_eq!(clock_tag, None);
        }
        other => panic!("unexpected decode result: {:?}", other.is_ok()),
    }
}

#[test]
fn decode_returns_the_parsers_positional_message() {
    let payload = "{\"unterminated\": ";
    match decode(OperationKind::Search, String::from("docs"), String::from(payload)) {
        Err(message) => assert_eq!(message, parser_message(payload)),
        Ok(_) => panic!("malformed payload must not decode"),
    }
}

#[test]
fn create_before_initialize_is_rejected() {
    let plan = create_collection_plan(
        false,
        Some(String::from("docs")),
        Some(String::from("{\"vectors\":{\"size\":4,\"distance\":\"Dot\"}}")),
    );
    assert!(matches!(plan, CreatePlan::Reject));
}

#[test]
fn create_with_malformed_schema_is_rejected_without_engine_call() {
    let plan = create_collection_plan(true, Some(String::from("docs")), Some(String::from("{")));
    assert!(matches!(plan, CreatePlan::Reject));
}

#[test]
fn create_with_unreadable_argument_is_rejected() {
    assert!(matches!(
        create_collection_plan(true, None, Some(String::from("{}"))),
        CreatePlan::Reject
    ));
    assert!(matches!(
        create_collection_plan(true, Some(String::from("docs")), None),
        CreatePlan::Reject
    ));
}

#[test]
fn create_issues_with_the_fixed_parameters() {
    match create_collection_plan(true, Some(String::from("docs")), Some(String::from("{}"))) {
        CreatePlan::Issue { descriptor, timeout_secs, access } => {
            assert_eq!(timeout_secs, 60);
            assert_eq!(access.principal, "Offline");
            match descriptor {
                OperationDescriptor::CreateCollection { name, schema } => {
                    assert_eq!(name, "docs");
                    assert_eq!(schema, "{}");
                }
                _ => panic!("a create plan must carry a create descriptor"),
            }
        }
        CreatePlan::Reject => panic!("a valid initialized create must be issued"),
    }
}

#[test]
fn engine_rejection_of_create_collapses_to_false() {
    assert!(create_collection_conclude(Ok(true)));
    assert!(!create_collection_conclude(Ok(false)));
    assert!(!create_collection_conclude(Err(String::from("bad input: wrong schema"))));
}

#[test]
fn update_before_initialize_is_rejected() {
    let plan = update_plan(false, Some(String::from("docs")), Some(String::from("{}")));
    assert!(matches!(plan, UpdatePlan::Reject));
}

#[test]
fn update_with_malformed_operation_is_rejected_without_engine_call() {
    let plan = update_plan(true, Some(String::from("docs")), Some(String::from("[1,")));
    assert!(matches!(plan, UpdatePlan::Reject));
}

#[test]
fn update_issues_with_the_fixed_parameters() {
    match update_plan(true, Some(String::from("docs")), Some(String::from("{\"upsert\":{}}"))) {
        UpdatePlan::Issue { descriptor, wait, ordering, shards, access, accounting } => {
            assert!(wait);
            assert!(matches!(ordering, WriteOrdering::Weak));
            assert!(matches!(shards, ShardSelector::All));
            assert!(matches!(accounting, AccountingMode::Disposable));
            assert_eq!(access.principal, "Offline");
            match descriptor {
                OperationDescriptor::Update { collection, payload, clock_tag } => {
                    assert_eq!(collection, "docs");
                    assert_eq!(payload, "{\"upsert\":{}}");
                    assert_eq!(clock_tag, None);
                }
                _ => panic!("an update plan must carry an update descriptor"),
            }
        }
        UpdatePlan::Reject => panic!("a valid initialized update must be issued"),
    }
}

#[test]
fn engine_rejection_of_update_collapses_to_false() {
    assert!(update_conclude(Ok(())));
    assert!(!update_conclude(Err(String::from("collection not found"))));
}

#[test]
fn search_with_unreadable_arguments_reports_arg_errors() {
    match search_decode(Err(String::from("boom")), Ok(String::from("{}"))) {
        SearchDecode::Respond { text } => assert_eq!(text, "ARG_ERROR: name boom"),
        SearchDecode::Decoded { .. } => panic!("an unreadable name must not decode"),
    }
    match search_decode(Ok(String::from("docs")), Err(String::from("boom"))) {
        SearchDecode::Respond { text } => assert_eq!(text, "ARG_ERROR: json boom"),
        SearchDecode::Decoded { .. } => panic!("an unreadable query must not decode"),
    }
}

#[test]
fn search_with_malformed_query_reports_json_error_without_engine_call() {
    let payload = "{\"vector\": [0.1, }";
    match search_decode(Ok(String::from("docs")), Ok(String::from(payload))) {
        SearchDecode::Respond { text } => {
            assert_eq!(text, format!("JSON_ERROR: {}", parser_message(payload)));
        }
        SearchDecode::Decoded { .. } => panic!("a malformed query must not decode"),
    }
}

#[test]
fn search_decodes_wellformed_queries_before_any_state_check() {
    // A structurally well-formed query decodes whatever the published
    // state; the typed schema check comes before the state guard.
    match search_decode(Ok(String::from("docs")), Ok(String::from("{}"))) {
        SearchDecode::Decoded { collection, query } => {
            assert_eq!(collection, "docs");
            assert_eq!(query, "{}");
        }
        SearchDecode::Respond { text } => panic!("expected a decode, got {}", text),
    }
}

#[test]
fn search_before_initialize_reports_state_error() {
    match search_dispatch(false, String::from("docs"), String::from("{}")) {
        SearchPlan::Respond { text } => assert_eq!(text, "STATE_ERROR: TOC not initialized"),
        SearchPlan::Issue { .. } => panic!("an uninitialized engine must not be called"),
    }
}

#[test]
fn search_issues_a_singleton_batch_with_the_fixed_parameters() {
    let query = "{\"vector\":[0.1,0.2],\"limit\":3}";
    match search_dispatch(true, String::from("docs"), String::from(query)) {
        SearchPlan::Issue {
            collection,
            batch,
            shards,
            access,
            consistency,
            timeout_secs,
            accounting,
        } => {
            assert_eq!(collection, "docs");
            assert_eq!(batch, vec![String::from(query)]);
            assert!(matches!(shards, ShardSelector::All));
            assert_eq!(access.principal, "Offline");
            assert!(matches!(consistency, ConsistencyRequirement::NoneRequired));
            assert_eq!(timeout_secs, None);
            assert!(matches!(accounting, AccountingMode::Disposable));
        }
        SearchPlan::Respond { text } => panic!("expected an issued search, got {}", text),
    }
}

#[test]
fn batch_slot_defaults_to_empty_when_the_engine_returns_none() {
    let none: Vec<Vec<u64>> = Vec::new();
    assert_eq!(take_batch_slot(none), Vec::<u64>::new());
}

#[test]
fn batch_slot_takes_the_single_slot() {
    assert_eq!(take_batch_slot(vec![vec![5u64, 6u64]]), vec![5u64, 6u64]);
    assert_eq!(take_batch_slot(vec![vec![1u64, 2u64], vec![3u64]]), vec![3u64]);
}

#[test]
fn search_outcomes_flatten_to_boundary_text() {
    assert_eq!(
        search_conclude(SearchOutcome::EngineRejected {
            message: String::from("collection missing"),
        }),
        "SEARCH_ERROR: collection missing"
    );
    assert_eq!(
        search_conclude(SearchOutcome::SerializeFailed {
            point_count: 3,
            message: String::from("oops"),
        }),
        "SERIALIZE_ERROR: pts=3 err=oops"
    );
}

#[test]
fn serialized_search_results_pass_through_unchanged() {
    assert_eq!(
        search_conclude(SearchOutcome::Serialized {
            body: String::from("[{\"id\":7,\"score\":0.9}]"),
        }),
        "[{\"id\":7,\"score\":0.9}]"
    );
    // An empty result sequence is a success, not an error.
    assert_eq!(search_conclude(SearchOutcome::Serialized { body: String::from("[]") }), "[]");
}
