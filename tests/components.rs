use query_api::admission::{check_strict_mode, check_strict_mode_batch, PolicyViolation, StrictModePolicy};
use query_api::points::{convert_points, PointId, ScoredPointInternal};
use query_api::query::{BatchItem, QueryDescriptor};
use query_api::response::{batch_responses, single_response, QueryError, ServiceFailure};
use query_api::shard::{resolve_shard_selector, ShardKey, ShardSelector};
use query_api::usage::{HardwareUsage, HwMeasurementAcc, InferenceUsage, UsageAccumulator};

fn point(id: u64) -> ScoredPointInternal {
    ScoredPointInternal { id: PointId::Num(id), version: 3, score_bits: 0.25f32.to_bits(), payload: Some("{}".to_string()) }
}

#[test]
fn absent_shard_keys_route_to_all() {
    assert!(matches!(resolve_shard_selector(None), ShardSelector::All));
    assert!(matches!(resolve_shard_selector(Some(vec![])), ShardSelector::All));
}

#[test]
fn shard_keys_are_kept_with_duplicates() {
    let keys = vec![ShardKey::Number(4), ShardKey::Keyword("west".to_string()), ShardKey::Number(4)];
    match resolve_shard_selector(Some(keys)) {
        ShardSelector::Specific(k) => {
            assert_eq!(k.len(), 3);
            assert!(matches!(k[0], ShardKey::Number(4)));
            assert!(matches!(&k[1], ShardKey::Keyword(w) if w == "west"));
            assert!(matches!(k[2], ShardKey::Number(4)));
        },
        other => panic!("expected specific shards, got {:?}", other),
    }
}

#[test]
fn merge_order_does_not_change_totals() {
    let contributions = [Some(InferenceUsage { tokens: 3 }), None, Some(InferenceUsage { tokens: 7 })];
    let mut forward = UsageAccumulator::new();
    for c in contributions.iter() {
        forward.merge_opt(*c);
    }
    let mut backward = UsageAccumulator::new();
    for c in contributions.iter().rev() {
        backward.merge_opt(*c);
    }
    assert_eq!(forward, backward);
    assert_eq!(forward.into_non_empty(), Some(InferenceUsage { tokens: 10 }));
}

#[test]
fn nothing_merged_reports_no_inference_usage() {
    let mut acc = UsageAccumulator::new();
    acc.merge_opt(None);
    assert_eq!(acc.into_non_empty(), None);
}

#[test]
fn a_zero_contribution_still_reports_inference_usage() {
    let mut acc = UsageAccumulator::new();
    acc.merge_opt(Some(InferenceUsage { tokens: 0 }));
    assert_eq!(acc.into_non_empty(), Some(InferenceUsage { tokens: 0 }));
}

#[test]
fn token_totals_saturate() {
    let mut acc = UsageAccumulator::new();
    acc.merge_opt(Some(InferenceUsage { tokens: u64::MAX - 1 }));
    acc.merge_opt(Some(InferenceUsage { tokens: 5 }));
    assert_eq!(acc.tokens, u64::MAX);
}

#[test]
fn hardware_counter_adds_up() {
    let mut hw = HwMeasurementAcc::new();
    let unit = HardwareUsage { cpu: 2, payload_io_read: 1, payload_io_write: 0, vector_io_read: 4, vector_io_write: 0 };
    hw.accumulate(unit);
    hw.accumulate(unit);
    assert_eq!(
        hw.to_report(),
        HardwareUsage { cpu: 4, payload_io_read: 2, payload_io_write: 0, vector_io_read: 8, vector_io_write: 0 }
    );
}

#[test]
fn single_check_reports_limit() {
    let policy = StrictModePolicy { enabled: true, max_timeout_secs: Some(60), max_query_limit: Some(50) };
    let q = QueryDescriptor { handle: 1, limit: 51 };
    assert_eq!(
        check_strict_mode(&policy, &q, Some(60)).unwrap_err(),
        PolicyViolation::LimitTooLarge { index: 0, limit: 51, max: 50 }
    );
    let ok = QueryDescriptor { handle: 1, limit: 50 };
    assert_eq!(check_strict_mode(&policy, &ok, Some(60)).unwrap().len(), 1);
}

#[test]
fn disabled_policy_admits_anything() {
    let policy = StrictModePolicy { enabled: false, max_timeout_secs: Some(1), max_query_limit: Some(1) };
    let items = vec![BatchItem { query: QueryDescriptor { handle: 1, limit: 99 }, shard_selector: ShardSelector::All }];
    assert_eq!(check_strict_mode_batch(&policy, &items, Some(99)).unwrap().len(), 1);
}

#[test]
fn timeout_is_checked_before_limits() {
    let policy = StrictModePolicy { enabled: true, max_timeout_secs: Some(10), max_query_limit: Some(1) };
    let items = vec![BatchItem { query: QueryDescriptor { handle: 1, limit: 99 }, shard_selector: ShardSelector::All }];
    assert_eq!(
        check_strict_mode_batch(&policy, &items, Some(11)).unwrap_err(),
        PolicyViolation::TimeoutTooLarge { requested: 11, max: 10 }
    );
}

#[test]
fn absent_timeout_is_not_checked() {
    let policy = StrictModePolicy { enabled: true, max_timeout_secs: Some(10), max_query_limit: None };
    let q = QueryDescriptor { handle: 1, limit: 99 };
    assert!(check_strict_mode(&policy, &q, None).is_ok());
}

#[test]
fn conversion_keeps_order_and_fields() {
    let out = convert_points(vec![point(5), point(6)]);
    assert_eq!(out.len(), 2);
    assert!(matches!(out[0].id, PointId::Num(5)));
    assert!(matches!(out[1].id, PointId::Num(6)));
    assert_eq!(out[1].version, 3);
    assert_eq!(f32::from_bits(out[1].score_bits), 0.25);
    assert_eq!(out[1].payload.as_deref(), Some("{}"));
}

#[test]
fn single_response_rejects_extra_results() {
    match single_response(vec![vec![point(1)], vec![point(2)]]) {
        Err(QueryError::Service(ServiceFailure::CountMismatch { expected, returned })) => {
            assert_eq!((expected, returned), (1, 2));
        },
        other => panic!("expected a count mismatch, got {:?}", other),
    }
}

#[test]
fn batch_responses_rejects_extra_results() {
    assert!(batch_responses(1, vec![vec![], vec![point(1)]]).is_err());
    let ok = batch_responses(2, vec![vec![], vec![point(1)]]).unwrap();
    assert_eq!(ok[0].points.len(), 0);
    assert_eq!(ok[1].points.len(), 1);
}
