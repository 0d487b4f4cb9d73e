use stellar_k8s::data_pipeline::etl::{EtlRecord, FieldMap, JsonNumber, PayloadValue};
use stellar_k8s::data_pipeline::quality::{
    run_check, DataQualityEngine, RuleCheck, Severity, ValidationRule,
};

fn number(x: f64) -> PayloadValue {
    PayloadValue::Number(JsonNumber {
        bits: x.to_bits(),
        display: format!("{}", x),
        display_one_decimal: format!("{:.1}", x),
    })
}

fn set_payload(r: &mut EtlRecord, key: &str, value: PayloadValue) {
    r.payload.insert(key.to_string(), value);
}

fn good_record(seq: u64) -> EtlRecord {
    let mut metadata = FieldMap::new();
    metadata.insert("date_partition".to_string(), "2024-01-15".to_string());
    let mut payload = FieldMap::new();
    payload.insert(
        "hash".to_string(),
        PayloadValue::Text(format!("hash_{seq:016x}")),
    );
    payload.insert("base_fee_xlm".to_string(), number(0.00001));
    payload.insert("base_reserve_xlm".to_string(), number(0.5));
    payload.insert("tx_success_rate".to_string(), number(0.98));
    payload.insert("avg_ops_per_tx".to_string(), number(2.5));
    payload.insert(
        "ledger_size_category".to_string(),
        PayloadValue::Text("medium".to_string()),
    );
    EtlRecord {
        id: format!("test-{seq}"),
        source_topic: "ledger".into(),
        partition: 0,
        offset: seq as i64,
        payload,
        metadata,
        pipeline_ts: "2024-01-15T12:00:00Z".into(),
        ledger_seq: Some(seq),
    }
}

#[test]
fn test_good_record_passes() {
    let engine = DataQualityEngine::with_default_rules();
    let violations = engine.validate(&good_record(100));
    assert!(violations.is_empty());
}

#[test]
fn test_zero_sequence_is_critical() {
    let engine = DataQualityEngine::with_default_rules();
    let mut r = good_record(0);
    r.ledger_seq = Some(0);
    let violations = engine.validate(&r);
    assert!(violations.iter().any(|v| v.severity == Severity::Critical));
}

#[test]
fn test_invalid_success_rate_is_error() {
    let engine = DataQualityEngine::with_default_rules();
    let mut r = good_record(1);
    set_payload(&mut r, "tx_success_rate", number(1.5));
    let violations = engine.validate(&r);
    assert!(violations
        .iter()
        .any(|v| v.rule_name == "valid_success_rate"));
}

#[test]
fn test_batch_pass_rate() {
    let engine = DataQualityEngine::with_default_rules();
    let records: Vec<EtlRecord> = (1..=10).map(good_record).collect();
    let report = engine.tally_batch(&records);
    assert_eq!(report.passed, 10);
    let pass_rate_pct = report.passed as f64 / report.total_records as f64 * 100.0;
    assert!((pass_rate_pct - 100.0).abs() < 0.01);
}

#[test]
fn success_rate_message_shows_value() {
    let mut r = good_record(1);
    set_payload(&mut r, "tx_success_rate", number(1.5));
    let out = run_check(RuleCheck::ValidSuccessRate, &r);
    assert_eq!(
        out,
        Some((
            "tx_success_rate".to_string(),
            "Success rate out of range: 1.5".to_string()
        ))
    );
    set_payload(&mut r, "tx_success_rate", number(-0.25));
    assert!(run_check(RuleCheck::ValidSuccessRate, &r).is_some());
    set_payload(&mut r, "tx_success_rate", number(1.0));
    assert!(run_check(RuleCheck::ValidSuccessRate, &r).is_none());
    set_payload(&mut r, "tx_success_rate", number(0.0));
    assert!(run_check(RuleCheck::ValidSuccessRate, &r).is_none());
}

#[test]
fn success_rate_falls_back_to_second_key() {
    let mut r = good_record(1);
    r.payload = FieldMap::new();
    r.payload.insert(
        "hash".to_string(),
        PayloadValue::Text("abc".to_string()),
    );
    r.payload.insert("success_rate".to_string(), number(2.0));
    assert!(run_check(RuleCheck::ValidSuccessRate, &r).is_some());
}

#[test]
fn low_base_fee_is_warned() {
    let engine = DataQualityEngine::with_default_rules();
    let mut r = good_record(5);
    // 50 stroops
    set_payload(&mut r, "base_fee_xlm", number(0.000005));
    let violations = engine.validate(&r);
    assert_eq!(violations.len(), 1);
    assert_eq!(violations[0].rule_name, "min_base_fee");
    assert_eq!(violations[0].severity, Severity::Warning);
    assert_eq!(violations[0].field, "base_fee_xlm");
    assert_eq!(violations[0].record_sequence, 5);
    assert_eq!(violations[0].message, "Base fee too low: 0.000005");
    // exactly the threshold (100 stroops) passes
    set_payload(&mut r, "base_fee_xlm", number(0.00001));
    assert!(engine.validate(&r).is_empty());
    set_payload(&mut r, "base_fee_xlm", number(0.000001));
    assert_eq!(engine.validate(&r).len(), 1);
}

#[test]
fn missing_hash_is_critical() {
    let mut r = good_record(3);
    r.payload = FieldMap::new();
    let out = run_check(RuleCheck::NonEmptyHash, &r);
    assert!(out.is_some());
    r.payload.insert(
        "ledger_hash".to_string(),
        PayloadValue::Text("deadbeef".to_string()),
    );
    assert!(run_check(RuleCheck::NonEmptyHash, &r).is_none());
}

#[test]
fn date_partition_shape() {
    let mut r = good_record(3);
    assert!(run_check(RuleCheck::DatePartitionFormat, &r).is_none());
    r.metadata = FieldMap::new();
    r.metadata.insert("date_partition".to_string(), "2024/01/15".to_string());
    assert!(run_check(RuleCheck::DatePartitionFormat, &r).is_some());
    // falls back to the date part of the pipeline timestamp
    r.metadata = FieldMap::new();
    assert!(run_check(RuleCheck::DatePartitionFormat, &r).is_none());
}

#[test]
fn ops_per_tx_message_has_one_decimal() {
    let mut r = good_record(3);
    set_payload(&mut r, "avg_ops_per_tx", number(150.75));
    let out = run_check(RuleCheck::OpsPerTxSanity, &r);
    assert_eq!(
        out,
        Some((
            "avg_ops_per_tx".to_string(),
            "Unusually high ops/tx: 150.8".to_string()
        ))
    );
    set_payload(&mut r, "avg_ops_per_tx", number(100.0));
    assert!(run_check(RuleCheck::OpsPerTxSanity, &r).is_none());
}

#[test]
fn custom_rule_is_applied() {
    let mut engine = DataQualityEngine::with_default_rules();
    engine.add_rule(ValidationRule::new(
        "sequence_again",
        Severity::Info,
        RuleCheck::PositiveSequence,
    ));
    let mut r = good_record(0);
    r.ledger_seq = None;
    let violations = engine.validate(&r);
    let names: Vec<&str> = violations.iter().map(|v| v.rule_name.as_str()).collect();
    assert_eq!(names, vec!["positive_sequence", "sequence_again"]);
    assert_eq!(violations[1].severity, Severity::Info);
    assert_eq!(violations[1].record_sequence, 0);
}

#[test]
fn tally_counts_failures_by_rule() {
    let engine = DataQualityEngine::with_default_rules();
    let mut bad = good_record(0);
    set_payload(&mut bad, "tx_success_rate", number(3.0));
    let records = vec![good_record(1), bad, good_record(2)];
    let tally = engine.tally_batch(&records);
    assert_eq!(tally.total_records, 3);
    assert_eq!(tally.passed, 2);
    assert_eq!(tally.failed, 1);
    assert_eq!(tally.violations.len(), 2);
    assert!(tally.has_critical());
    assert_eq!(
        tally.violation_counts_by_rule.get("positive_sequence"),
        Some(&1)
    );
    assert_eq!(
        tally.violation_counts_by_rule.get("valid_success_rate"),
        Some(&1)
    );
    assert_eq!(tally.violation_counts_by_rule.get("min_base_fee"), None);

    let clean = engine.tally_batch(&[good_record(9)]);
    assert!(!clean.has_critical());
}
