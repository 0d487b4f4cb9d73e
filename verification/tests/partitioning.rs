use stellar_k8s::data_pipeline::etl::{EtlRecord, FieldMap, PayloadValue};
use stellar_k8s::data_pipeline::partitioning::{PartitionKey, PartitionStrategy};

fn make_record(seq: u64, date: &str, hour: u32) -> EtlRecord {
    let mut metadata = FieldMap::new();
    metadata.insert("date_partition".to_string(), date.to_string());
    let mut payload = FieldMap::new();
    payload.insert("hash".to_string(), PayloadValue::Text(format!("h{seq}")));
    payload.insert(
        "ledger_size_category".to_string(),
        PayloadValue::Text("small".to_string()),
    );
    EtlRecord {
        id: format!("test-{seq}"),
        source_topic: "ledger".into(),
        partition: 0,
        offset: seq as i64,
        payload,
        metadata,
        pipeline_ts: format!("{date}T{hour:02}:00:00Z"),
        ledger_seq: Some(seq),
    }
}

#[test]
fn test_by_date_key() {
    let strategy = PartitionStrategy::ByDate;
    let record = make_record(1, "2024-06-15", 10);
    let key = strategy.compute_key(&record);
    assert_eq!(key.value, "2024/06/15");
}

#[test]
fn test_by_date_hour_key() {
    let strategy = PartitionStrategy::ByDateHour;
    let record = make_record(1, "2024-06-15", 9);
    let key = strategy.compute_key(&record);
    assert_eq!(key.value, "2024/06/15/09");
}

#[test]
fn test_ledger_range_bucket() {
    let strategy = PartitionStrategy::ByLedgerRange { bucket_size: 1000 };
    let record = make_record(1500, "2024-01-01", 0);
    let key = strategy.compute_key(&record);
    assert_eq!(key.value, "0000001000-0000001999");
}

#[test]
fn test_group_by_date() {
    let strategy = PartitionStrategy::ByDate;
    let records = vec![
        make_record(1, "2024-01-01", 0),
        make_record(2, "2024-01-01", 12),
        make_record(3, "2024-01-02", 0),
    ];
    let groups = strategy.group(&records);
    assert_eq!(groups.len(), 2);
}

#[test]
fn strategy_names_in_keys() {
    let record = make_record(7, "2024-03-04", 5);
    assert_eq!(PartitionStrategy::ByDate.compute_key(&record).strategy, "bydate");
    assert_eq!(
        PartitionStrategy::ByDateHour.compute_key(&record).strategy,
        "bydatehour"
    );
    assert_eq!(
        PartitionStrategy::ByLedgerRange { bucket_size: 10 }
            .compute_key(&record)
            .strategy,
        "byledgerrange"
    );
    assert_eq!(
        PartitionStrategy::BySizeCategory.compute_key(&record).strategy,
        "bysizecategory"
    );
}

#[test]
fn size_category_prefers_metadata() {
    let mut record = make_record(1, "2024-01-01", 0);
    let key = PartitionStrategy::BySizeCategory.compute_key(&record);
    assert_eq!(key.value, "small");
    record
        .metadata
        .insert("size_category".to_string(), "LARGE".to_string());
    let key = PartitionStrategy::BySizeCategory.compute_key(&record);
    assert_eq!(key.value, "large");
}

#[test]
fn size_category_unknown_when_absent() {
    let mut record = make_record(1, "2024-01-01", 0);
    record.payload = FieldMap::new();
    let key = PartitionStrategy::BySizeCategory.compute_key(&record);
    assert_eq!(key.value, "unknown");
}

#[test]
fn date_hour_defaults_to_zero() {
    let mut record = make_record(1, "2024-06-15", 9);
    record.pipeline_ts = "2024-06-15".to_string();
    let key = PartitionStrategy::ByDateHour.compute_key(&record);
    assert_eq!(key.value, "2024/06/15/00");
    record.pipeline_ts = "2024-06-15Tnoon".to_string();
    let key = PartitionStrategy::ByDateHour.compute_key(&record);
    assert_eq!(key.value, "2024/06/15/00");
}

#[test]
fn ledger_range_without_sequence_is_first_bucket() {
    let mut record = make_record(1, "2024-06-15", 9);
    record.ledger_seq = None;
    let key = PartitionStrategy::ByLedgerRange { bucket_size: 100 }.compute_key(&record);
    assert_eq!(key.value, "0000000000-0000000099");
}

#[test]
fn storage_path_replaces_colons() {
    let key = PartitionKey {
        strategy: "bydate".to_string(),
        value: "2024:06:15".to_string(),
    };
    assert_eq!(key.storage_path(), "bydate/2024/06/15");
}

#[test]
fn groups_keep_order_and_members() {
    let strategy = PartitionStrategy::ByDate;
    let records = vec![
        make_record(1, "2024-01-02", 0),
        make_record(2, "2024-01-01", 12),
        make_record(3, "2024-01-02", 5),
    ];
    let groups = strategy.group(&records);
    assert_eq!(groups.len(), 2);
    assert_eq!(groups[0].0.value, "2024/01/02");
    assert_eq!(groups[0].1.len(), 2);
    assert_eq!(groups[0].1[0].id, "test-1");
    assert_eq!(groups[0].1[1].id, "test-3");
    assert_eq!(groups[1].0.value, "2024/01/01");
    assert_eq!(groups[1].1.len(), 1);
    let total: usize = groups.iter().map(|g| g.1.len()).sum();
    assert_eq!(total, records.len());
}
