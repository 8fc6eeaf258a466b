use student_registrator::backend::BackendModel;

fn fresh() -> BackendModel {
    BackendModel { records: Vec::new(), next_id: 0 }
}

#[test]
fn repeated_key_creates_no_second_record() {
    let mut backend = fresh();
    let first = backend.start_provisioning("key-1");
    let second = backend.start_provisioning("key-1");
    assert_eq!(backend.records.len(), 1);
    assert_eq!(first, second);
}

#[test]
fn distinct_keys_create_distinct_records() {
    let mut backend = fresh();
    let a = backend.start_provisioning("key-1");
    let b = backend.start_provisioning("key-2");
    assert_eq!(backend.records.len(), 2);
    assert_ne!(a, b);
}

#[test]
fn record_remembers_its_key() {
    let mut backend = fresh();
    let pid = backend.start_provisioning("key-9");
    assert_eq!(backend.records[0].idempotency_key, "key-9");
    assert_eq!(backend.records[0].provisioning_id, pid);
}
