use bitcoin_exporter::registry::{MetricKind, Registry, RegistryError, Value};

#[test]
fn register_duplicate_name_fails() {
    let mut r = Registry::new();
    let first = r.register(
        "bitcoin_blocks".to_owned(),
        "Block height".to_owned(),
        MetricKind::Gauge,
        Vec::new(),
    );
    assert!(matches!(first, Ok(0)));
    let second = r.register(
        "bitcoin_blocks".to_owned(),
        "Another help".to_owned(),
        MetricKind::Gauge,
        Vec::new(),
    );
    assert!(matches!(second, Err(RegistryError::DuplicateName)));
    assert_eq!(r.len(), 1);
}

#[test]
fn register_distinct_names_yields_stable_handles() {
    let mut r = Registry::new();
    let a = r.register("a_metric".to_owned(), "a".to_owned(), MetricKind::Gauge, Vec::new());
    let b = r.register("b_metric".to_owned(), "b".to_owned(), MetricKind::Counter, Vec::new());
    assert!(matches!(a, Ok(0)));
    assert!(matches!(b, Ok(1)));
    assert_eq!(r.len(), 2);
}

#[test]
fn unlabeled_gauge_starts_at_zero_and_overwrites() {
    let mut r = Registry::new();
    r.register("g".to_owned(), "help".to_owned(), MetricKind::Gauge, Vec::new())
        .unwrap();
    let m = r.metric_at(0);
    assert_eq!(m.samples.len(), 1);
    assert!(matches!(m.samples[0].value, Value::Int(0)));
    r.set(0, Vec::new(), Value::Int(7));
    r.set(0, Vec::new(), Value::Int(9));
    let m = r.metric_at(0);
    assert_eq!(m.samples.len(), 1);
    assert!(matches!(m.samples[0].value, Value::Int(9)));
}

#[test]
fn labeled_gauge_upserts_and_never_removes() {
    let mut r = Registry::new();
    r.register(
        "g".to_owned(),
        "help".to_owned(),
        MetricKind::Gauge,
        vec!["address".to_owned(), "reason".to_owned()],
    )
    .unwrap();
    assert_eq!(r.metric_at(0).samples.len(), 0);
    r.set(0, vec!["1.2.3.4".to_owned(), "manually added".to_owned()], Value::Int(10));
    assert_eq!(r.metric_at(0).samples.len(), 1);
    r.set(0, vec!["5.6.7.8".to_owned(), "manually added".to_owned()], Value::Int(20));
    assert_eq!(r.metric_at(0).samples.len(), 2);
    // a repeated tuple mutates the existing slot instead of adding one
    r.set(0, vec!["1.2.3.4".to_owned(), "manually added".to_owned()], Value::Int(30));
    let m = r.metric_at(0);
    assert_eq!(m.samples.len(), 2);
    assert_eq!(m.samples[0].labels[0], "1.2.3.4");
    assert!(matches!(m.samples[0].value, Value::Int(30)));
    assert_eq!(m.samples[1].labels[0], "5.6.7.8");
    assert!(matches!(m.samples[1].value, Value::Int(20)));
}

#[test]
fn counter_only_grows_and_saturates() {
    let mut r = Registry::new();
    r.register("c".to_owned(), "help".to_owned(), MetricKind::Counter, Vec::new())
        .unwrap();
    r.inc(0, 1);
    r.inc(0, 2);
    assert!(matches!(r.metric_at(0).samples[0].value, Value::Int(3)));
    r.inc(0, u64::MAX);
    assert!(matches!(r.metric_at(0).samples[0].value, Value::Int(u64::MAX)));
    r.inc(0, 1);
    assert!(matches!(r.metric_at(0).samples[0].value, Value::Int(u64::MAX)));
}
