use bitcoin_exporter::encoder::{encode, format_type, u64_to_string};
use bitcoin_exporter::registry::{MetricKind, Registry, Value};

#[test]
fn decimal_rendering_is_exact() {
    assert_eq!(u64_to_string(0), "0");
    assert_eq!(u64_to_string(7), "7");
    assert_eq!(u64_to_string(10), "10");
    assert_eq!(u64_to_string(800000), "800000");
    assert_eq!(u64_to_string(u64::MAX), "18446744073709551615");
}

#[test]
fn empty_registry_encodes_to_nothing() {
    let r = Registry::new();
    assert_eq!(encode(&r), "");
}

#[test]
fn unlabeled_gauge_family_block() {
    let mut r = Registry::new();
    r.register("bitcoin_blocks".to_owned(), "Block height".to_owned(), MetricKind::Gauge, Vec::new())
        .unwrap();
    r.set(0, Vec::new(), Value::Int(800000));
    assert_eq!(
        encode(&r),
        "# HELP bitcoin_blocks Block height\n# TYPE bitcoin_blocks gauge\nbitcoin_blocks 800000\n"
    );
}

#[test]
fn counter_family_block() {
    let mut r = Registry::new();
    r.register("c_total".to_owned(), "Counted".to_owned(), MetricKind::Counter, Vec::new())
        .unwrap();
    r.inc(0, 5);
    assert_eq!(encode(&r), "# HELP c_total Counted\n# TYPE c_total counter\nc_total 5\n");
}

#[test]
fn labeled_samples_keep_insertion_order() {
    let mut r = Registry::new();
    r.register(
        "g".to_owned(),
        "help".to_owned(),
        MetricKind::Gauge,
        vec!["address".to_owned(), "reason".to_owned()],
    )
    .unwrap();
    r.set(0, vec!["a".to_owned(), "x".to_owned()], Value::Int(1));
    r.set(0, vec!["b".to_owned(), "y".to_owned()], Value::Int(2));
    assert_eq!(
        encode(&r),
        "# HELP g help\n# TYPE g gauge\ng{address=\"a\",reason=\"x\"} 1\ng{address=\"b\",reason=\"y\"} 2\n"
    );
}

#[test]
fn label_values_are_escaped() {
    let mut r = Registry::new();
    r.register("g".to_owned(), "help".to_owned(), MetricKind::Gauge, vec!["k".to_owned()])
        .unwrap();
    r.set(0, vec!["a\\b\"c\nd".to_owned()], Value::Int(1));
    assert_eq!(encode(&r), "# HELP g help\n# TYPE g gauge\ng{k=\"a\\\\b\\\"c\\nd\"} 1\n");
}

#[test]
fn help_text_is_escaped() {
    let mut r = Registry::new();
    r.register("g".to_owned(), "line\nbreak \\ slash".to_owned(), MetricKind::Gauge, Vec::new())
        .unwrap();
    assert_eq!(encode(&r), "# HELP g line\\nbreak \\\\ slash\n# TYPE g gauge\ng 0\n");
}

#[test]
fn rendered_values_pass_through_verbatim() {
    let mut r = Registry::new();
    r.register("g".to_owned(), "help".to_owned(), MetricKind::Gauge, Vec::new())
        .unwrap();
    r.set(0, Vec::new(), Value::Text("55000000000000".to_owned()));
    assert_eq!(encode(&r), "# HELP g help\n# TYPE g gauge\ng 55000000000000\n");
}

#[test]
fn exposition_content_type() {
    assert_eq!(format_type(), "text/plain; version=0.0.4");
}
