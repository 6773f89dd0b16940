use crack_core::metrics::register_custom_metrics;

#[test]
fn metrics_test() {
    register_custom_metrics();
}
