//! Metrics. This build collects none, so there is nothing to register.
use vstd::prelude::*;

verus! {

/// Registers the bot's metrics with the metrics registry. No metrics are
/// collected in this build, so it registers nothing and cannot fail.
pub fn register_custom_metrics() {
}

} // verus!
