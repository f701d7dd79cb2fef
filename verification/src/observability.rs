//! Which logging and tracing settings the bindings start the runtime's
//! observability with.
use vstd::prelude::*;
use vstd::string::*;

verus! {

/// Logging and tracing settings.
#[derive(Debug)]
pub struct ObservabilityConfig {
    /// Log filter, such as `info` or `info,webrtc=debug`.
    pub filter_level: String,
    pub tracing_enabled: bool,
    pub tracing_endpoint: String,
    /// Service name reported to the tracing backend.
    pub tracing_service_name: String,
}

/// The settings used when the caller gives none: the log filter from `RUST_LOG`
/// (`info` when it is unset), tracing off, no endpoint, and the service name of
/// the Python runtime.
pub open spec fn is_default_config(c: ObservabilityConfig, rust_log: Option<String>) -> bool {
    &&& c.filter_level@ == (match rust_log {
        Some(level) => level@,
        None => "info"@,
    })
    &&& !c.tracing_enabled
    &&& c.tracing_endpoint@ == Seq::<char>::empty()
    &&& c.tracing_service_name@ == "actr-runtime-py"@
}

/// With no settings given, the log filter is `RUST_LOG` passed through whole,
/// whatever directives it lists; only when `RUST_LOG` is unset is it `info`.
/// Tracing stays off.
pub proof fn lemma_default_filter_is_rust_log(c: ObservabilityConfig, rust_log: Option<String>)
    requires
        is_default_config(c, rust_log),
    ensures
        rust_log matches Some(level) ==> c.filter_level@ == level@,
        rust_log is None ==> c.filter_level@ == "info"@,
        !c.tracing_enabled,
{
}

/// The settings used when the caller gives none; `rust_log` is the value of the
/// `RUST_LOG` environment variable, if it is set.
pub fn default_observability_config(rust_log: Option<String>) -> (c: ObservabilityConfig)
    ensures
        is_default_config(c, rust_log),
        match rust_log {
            Some(level) => c.filter_level@ == level@,
            None => c.filter_level@ == "info"@,
        },
        !c.tracing_enabled,
        c.tracing_endpoint@.len() == 0,
        c.tracing_service_name@ == "actr-runtime-py"@,
{
    let filter_level = match rust_log {
        Some(level) => level,
        None => String::from_str("info"),
    };
    ObservabilityConfig {
        filter_level,
        tracing_enabled: false,
        tracing_endpoint: String::new(),
        tracing_service_name: String::from_str("actr-runtime-py"),
    }
}

/// The settings that observability starts with: the caller's, else the defaults.
pub fn resolve_observability_config(
    config: Option<ObservabilityConfig>,
    rust_log: Option<String>,
) -> (c: ObservabilityConfig)
    ensures
        match config {
            Some(given) => c == given,
            None => is_default_config(c, rust_log),
        },
        config is None ==> match rust_log {
            Some(level) => c.filter_level@ == level@,
            None => c.filter_level@ == "info"@,
        },
{
    match config {
        Some(given) => given,
        None => default_observability_config(rust_log),
    }
}

} // verus!
