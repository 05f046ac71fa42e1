//! Typed configuration loaded from named string variables, and the settings
//! of tracing and metrics that are loaded this way.
//!
//! Every load reads a table of variables, an [`utils::from_env::Env`], that
//! the caller hands in; the library reads nothing else. A value is read
//! from one variable ([`utils::from_env::FromEnvVar`]) or put together from
//! several loads ([`utils::from_env::FromEnv`]), and a load fails with the
//! variable that was missing or blank, or with the error of the part that
//! did not parse ([`utils::from_env::FromEnvErr`]).
//!
//! A structure can also be loaded from the description of its fields
//! ([`derive`]): the description lists the inventory of variables, checks
//! which required ones are missing, and loads the fields in order up to the
//! first that fails. What holds of every such structure is proved in
//! [`derive::laws`].
//!
//! [`trace`], [`trace_with_journald`] and [`trace_only`] decide, from the
//! table of variables, what starting up installs.

use vstd::prelude::*;

pub mod derive;
pub mod utils;

use crate::utils::from_env::{lookup, Env};
use crate::utils::metrics::{init_metrics, metrics_port, MetricsListener, TRACING_METRICS_PORT};
use crate::utils::tracing::{init_tracing, init_tracing_with_journald, plans, TracingPlan};

verus! {

/// What starting up installs: the tracing layers, and the metrics endpoint
/// where there is one.
#[derive(Debug, Clone)]
pub struct Setup {
    /// What the tracing setup installs.
    pub tracing: TracingPlan,
    /// Where the metrics endpoint listens; `None` where none is served.
    pub metrics: Option<MetricsListener>,
}

/// Whether the metrics endpoint of `setup` is the one that the variables of
/// `env` ask for.
pub open spec fn serves_metrics(env: &Env, setup: Setup) -> bool {
    &&& setup.metrics matches Some(listener)
    &&& listener.address@ == seq![0u8, 0u8, 0u8, 0u8]
    &&& listener.port == metrics_port(lookup(env@, TRACING_METRICS_PORT@))
}

/// Decides what starting up installs: tracing, with the trace exporter
/// where its settings load, and the metrics endpoint.
pub fn trace(env: &Env) -> (setup: Setup)
    ensures
        plans(env@, false, setup.tracing),
        serves_metrics(env, setup),
{
    let tracing = init_tracing(env);
    let metrics = init_metrics(env);
    Setup { tracing, metrics: Some(metrics) }
}

/// Decides what starting up installs: tracing with a layer that writes to
/// the system journal, and the metrics endpoint.
pub fn trace_with_journald(env: &Env) -> (setup: Setup)
    ensures
        plans(env@, true, setup.tracing),
        serves_metrics(env, setup),
{
    let tracing = init_tracing_with_journald(env);
    let metrics = init_metrics(env);
    Setup { tracing, metrics: Some(metrics) }
}

/// Decides what starting up installs where only tracing is wanted: no
/// metrics endpoint.
pub fn trace_only(env: &Env) -> (setup: Setup)
    ensures
        plans(env@, false, setup.tracing),
        setup.metrics is None,
{
    Setup { tracing: init_tracing(env), metrics: None }
}

} // verus!
