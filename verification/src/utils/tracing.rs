//! What the tracing setup installs.

use vstd::prelude::*;

use crate::utils::from_env::{is_absent, lookup, Bindings, Env, FromEnv, FromEnvErr, FromEnvVar};
use crate::utils::otlp::OtelConfig;
use crate::utils::url::UrlParseError;

verus! {

/// The variable that, when it is bound and not blank, asks for logs in JSON.
pub const TRACING_LOG_JSON: &'static str = "TRACING_LOG_JSON";

/// What the tracing setup installs: whether a journal layer comes first,
/// the trace exporter's settings where traces are exported, and the format
/// of the log lines.
#[derive(Debug, Clone)]
pub struct TracingPlan {
    /// Whether a layer that writes to the system journal is installed.
    pub journald: bool,
    /// The settings of the trace exporter; `None` where nothing is exported.
    pub otel: Option<OtelConfig>,
    /// Whether log lines are written as JSON.
    pub json: bool,
}

/// Whether `plan` is what the variables of `bindings` ask for.
pub open spec fn plans(bindings: Bindings, journald: bool, plan: TracingPlan) -> bool {
    &&& plan.journald == journald
    &&& plan.json == !is_absent(lookup(bindings, TRACING_LOG_JSON@))
    &&& match plan.otel {
        Some(cfg) => OtelConfig::loads(bindings, Ok(cfg)),
        None => exists|e: FromEnvErr<UrlParseError>| #[trigger] OtelConfig::loads(bindings, Err(e)),
    }
}

/// Reads the exporter's settings and the log format.
fn plan_tracing(env: &Env, journald: bool) -> (plan: TracingPlan)
    ensures
        plans(env@, journald, plan),
{
    let otel = OtelConfig::load(env);
    let json = match bool::from_env_var(env, TRACING_LOG_JSON) {
        Ok(json) => json,
        Err(_) => false,
    };
    TracingPlan { journald, otel, json }
}

/// Decides what the tracing setup installs: the trace exporter where its
/// settings load, and log lines in JSON where `TRACING_LOG_JSON` asks for
/// them.
pub fn init_tracing(env: &Env) -> (plan: TracingPlan)
    ensures
        plans(env@, false, plan),
{
    plan_tracing(env, false)
}

/// Decides what the tracing setup installs, with a layer that writes to the
/// system journal.
pub fn init_tracing_with_journald(env: &Env) -> (plan: TracingPlan)
    ensures
        plans(env@, true, plan),
{
    plan_tracing(env, true)
}

} // verus!
