//! Settings of the metrics endpoint.

use vstd::prelude::*;
use vstd::std_specs::convert::FromSpecImpl;

use crate::utils::decimal::{parse_decimal, ParseIntError};
use crate::utils::from_env::{
    infos, lookup, Bindings, Env, EnvItemInfo, FromEnv, FromEnvErr, FromEnvVar,
    ItemInfo, VarError,
};

verus! {

/// The variable that holds the port of the metrics endpoint.
pub const TRACING_METRICS_PORT: &'static str = "TRACING_METRICS_PORT";

/// The port that is taken where the variable gives none.
pub const DEFAULT_METRICS_PORT: u16 = 9000;

/// Settings of the metrics endpoint: the port on which it is served.
///
/// The port is read from `TRACING_METRICS_PORT`, and is 9000 where that
/// variable is missing or holds no port number.
#[derive(Debug, Clone, Copy, PartialEq, Eq, Structural)]
#[non_exhaustive]
pub struct MetricsConfig {
    /// The port on which the metrics are served.
    pub port: u16,
}

impl Default for MetricsConfig {
    fn default() -> (cfg: Self)
        ensures
            cfg.port == DEFAULT_METRICS_PORT,
    {
        MetricsConfig { port: DEFAULT_METRICS_PORT }
    }
}

impl From<Option<u16>> for MetricsConfig {
    fn from(port: Option<u16>) -> (cfg: Self) {
        match port {
            Some(port) => MetricsConfig { port },
            None => MetricsConfig { port: DEFAULT_METRICS_PORT },
        }
    }
}

impl FromSpecImpl<Option<u16>> for MetricsConfig {
    open spec fn obeys_from_spec() -> bool {
        true
    }

    open spec fn from_spec(port: Option<u16>) -> Self {
        match port {
            Some(port) => MetricsConfig { port },
            None => MetricsConfig { port: DEFAULT_METRICS_PORT },
        }
    }
}

impl From<u16> for MetricsConfig {
    fn from(port: u16) -> (cfg: Self) {
        MetricsConfig { port }
    }
}

impl FromSpecImpl<u16> for MetricsConfig {
    open spec fn obeys_from_spec() -> bool {
        true
    }

    open spec fn from_spec(port: u16) -> Self {
        MetricsConfig { port }
    }
}

/// The port that the variable gives: the number it holds where that is a
/// port number, and 9000 otherwise.
pub open spec fn metrics_port(found: Result<Seq<char>, VarError>) -> u16 {
    match found {
        Ok(text) => match parse_decimal(text, 0, u16::MAX as int) {
            Ok(port) => port as u16,
            Err(_) => DEFAULT_METRICS_PORT,
        },
        Err(_) => DEFAULT_METRICS_PORT,
    }
}

impl FromEnv for MetricsConfig {
    type Error = ParseIntError;

    open spec fn spec_inventory() -> Seq<ItemInfo> {
        seq![
            ItemInfo {
                var: TRACING_METRICS_PORT@,
                description: "Port on which to serve metrics, u16, defaults to 9000"@,
                optional: true,
            },
        ]
    }

    /// The load never fails.
    open spec fn loads(bindings: Bindings, r: Result<Self, FromEnvErr<ParseIntError>>) -> bool {
        r == Ok::<Self, FromEnvErr<ParseIntError>>(
            MetricsConfig { port: metrics_port(lookup(bindings, TRACING_METRICS_PORT@)) },
        )
    }

    proof fn lemma_loads_reads_inventory(
        first: Bindings,
        second: Bindings,
        r: Result<Self, FromEnvErr<ParseIntError>>,
    ) {
        assert(Self::spec_inventory()[0].var == TRACING_METRICS_PORT@);
    }

    proof fn lemma_inventory_is_described() {
        reveal_strlit("TRACING_METRICS_PORT");
        reveal_strlit("Port on which to serve metrics, u16, defaults to 9000");
    }

    fn inventory() -> (items: Vec<EnvItemInfo>) {
        let mut items: Vec<EnvItemInfo> = Vec::new();
        items.push(
            EnvItemInfo {
                var: TRACING_METRICS_PORT,
                description: "Port on which to serve metrics, u16, defaults to 9000",
                optional: true,
            },
        );
        assert(infos(items@) =~= Self::spec_inventory());
        items
    }

    fn from_env(env: &Env) -> (r: Result<Self, FromEnvErr<ParseIntError>>) {
        match u16::from_env_var(env, TRACING_METRICS_PORT) {
            Ok(port) => Ok(MetricsConfig::from(port)),
            Err(_) => Ok(MetricsConfig::default()),
        }
    }
}

/// Where the metrics endpoint listens.
#[derive(Debug, Clone, Copy, PartialEq, Eq)]
pub struct MetricsListener {
    /// The IPv4 address to bind.
    pub address: [u8; 4],
    /// The port to bind.
    pub port: u16,
}

/// Decides where the metrics endpoint listens: on every interface, at the
/// port that [`MetricsConfig`] loads.
pub fn init_metrics(env: &Env) -> (listener: MetricsListener)
    ensures
        listener.address@ == seq![0u8, 0u8, 0u8, 0u8],
        listener.port == metrics_port(lookup(env@, TRACING_METRICS_PORT@)),
{
    let port = match MetricsConfig::from_env(env) {
        Ok(cfg) => cfg.port,
        Err(_) => DEFAULT_METRICS_PORT,
    };
    let address: [u8; 4] = [0, 0, 0, 0];
    assert(address@ =~= seq![0u8, 0u8, 0u8, 0u8]);
    MetricsListener { address, port }
}

} // verus!
