//! Settings of the trace exporter.

use vstd::prelude::*;
use vstd::std_specs::convert::FromSpecImpl;
use vstd::string::StringExecFns;

use crate::utils::decimal::parse_decimal;
use crate::utils::from_env::{
    infos, is_absent, lookup, Bindings, Env, EnvItemInfo, FromEnv, FromEnvErr,
    FromEnvVar, ItemInfo, Millis, VarError,
};
use crate::utils::level::{level_of, Level};
use crate::utils::url::{Url, UrlParseError};

verus! {

/// The variable that holds the endpoint to send traces to.
pub const OTEL_ENDPOINT: &'static str = "OTEL_EXPORTER_OTLP_ENDPOINT";

/// The variable that holds the least urgent level to export.
pub const OTEL_LEVEL: &'static str = "OTEL_LEVEL";

/// The variable that holds the exporter's timeout in milliseconds.
pub const OTEL_TIMEOUT: &'static str = "OTEL_TIMEOUT";

/// The variable that holds the name of the deployment environment.
pub const OTEL_ENVIRONMENT: &'static str = "OTEL_ENVIRONMENT_NAME";

/// The timeout that is taken where the variable gives none.
pub const DEFAULT_TIMEOUT_MILLIS: u64 = 1000;

/// The failure to read the name of an export protocol.
#[derive(Debug, Clone, PartialEq, Eq)]
pub struct OtlpParseError(pub String);

impl View for OtlpParseError {
    type V = Seq<char>;

    open spec fn view(&self) -> Seq<char> {
        self.0@
    }
}

impl From<String> for OtlpParseError {
    fn from(s: String) -> (e: Self) {
        OtlpParseError(s)
    }
}

impl FromSpecImpl<String> for OtlpParseError {
    open spec fn obeys_from_spec() -> bool {
        true
    }

    open spec fn from_spec(s: String) -> Self {
        OtlpParseError(s)
    }
}

impl OtlpParseError {
    /// The message of the failure: a fixed introduction, then the text that
    /// was no protocol.
    pub fn message(&self) -> (text: String)
        ensures
            text@ == "invalid OTLP protocol: "@ + self@,
    {
        let intro = String::from_str("invalid OTLP protocol: ");
        intro.concat(self.0.as_str())
    }
}

/// Settings of the trace exporter.
///
/// They are read from four variables, none of which is required:
/// - `OTEL_EXPORTER_OTLP_ENDPOINT`: the endpoint to send traces to, a URL.
///   Where it is missing the load fails, and nothing is exported.
/// - `OTEL_LEVEL`: the least urgent level to export; `DEBUG` where the
///   variable gives none.
/// - `OTEL_TIMEOUT`: the exporter's timeout in milliseconds; 1000 where the
///   variable gives none.
/// - `OTEL_ENVIRONMENT_NAME`: the name of the deployment environment;
///   `unknown` where the variable gives none.
#[derive(Debug, Clone)]
#[non_exhaustive]
pub struct OtelConfig {
    /// The endpoint to send traces to.
    pub endpoint: Url,
    /// The least urgent level to export.
    pub level: Level,
    /// The exporter's timeout.
    pub timeout: Millis,
    /// The name of the deployment environment.
    pub environment: String,
}

/// The level that the variable gives, and `DEBUG` where it is missing,
/// blank or names no level.
pub open spec fn export_level(found: Result<Seq<char>, VarError>) -> Level {
    if is_absent(found) {
        Level::Debug
    } else {
        match level_of(found->Ok_0) {
            Ok(level) => level,
            Err(_) => Level::Debug,
        }
    }
}

/// The timeout that the variable gives, and one second where it gives none.
pub open spec fn export_timeout(found: Result<Seq<char>, VarError>) -> Millis {
    match found {
        Ok(text) => match parse_decimal(text, 0, u64::MAX as int) {
            Ok(ms) => Millis(ms as u64),
            Err(_) => Millis(DEFAULT_TIMEOUT_MILLIS),
        },
        Err(_) => Millis(DEFAULT_TIMEOUT_MILLIS),
    }
}

/// The environment name that the variable gives, and `unknown` where it is
/// missing or blank.
pub open spec fn environment_name(found: Result<Seq<char>, VarError>) -> Seq<char> {
    if is_absent(found) {
        "unknown"@
    } else {
        found->Ok_0
    }
}

impl FromEnv for OtelConfig {
    type Error = UrlParseError;

    open spec fn spec_inventory() -> Seq<ItemInfo> {
        seq![
            ItemInfo {
                var: OTEL_ENDPOINT@,
                description: "OTLP endpoint to send traces to, a url. If missing, disables OTLP exporting."@,
                optional: true,
            },
            ItemInfo {
                var: OTEL_LEVEL@,
                description: "OTLP level to export, defaults to DEBUG. Permissible values are: TRACE, DEBUG, INFO, WARN, ERROR, OFF"@,
                optional: true,
            },
            ItemInfo {
                var: OTEL_TIMEOUT@,
                description: "OTLP timeout in milliseconds"@,
                optional: true,
            },
            ItemInfo {
                var: OTEL_ENVIRONMENT@,
                description: "OTLP environment name, a string"@,
                optional: true,
            },
        ]
    }

    /// The load fails exactly where loading the endpoint fails, and with
    /// that failure; the other three settings fall back to their defaults.
    open spec fn loads(bindings: Bindings, r: Result<Self, FromEnvErr<UrlParseError>>) -> bool {
        match r {
            Ok(cfg) => {
                &&& Url::loads(lookup(bindings, OTEL_ENDPOINT@), OTEL_ENDPOINT@, Ok(cfg.endpoint))
                &&& cfg.level == export_level(lookup(bindings, OTEL_LEVEL@))
                &&& cfg.timeout == export_timeout(lookup(bindings, OTEL_TIMEOUT@))
                &&& cfg.environment@ == environment_name(lookup(bindings, OTEL_ENVIRONMENT@))
            },
            Err(e) => Url::loads(lookup(bindings, OTEL_ENDPOINT@), OTEL_ENDPOINT@, Err(e)),
        }
    }

    proof fn lemma_loads_reads_inventory(
        first: Bindings,
        second: Bindings,
        r: Result<Self, FromEnvErr<UrlParseError>>,
    ) {
        let items = Self::spec_inventory();
        assert(items[0].var == OTEL_ENDPOINT@);
        assert(items[1].var == OTEL_LEVEL@);
        assert(items[2].var == OTEL_TIMEOUT@);
        assert(items[3].var == OTEL_ENVIRONMENT@);
    }

    proof fn lemma_inventory_is_described() {
        reveal_strlit("OTEL_EXPORTER_OTLP_ENDPOINT");
        reveal_strlit("OTEL_LEVEL");
        reveal_strlit("OTEL_TIMEOUT");
        reveal_strlit("OTEL_ENVIRONMENT_NAME");
        reveal_strlit(
            "OTLP endpoint to send traces to, a url. If missing, disables OTLP exporting.",
        );
        reveal_strlit(
            "OTLP level to export, defaults to DEBUG. Permissible values are: TRACE, DEBUG, INFO, WARN, ERROR, OFF",
        );
        reveal_strlit("OTLP timeout in milliseconds");
        reveal_strlit("OTLP environment name, a string");
    }

    fn inventory() -> (items: Vec<EnvItemInfo>) {
        let mut items: Vec<EnvItemInfo> = Vec::new();
        items.push(
            EnvItemInfo {
                var: OTEL_ENDPOINT,
                description: "OTLP endpoint to send traces to, a url. If missing, disables OTLP exporting.",
                optional: true,
            },
        );
        items.push(
            EnvItemInfo {
                var: OTEL_LEVEL,
                description: "OTLP level to export, defaults to DEBUG. Permissible values are: TRACE, DEBUG, INFO, WARN, ERROR, OFF",
                optional: true,
            },
        );
        items.push(
            EnvItemInfo {
                var: OTEL_TIMEOUT,
                description: "OTLP timeout in milliseconds",
                optional: true,
            },
        );
        items.push(
            EnvItemInfo {
                var: OTEL_ENVIRONMENT,
                description: "OTLP environment name, a string",
                optional: true,
            },
        );
        assert(infos(items@) =~= Self::spec_inventory());
        items
    }

    fn from_env(env: &Env) -> (r: Result<Self, FromEnvErr<UrlParseError>>) {
        let endpoint = match Url::from_env_var(env, OTEL_ENDPOINT) {
            Ok(endpoint) => endpoint,
            Err(e) => {
                return Err(e);
            },
        };
        let level = match Level::from_env_var(env, OTEL_LEVEL) {
            Ok(level) => level,
            Err(_) => Level::Debug,
        };
        let timeout = match Millis::from_env_var(env, OTEL_TIMEOUT) {
            Ok(timeout) => timeout,
            Err(_) => Millis(DEFAULT_TIMEOUT_MILLIS),
        };
        let environment = match String::from_env_var(env, OTEL_ENVIRONMENT) {
            Ok(environment) => environment,
            Err(_) => String::from_str("unknown"),
        };
        Ok(OtelConfig { endpoint, level, timeout, environment })
    }
}

impl OtelConfig {
    /// Loads the settings, or `None` where the load fails: where the endpoint
    /// is missing, blank or no URL.
    pub fn load(env: &Env) -> (cfg: Option<Self>)
        ensures
            match cfg {
                Some(cfg) => Self::loads(env@, Ok(cfg)),
                None => exists|e: FromEnvErr<UrlParseError>| #[trigger] Self::loads(env@, Err(e)),
            },
    {
        match Self::from_env(env) {
            Ok(cfg) => Some(cfg),
            Err(_) => None,
        }
    }
}

} // verus!
