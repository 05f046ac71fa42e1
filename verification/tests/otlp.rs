use init4_bin_base::utils::from_env::{Env, EnvItemInfo, FromEnv, FromEnvErr, Millis, VarError};
use init4_bin_base::utils::level::Level;
use init4_bin_base::utils::metrics::{init_metrics, MetricsConfig};
use init4_bin_base::utils::otlp::{OtelConfig, OtlpParseError};
use init4_bin_base::utils::tracing::{init_tracing, init_tracing_with_journald};
use init4_bin_base::utils::url::UrlParseError;
use init4_bin_base::{trace, trace_only, trace_with_journald};

const OTEL_ENDPOINT: &str = "OTEL_EXPORTER_OTLP_ENDPOINT";
const OTEL_LEVEL: &str = "OTEL_LEVEL";
const OTEL_TIMEOUT: &str = "OTEL_TIMEOUT";
const OTEL_ENVIRONMENT: &str = "OTEL_ENVIRONMENT_NAME";

const URL: &str = "http://localhost:4317";

#[test]
fn test_env_read() {
    let mut env = Env::new();
    env.set(OTEL_ENDPOINT, URL);

    let cfg = OtelConfig::load(&env).unwrap();
    assert_eq!(cfg.endpoint.as_str(), URL.parse::<url::Url>().unwrap().as_str());
    assert_eq!(cfg.level, Level::Debug);
    assert_eq!(cfg.timeout, Millis(1000));
    assert_eq!(cfg.environment, "unknown");
}

#[test]
fn test_env_read_level() {
    let mut env = Env::new();
    env.set(OTEL_ENDPOINT, URL);
    env.set(OTEL_LEVEL, "WARN");

    let cfg = OtelConfig::load(&env).unwrap();
    assert_eq!(cfg.level, Level::Warn);
}

#[test]
fn test_env_read_timeout() {
    let mut env = Env::new();
    env.set(OTEL_ENDPOINT, URL);
    env.set(OTEL_TIMEOUT, "500");

    let cfg = OtelConfig::load(&env).unwrap();
    assert_eq!(cfg.timeout, Millis(500));
    assert_eq!(
        std::time::Duration::from_millis(cfg.timeout.0),
        std::time::Duration::from_millis(500)
    );
}

#[test]
fn invalid_url() {
    let mut env = Env::new();
    env.set(OTEL_ENDPOINT, "not a url");

    let cfg = OtelConfig::load(&env);
    assert!(cfg.is_none());
}

#[test]
fn exporter_settings_fail_only_on_the_endpoint() {
    let mut env = Env::new();
    assert_eq!(
        OtelConfig::from_env(&env).unwrap_err(),
        FromEnvErr::env_err(OTEL_ENDPOINT, VarError::NotPresent)
    );
    env.set(OTEL_ENDPOINT, "");
    assert_eq!(OtelConfig::from_env(&env).unwrap_err(), FromEnvErr::empty(OTEL_ENDPOINT));
    env.set(OTEL_ENDPOINT, "not a url");
    assert_eq!(
        OtelConfig::from_env(&env).unwrap_err(),
        FromEnvErr::ParseError(UrlParseError::RelativeUrlWithoutBase)
    );
    env.set(OTEL_ENDPOINT, URL);
    env.set(OTEL_LEVEL, "loud");
    env.set(OTEL_TIMEOUT, "soon");
    env.set(OTEL_ENVIRONMENT, "staging");
    let cfg = OtelConfig::from_env(&env).unwrap();
    assert_eq!(cfg.endpoint.as_str(), "http://localhost:4317/");
    assert_eq!(cfg.level, Level::Debug);
    assert_eq!(cfg.timeout, Millis(1000));
    assert_eq!(cfg.environment, "staging");
}

#[test]
fn exporter_inventory_is_all_optional() {
    let items = OtelConfig::inventory();
    let names: Vec<&str> = items.iter().map(|item| item.var).collect();
    assert_eq!(names, vec![OTEL_ENDPOINT, OTEL_LEVEL, OTEL_TIMEOUT, OTEL_ENVIRONMENT]);
    assert!(items.iter().all(|item| item.optional && !item.description.is_empty()));
    assert_eq!(OtelConfig::check_inventory(&Env::new()), Ok(()));
}

#[test]
fn metrics_port_defaults_to_9000() {
    let mut env = Env::new();
    assert_eq!(MetricsConfig::from_env(&env).unwrap().port, 9000);
    assert_eq!(MetricsConfig::default().port, 9000);
    assert_eq!(MetricsConfig::from(None).port, 9000);
    assert_eq!(MetricsConfig::from(Some(1u16)).port, 1);
    assert_eq!(MetricsConfig::from(2u16).port, 2);
    env.set("TRACING_METRICS_PORT", "9100");
    assert_eq!(MetricsConfig::from_env(&env).unwrap().port, 9100);
    env.set("TRACING_METRICS_PORT", "65536");
    assert_eq!(MetricsConfig::from_env(&env).unwrap().port, 9000);
    env.set("TRACING_METRICS_PORT", "");
    assert_eq!(MetricsConfig::from_env(&env).unwrap().port, 9000);
    assert_eq!(
        MetricsConfig::inventory(),
        vec![EnvItemInfo {
            var: "TRACING_METRICS_PORT",
            description: "Port on which to serve metrics, u16, defaults to 9000",
            optional: true,
        }]
    );
}

#[test]
fn metrics_listen_on_every_interface() {
    let mut env = Env::new();
    env.set("TRACING_METRICS_PORT", "9100");
    let listener = init_metrics(&env);
    assert_eq!(listener.address, [0, 0, 0, 0]);
    assert_eq!(listener.port, 9100);
}

#[test]
fn tracing_plan_follows_the_variables() {
    let mut env = Env::new();
    let plan = init_tracing(&env);
    assert!(!plan.journald);
    assert!(plan.otel.is_none());
    assert!(!plan.json);

    env.set("TRACING_LOG_JSON", "");
    assert!(!init_tracing(&env).json);
    env.set("TRACING_LOG_JSON", "false");
    assert!(init_tracing(&env).json);

    env.set(OTEL_ENDPOINT, URL);
    let plan = init_tracing_with_journald(&env);
    assert!(plan.journald);
    assert_eq!(plan.otel.unwrap().endpoint.as_str(), "http://localhost:4317/");
}

#[test]
fn setup_has_metrics_unless_only_tracing_is_asked_for() {
    let mut env = Env::new();
    env.set("TRACING_METRICS_PORT", "9100");
    let setup = trace(&env);
    assert!(!setup.tracing.journald);
    assert_eq!(setup.metrics.unwrap().port, 9100);
    let setup = trace_with_journald(&env);
    assert!(setup.tracing.journald);
    assert_eq!(setup.metrics.unwrap().port, 9100);
    let setup = trace_only(&env);
    assert!(!setup.tracing.journald);
    assert!(setup.metrics.is_none());
}

#[test]
fn protocol_error_message() {
    let e = OtlpParseError::from("grpc2".to_string());
    assert_eq!(e.message(), "invalid OTLP protocol: grpc2");
}
