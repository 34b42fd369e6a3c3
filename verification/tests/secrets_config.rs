//! Secrets gate, configuration snapshot, error classifier, log mapping.

use wasmbus_handler::errors::InvocationErrorKind;
use wasmbus_handler::errors::TransportFailure;
use wasmbus_handler::errors::classify_invocation_error;
use wasmbus_handler::handler::Handler;
use wasmbus_handler::logging::LogLevel;
use wasmbus_handler::logging::LogSeverity;
use wasmbus_handler::logging::log_level_label;
use wasmbus_handler::logging::log_severity;
use wasmbus_handler::secrets::SecretHandle;
use wasmbus_handler::secrets::SecretValue;
use wasmbus_handler::secrets::SecretsError;

fn handler() -> Handler {
    Handler::new("component-1".to_string(), "lattice-a".to_string(), 2000)
}

#[test]
fn get_on_unknown_name_is_not_found_never_a_hard_failure() {
    let h = handler();
    let r = h.secrets_get(&"missing".to_string());
    assert_eq!(r.err(), Some(SecretsError::NotFound));
}

#[test]
fn reveal_after_get_is_an_idempotent_read() {
    let mut h = handler();
    h.insert_secret(
        "api-key".to_string(),
        SecretValue::Text("SECRET-REDACTED".to_string()),
    );
    h.insert_secret("blob".to_string(), SecretValue::Binary(vec![0, 255, 7]));

    let handle = h.secrets_get(&"api-key".to_string()).expect("cached");
    let v1 = h.secrets_reveal(&handle).ok().unwrap();
    let v2 = h.secrets_reveal(&handle).ok().unwrap();
    assert_eq!(v1, SecretValue::Text("SECRET-REDACTED".to_string()));
    assert_eq!(v1, v2);

    let handle2 = h.secrets_get(&"blob".to_string()).expect("cached");
    assert_eq!(h.secrets_reveal(&handle2).ok(), Some(SecretValue::Binary(vec![0, 255, 7])));
}

#[test]
fn reveal_on_uncached_name_is_a_hard_failure() {
    let h = handler();
    let stray = SecretHandle::new("never-declared".to_string());
    let e = h.secrets_reveal(&stray).err().unwrap();
    assert_eq!(e.name().as_str(), "never-declared");
    assert_eq!(
        e.message(),
        "secret not found to reveal, ensure the secret is declared and associated with this \
         component at startup"
    );
}

#[test]
fn secrets_survive_instance_copies() {
    let mut h = handler();
    h.insert_secret("token".to_string(), SecretValue::Text("t".to_string()));
    let h2 = h.copy_for_new();
    let handle = h2.secrets_get(&"token".to_string()).expect("carried over");
    assert_eq!(h2.secrets_reveal(&handle).ok(), Some(SecretValue::Text("t".to_string())));
}

#[test]
fn config_reads_return_the_snapshot() {
    let mut h = handler();
    assert_eq!(h.config_get(&"retries".to_string()), None);
    h.insert_config("retries".to_string(), "3".to_string());
    h.insert_config("mode".to_string(), "fast".to_string());
    h.insert_config("retries".to_string(), "5".to_string());
    assert_eq!(h.config_get(&"retries".to_string()), Some("5".to_string()));
    assert_eq!(h.config_get(&"mode".to_string()), Some("fast".to_string()));

    let mut all = h.config_get_all();
    all.sort();
    assert_eq!(
        all,
        vec![
            ("mode".to_string(), "fast".to_string()),
            ("retries".to_string(), "5".to_string()),
        ]
    );
}

#[test]
fn not_connected_classifies_as_not_found_everything_else_as_trap() {
    assert_eq!(
        classify_invocation_error(&TransportFailure::NotConnected),
        InvocationErrorKind::NotFound
    );
    assert_eq!(classify_invocation_error(&TransportFailure::Other), InvocationErrorKind::Trap);
    let h = handler();
    assert_eq!(
        h.invocation_error_kind(&TransportFailure::NotConnected),
        InvocationErrorKind::NotFound
    );
}

#[test]
fn log_levels_map_one_to_one_with_critical_at_error() {
    assert_eq!(log_severity(&LogLevel::Trace), LogSeverity::Trace);
    assert_eq!(log_severity(&LogLevel::Debug), LogSeverity::Debug);
    assert_eq!(log_severity(&LogLevel::Info), LogSeverity::Info);
    assert_eq!(log_severity(&LogLevel::Warn), LogSeverity::Warn);
    assert_eq!(log_severity(&LogLevel::Error), LogSeverity::Error);
    assert_eq!(log_severity(&LogLevel::Critical), LogSeverity::Error);
    assert_eq!(log_level_label(&LogLevel::Critical), "critical");
    assert_eq!(log_level_label(&LogLevel::Warn), "warn");
}
