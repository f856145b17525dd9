use kafka_gateway::client::client_config;
use kafka_gateway::settings::{listen_address, lookup_var, ProducerSettings};

fn vars(pairs: &[(&str, &str)]) -> Vec<(String, String)> {
    pairs.iter().map(|(k, v)| (k.to_string(), v.to_string())).collect()
}

#[test]
fn empty_environment_gives_defaults() {
    let s = ProducerSettings::from_vars(&vars(&[])).ok().unwrap();
    assert_eq!(s.bootstrap_servers, "127.0.0.1:9092");
    assert_eq!(s.security_protocol, "PLAINTEXT");
    assert_eq!(s.retry_backoff_ms, 100);
    assert_eq!(s.metadata_max_age_ms, 300000);
    assert_eq!(s.request_timeout_ms, 40000);
    assert_eq!(s.connections_max_idle_ms, 540000);
    assert_eq!(s.acks, "1");
    assert_eq!(s.enable_idempotence, 0);
    assert_eq!(s.transactional_id, None);
    assert_eq!(s.client_id, None);
    assert_eq!(s.compression_type, "none");
    assert_eq!(s.max_batch_size, 16384);
    assert_eq!(s.max_request_size, 504857600);
    assert_eq!(s.linger_ms, 0);
    assert_eq!(s.send_backoff_ms, 100);
    assert_eq!(s.transaction_timeout_ms, 60000);
}

#[test]
fn environment_values_override_defaults() {
    let env = vars(&[
        ("KAFKA_BOOTSTRAP_SERVERS", "broker:9093"),
        ("KAFKA_LINGER_MS", "25"),
        ("KAFKA_ENABLE_IDEMPOTENCE", "1"),
        ("KAFKA_TRANSACTIONAL_ID", "tx-1"),
        ("KAFKA_CLIENT_ID_PRODUCER", "gateway"),
        ("UNRELATED", "x"),
    ]);
    let s = ProducerSettings::from_vars(&env).ok().unwrap();
    assert_eq!(s.bootstrap_servers, "broker:9093");
    assert_eq!(s.linger_ms, 25);
    assert_eq!(s.enable_idempotence, 1);
    assert_eq!(s.transactional_id.as_deref(), Some("tx-1"));
    assert_eq!(s.client_id.as_deref(), Some("gateway"));
    assert_eq!(s.acks, "1");
}

#[test]
fn non_numeric_option_is_rejected() {
    let env = vars(&[("KAFKA_REQUEST_TIMEOUT_MS", "abc")]);
    let e = ProducerSettings::from_vars(&env).err().unwrap();
    assert_eq!(e.variable, "KAFKA_REQUEST_TIMEOUT_MS");
    assert_eq!(e.value, "abc");
}

#[test]
fn first_invalid_option_is_reported() {
    let env = vars(&[("KAFKA_LINGER_MS", "soon"), ("KAFKA_RETRY_BACKOFF_MS", "-1")]);
    let e = ProducerSettings::from_vars(&env).err().unwrap();
    assert_eq!(e.variable, "KAFKA_RETRY_BACKOFF_MS");
    assert_eq!(e.value, "-1");
}

#[test]
fn idempotence_out_of_range_is_rejected() {
    let env = vars(&[("KAFKA_ENABLE_IDEMPOTENCE", "2147483648")]);
    let e = ProducerSettings::from_vars(&env).err().unwrap();
    assert_eq!(e.variable, "KAFKA_ENABLE_IDEMPOTENCE");
}

#[test]
fn first_entry_of_a_name_wins() {
    let env = vars(&[("PORT", "1"), ("PORT", "2")]);
    assert_eq!(lookup_var(&env, "PORT").as_deref(), Some("1"));
    assert_eq!(lookup_var(&env, "MISSING"), None);
}

#[test]
fn listen_address_uses_port_or_default() {
    assert_eq!(listen_address(&vars(&[])), "0.0.0.0:5666");
    assert_eq!(listen_address(&vars(&[("PORT", "8080")])), "0.0.0.0:8080");
}

#[test]
fn client_config_holds_default_entries() {
    let s = ProducerSettings::from_vars(&vars(&[])).ok().unwrap();
    let c = client_config(&s);
    assert_eq!(c.get("bootstrap.servers"), Some("127.0.0.1:9092"));
    assert_eq!(c.get("api.version.request"), Some("true"));
    assert_eq!(c.get("security.protocol"), Some("PLAINTEXT"));
    assert_eq!(c.get("metadata.max.age.ms"), Some("300000"));
    assert_eq!(c.get("request.timeout.ms"), Some("40000"));
    assert_eq!(c.get("connections.max.idle.ms"), Some("540000"));
    assert_eq!(c.get("acks"), Some("1"));
    assert_eq!(c.get("enable.idempotence"), Some("0"));
    assert_eq!(c.get("transactional.id"), Some(""));
    assert_eq!(c.get("client.id"), Some(""));
    assert_eq!(c.get("compression.type"), Some("none"));
    assert_eq!(c.get("batch.size"), Some("16384"));
    assert_eq!(c.get("message.max.bytes"), Some("504857600"));
    assert_eq!(c.get("linger.ms"), Some("0"));
    assert_eq!(c.get("retry.backoff.ms"), Some("100"));
    assert_eq!(c.get("transaction.timeout.ms"), Some("60000"));
    assert_eq!(c.get("unknown.key"), None);
}

#[test]
fn send_backoff_sets_retry_backoff_key() {
    let env = vars(&[("KAFKA_RETRY_BACKOFF_MS", "250"), ("KAFKA_SEND_BACKOFF_MS", "750")]);
    let s = ProducerSettings::from_vars(&env).ok().unwrap();
    assert_eq!(s.retry_backoff_ms, 250);
    let c = client_config(&s);
    assert_eq!(c.get("retry.backoff.ms"), Some("750"));
}

#[test]
fn client_config_renders_numbers_and_ids() {
    let env = vars(&[
        ("KAFKA_ENABLE_IDEMPOTENCE", "-3"),
        ("KAFKA_MAX_BATCH_SIZE", "+32768"),
        ("KAFKA_CLIENT_ID_PRODUCER", "gw"),
    ]);
    let s = ProducerSettings::from_vars(&env).ok().unwrap();
    let c = client_config(&s);
    assert_eq!(c.get("enable.idempotence"), Some("-3"));
    assert_eq!(c.get("batch.size"), Some("32768"));
    assert_eq!(c.get("client.id"), Some("gw"));
}
