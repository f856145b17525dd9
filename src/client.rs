//! The broker client's configuration, built from the producer settings.
use vstd::prelude::*;
use vstd::string::*;

use crate::settings::ProducerSettings;
use crate::text::{decimal_text, i32_text, signed_decimal_text, u64_text};
use rdkafka::config::ClientConfig;

verus! {

#[verifier::external_type_specification]
#[verifier::external_body]
pub struct ExClientConfig(ClientConfig);

/// The key and value pairs that a client configuration holds.
pub uninterp spec fn config_entries(c: ClientConfig) -> Map<Seq<char>, Seq<char>>;

/// Relies on `ClientConfig::new`: a configuration with no entries.
pub assume_specification[ ClientConfig::new ]() -> (r: ClientConfig)
    ensures
        config_entries(r) =~= Map::empty(),
;

/// Relies on `ClientConfig::set`: the value is stored under the key, replacing an earlier one.
#[verifier::external_body]
fn set_entry(c: &mut ClientConfig, key: &str, value: &str)
    ensures
        config_entries(*final(c)) == config_entries(*old(c)).insert(key@, value@),
{
    c.set(key, value);
}

pub const BOOTSTRAP_SERVERS_KEY: &'static str = "bootstrap.servers";
pub const API_VERSION_REQUEST_KEY: &'static str = "api.version.request";
pub const SECURITY_PROTOCOL_KEY: &'static str = "security.protocol";
pub const RETRY_BACKOFF_MS_KEY: &'static str = "retry.backoff.ms";
pub const METADATA_MAX_AGE_MS_KEY: &'static str = "metadata.max.age.ms";
pub const REQUEST_TIMEOUT_MS_KEY: &'static str = "request.timeout.ms";
pub const CONNECTIONS_MAX_IDLE_MS_KEY: &'static str = "connections.max.idle.ms";
pub const ACKS_KEY: &'static str = "acks";
pub const ENABLE_IDEMPOTENCE_KEY: &'static str = "enable.idempotence";
pub const TRANSACTIONAL_ID_KEY: &'static str = "transactional.id";
pub const CLIENT_ID_KEY: &'static str = "client.id";
pub const COMPRESSION_TYPE_KEY: &'static str = "compression.type";
pub const BATCH_SIZE_KEY: &'static str = "batch.size";
pub const MESSAGE_MAX_BYTES_KEY: &'static str = "message.max.bytes";
pub const LINGER_MS_KEY: &'static str = "linger.ms";
pub const TRANSACTION_TIMEOUT_MS_KEY: &'static str = "transaction.timeout.ms";
pub const TRUE_TEXT: &'static str = "true";
pub const EMPTY_TEXT: &'static str = "";

/// An optional text, with the empty text for an absent one.
pub open spec fn text_or_empty(o: Option<String>) -> Seq<char> {
    match o {
        Some(s) => s@,
        None => Seq::empty(),
    }
}

/// The entries that the client configuration of `s` holds. The send backoff is the value
/// of the retry backoff key: the two options name one client setting.
pub open spec fn settings_entries(s: ProducerSettings) -> Map<Seq<char>, Seq<char>> {
    map![
        BOOTSTRAP_SERVERS_KEY@ => s.bootstrap_servers@,
        API_VERSION_REQUEST_KEY@ => TRUE_TEXT@,
        SECURITY_PROTOCOL_KEY@ => s.security_protocol@,
        METADATA_MAX_AGE_MS_KEY@ => decimal_text(s.metadata_max_age_ms as nat),
        REQUEST_TIMEOUT_MS_KEY@ => decimal_text(s.request_timeout_ms as nat),
        CONNECTIONS_MAX_IDLE_MS_KEY@ => decimal_text(s.connections_max_idle_ms as nat),
        ACKS_KEY@ => s.acks@,
        ENABLE_IDEMPOTENCE_KEY@ => signed_decimal_text(s.enable_idempotence as int),
        TRANSACTIONAL_ID_KEY@ => text_or_empty(s.transactional_id),
        CLIENT_ID_KEY@ => text_or_empty(s.client_id),
        COMPRESSION_TYPE_KEY@ => s.compression_type@,
        BATCH_SIZE_KEY@ => decimal_text(s.max_batch_size as nat),
        MESSAGE_MAX_BYTES_KEY@ => decimal_text(s.max_request_size as nat),
        LINGER_MS_KEY@ => decimal_text(s.linger_ms as nat),
        RETRY_BACKOFF_MS_KEY@ => decimal_text(s.send_backoff_ms as nat),
        TRANSACTION_TIMEOUT_MS_KEY@ => decimal_text(s.transaction_timeout_ms as nat)
    ]
}

fn optional_text(o: &Option<String>) -> (r: String)
    ensures
        r@ == text_or_empty(*o),
{
    match o {
        Some(s) => s.clone(),
        None => {
            proof {
                reveal_strlit("");
            }
            String::from_str(EMPTY_TEXT)
        },
    }
}

/// The broker client configuration that `s` describes.
pub fn client_config(s: &ProducerSettings) -> (r: ClientConfig)
    ensures
        config_entries(r) == settings_entries(*s),
{
    let mut c = ClientConfig::new();
    set_entry(&mut c, BOOTSTRAP_SERVERS_KEY, s.bootstrap_servers.as_str());
    set_entry(&mut c, API_VERSION_REQUEST_KEY, TRUE_TEXT);
    set_entry(&mut c, SECURITY_PROTOCOL_KEY, s.security_protocol.as_str());
    set_entry(&mut c, RETRY_BACKOFF_MS_KEY, u64_text(s.retry_backoff_ms).as_str());
    set_entry(&mut c, METADATA_MAX_AGE_MS_KEY, u64_text(s.metadata_max_age_ms).as_str());
    set_entry(&mut c, REQUEST_TIMEOUT_MS_KEY, u64_text(s.request_timeout_ms).as_str());
    set_entry(&mut c, CONNECTIONS_MAX_IDLE_MS_KEY, u64_text(s.connections_max_idle_ms).as_str());
    set_entry(&mut c, ACKS_KEY, s.acks.as_str());
    set_entry(&mut c, ENABLE_IDEMPOTENCE_KEY, i32_text(s.enable_idempotence).as_str());
    set_entry(&mut c, TRANSACTIONAL_ID_KEY, optional_text(&s.transactional_id).as_str());
    set_entry(&mut c, CLIENT_ID_KEY, optional_text(&s.client_id).as_str());
    set_entry(&mut c, COMPRESSION_TYPE_KEY, s.compression_type.as_str());
    set_entry(&mut c, BATCH_SIZE_KEY, u64_text(s.max_batch_size).as_str());
    set_entry(&mut c, MESSAGE_MAX_BYTES_KEY, u64_text(s.max_request_size).as_str());
    set_entry(&mut c, LINGER_MS_KEY, u64_text(s.linger_ms).as_str());
    set_entry(&mut c, RETRY_BACKOFF_MS_KEY, u64_text(s.send_backoff_ms).as_str());
    set_entry(&mut c, TRANSACTION_TIMEOUT_MS_KEY, u64_text(s.transaction_timeout_ms).as_str());
    proof {
        reveal_strlit("bootstrap.servers");
        reveal_strlit("api.version.request");
        reveal_strlit("security.protocol");
        reveal_strlit("retry.backoff.ms");
        reveal_strlit("metadata.max.age.ms");
        reveal_strlit("request.timeout.ms");
        reveal_strlit("connections.max.idle.ms");
        reveal_strlit("acks");
        reveal_strlit("enable.idempotence");
        reveal_strlit("transactional.id");
        reveal_strlit("client.id");
        reveal_strlit("compression.type");
        reveal_strlit("batch.size");
        reveal_strlit("message.max.bytes");
        reveal_strlit("linger.ms");
        reveal_strlit("transaction.timeout.ms");
        assert(config_entries(c) =~= settings_entries(*s));
    }
    c
}

} // verus!
