//! The producer's options, read from the process environment with defaults.
use vstd::prelude::*;
use vstd::string::*;

use crate::text::{parse_i32, parse_u64, same_text, i32_of_text, u64_of_text};

verus! {

pub const BOOTSTRAP_SERVERS_VAR: &'static str = "KAFKA_BOOTSTRAP_SERVERS";
pub const SECURITY_PROTOCOL_VAR: &'static str = "KAFKA_SECURITY_PROTOCOL";
pub const RETRY_BACKOFF_MS_VAR: &'static str = "KAFKA_RETRY_BACKOFF_MS";
pub const METADATA_MAX_AGE_MS_VAR: &'static str = "KAFKA_METADATA_MAX_AGE_MS";
pub const REQUEST_TIMEOUT_MS_VAR: &'static str = "KAFKA_REQUEST_TIMEOUT_MS";
pub const CONNECTIONS_MAX_IDLE_MS_VAR: &'static str = "KAFKA_CONNECTIONS_MAX_IDLE_MS";
pub const ACKS_VAR: &'static str = "KAFKA_ACKS";
pub const ENABLE_IDEMPOTENCE_VAR: &'static str = "KAFKA_ENABLE_IDEMPOTENCE";
pub const TRANSACTIONAL_ID_VAR: &'static str = "KAFKA_TRANSACTIONAL_ID";
pub const CLIENT_ID_VAR: &'static str = "KAFKA_CLIENT_ID_PRODUCER";
pub const COMPRESSION_TYPE_VAR: &'static str = "KAFKA_COMPRESSION_TYPE";
pub const MAX_BATCH_SIZE_VAR: &'static str = "KAFKA_MAX_BATCH_SIZE";
pub const MAX_REQUEST_SIZE_VAR: &'static str = "KAFKA_MAX_REQUEST_SIZE";
pub const LINGER_MS_VAR: &'static str = "KAFKA_LINGER_MS";
pub const SEND_BACKOFF_MS_VAR: &'static str = "KAFKA_SEND_BACKOFF_MS";
pub const TRANSACTION_TIMEOUT_MS_VAR: &'static str = "KAFKA_TRANSACTION_TIMEOUT_MS";
pub const PORT_VAR: &'static str = "PORT";

pub const DEFAULT_BOOTSTRAP_SERVERS: &'static str = "127.0.0.1:9092";
pub const DEFAULT_SECURITY_PROTOCOL: &'static str = "PLAINTEXT";
pub const DEFAULT_ACKS: &'static str = "1";
pub const DEFAULT_COMPRESSION_TYPE: &'static str = "none";
pub const DEFAULT_PORT: &'static str = "5666";
pub const LISTEN_HOST_PREFIX: &'static str = "0.0.0.0:";

pub const DEFAULT_RETRY_BACKOFF_MS: u64 = 100;
pub const DEFAULT_METADATA_MAX_AGE_MS: u64 = 300000;
pub const DEFAULT_REQUEST_TIMEOUT_MS: u64 = 40000;
pub const DEFAULT_CONNECTIONS_MAX_IDLE_MS: u64 = 540000;
pub const DEFAULT_ENABLE_IDEMPOTENCE: i32 = 0;
pub const DEFAULT_MAX_BATCH_SIZE: u64 = 16384;
pub const DEFAULT_MAX_REQUEST_SIZE: u64 = 504857600;
pub const DEFAULT_LINGER_MS: u64 = 0;
pub const DEFAULT_SEND_BACKOFF_MS: u64 = 100;
pub const DEFAULT_TRANSACTION_TIMEOUT_MS: u64 = 60000;

/// The value that the environment `vars` gives to `name`: its first entry of that name.
pub open spec fn env_lookup(vars: Seq<(String, String)>, name: Seq<char>) -> Option<Seq<char>>
    decreases vars.len(),
{
    if vars.len() == 0 {
        None
    } else if vars[0].0@ == name {
        Some(vars[0].1@)
    } else {
        env_lookup(vars.drop_first(), name)
    }
}

/// A text option: the variable's value, or `default` when it is unset.
pub open spec fn text_option(
    vars: Seq<(String, String)>,
    name: Seq<char>,
    default: Seq<char>,
) -> Seq<char> {
    match env_lookup(vars, name) {
        Some(v) => v,
        None => default,
    }
}

/// An unsigned option: `None` when the variable is set to a text that is no `u64`.
pub open spec fn u64_option(vars: Seq<(String, String)>, name: Seq<char>, default: u64) -> Option<
    u64,
> {
    match env_lookup(vars, name) {
        Some(v) => u64_of_text(v),
        None => Some(default),
    }
}

/// A signed option: `None` when the variable is set to a text that is no `i32`.
pub open spec fn i32_option(vars: Seq<(String, String)>, name: Seq<char>, default: i32) -> Option<
    i32,
> {
    match env_lookup(vars, name) {
        Some(v) => i32_of_text(v),
        None => Some(default),
    }
}

/// Whether `vars` sets `name` to a text that is no `u64`.
pub open spec fn bad_u64(vars: Seq<(String, String)>, name: Seq<char>) -> bool {
    env_lookup(vars, name) matches Some(v) && u64_of_text(v) is None
}

/// Whether `vars` sets `name` to a text that is no `i32`.
pub open spec fn bad_i32(vars: Seq<(String, String)>, name: Seq<char>) -> bool {
    env_lookup(vars, name) matches Some(v) && i32_of_text(v) is None
}

/// The first numeric option, in the order of the settings' fields, that `vars` sets to a
/// text that is no number of its type; `None` when every one is valid.
pub open spec fn first_invalid_var(vars: Seq<(String, String)>) -> Option<Seq<char>> {
    if bad_u64(vars, RETRY_BACKOFF_MS_VAR@) {
        Some(RETRY_BACKOFF_MS_VAR@)
    } else if bad_u64(vars, METADATA_MAX_AGE_MS_VAR@) {
        Some(METADATA_MAX_AGE_MS_VAR@)
    } else if bad_u64(vars, REQUEST_TIMEOUT_MS_VAR@) {
        Some(REQUEST_TIMEOUT_MS_VAR@)
    } else if bad_u64(vars, CONNECTIONS_MAX_IDLE_MS_VAR@) {
        Some(CONNECTIONS_MAX_IDLE_MS_VAR@)
    } else if bad_i32(vars, ENABLE_IDEMPOTENCE_VAR@) {
        Some(ENABLE_IDEMPOTENCE_VAR@)
    } else if bad_u64(vars, MAX_BATCH_SIZE_VAR@) {
        Some(MAX_BATCH_SIZE_VAR@)
    } else if bad_u64(vars, MAX_REQUEST_SIZE_VAR@) {
        Some(MAX_REQUEST_SIZE_VAR@)
    } else if bad_u64(vars, LINGER_MS_VAR@) {
        Some(LINGER_MS_VAR@)
    } else if bad_u64(vars, SEND_BACKOFF_MS_VAR@) {
        Some(SEND_BACKOFF_MS_VAR@)
    } else if bad_u64(vars, TRANSACTION_TIMEOUT_MS_VAR@) {
        Some(TRANSACTION_TIMEOUT_MS_VAR@)
    } else {
        None
    }
}

/// A numeric option whose variable holds a text that is no number of the option's type.
pub struct ConfigError {
    pub variable: String,
    pub value: String,
}

/// The options of the broker producer.
pub struct ProducerSettings {
    pub bootstrap_servers: String,
    pub security_protocol: String,
    pub retry_backoff_ms: u64,
    pub metadata_max_age_ms: u64,
    pub request_timeout_ms: u64,
    pub connections_max_idle_ms: u64,
    pub acks: String,
    pub enable_idempotence: i32,
    pub transactional_id: Option<String>,
    pub client_id: Option<String>,
    pub compression_type: String,
    pub max_batch_size: u64,
    pub max_request_size: u64,
    pub linger_ms: u64,
    pub send_backoff_ms: u64,
    pub transaction_timeout_ms: u64,
}

pub open spec fn opt_view(o: Option<String>) -> Option<Seq<char>> {
    match o {
        Some(s) => Some(s@),
        None => None,
    }
}

/// The settings that `vars` gives, where every numeric option is valid.
pub open spec fn settings_match(s: ProducerSettings, vars: Seq<(String, String)>) -> bool {
    &&& s.bootstrap_servers@ == text_option(vars, BOOTSTRAP_SERVERS_VAR@, DEFAULT_BOOTSTRAP_SERVERS@)
    &&& s.security_protocol@ == text_option(vars, SECURITY_PROTOCOL_VAR@, DEFAULT_SECURITY_PROTOCOL@)
    &&& Some(s.retry_backoff_ms) == u64_option(vars, RETRY_BACKOFF_MS_VAR@, DEFAULT_RETRY_BACKOFF_MS)
    &&& Some(s.metadata_max_age_ms) == u64_option(
        vars,
        METADATA_MAX_AGE_MS_VAR@,
        DEFAULT_METADATA_MAX_AGE_MS,
    )
    &&& Some(s.request_timeout_ms) == u64_option(
        vars,
        REQUEST_TIMEOUT_MS_VAR@,
        DEFAULT_REQUEST_TIMEOUT_MS,
    )
    &&& Some(s.connections_max_idle_ms) == u64_option(
        vars,
        CONNECTIONS_MAX_IDLE_MS_VAR@,
        DEFAULT_CONNECTIONS_MAX_IDLE_MS,
    )
    &&& s.acks@ == text_option(vars, ACKS_VAR@, DEFAULT_ACKS@)
    &&& Some(s.enable_idempotence) == i32_option(
        vars,
        ENABLE_IDEMPOTENCE_VAR@,
        DEFAULT_ENABLE_IDEMPOTENCE,
    )
    &&& opt_view(s.transactional_id) == env_lookup(vars, TRANSACTIONAL_ID_VAR@)
    &&& opt_view(s.client_id) == env_lookup(vars, CLIENT_ID_VAR@)
    &&& s.compression_type@ == text_option(vars, COMPRESSION_TYPE_VAR@, DEFAULT_COMPRESSION_TYPE@)
    &&& Some(s.max_batch_size) == u64_option(vars, MAX_BATCH_SIZE_VAR@, DEFAULT_MAX_BATCH_SIZE)
    &&& Some(s.max_request_size) == u64_option(vars, MAX_REQUEST_SIZE_VAR@, DEFAULT_MAX_REQUEST_SIZE)
    &&& Some(s.linger_ms) == u64_option(vars, LINGER_MS_VAR@, DEFAULT_LINGER_MS)
    &&& Some(s.send_backoff_ms) == u64_option(vars, SEND_BACKOFF_MS_VAR@, DEFAULT_SEND_BACKOFF_MS)
    &&& Some(s.transaction_timeout_ms) == u64_option(
        vars,
        TRANSACTION_TIMEOUT_MS_VAR@,
        DEFAULT_TRANSACTION_TIMEOUT_MS,
    )
}

/// The value of the first entry of `vars` named `name`.
pub fn lookup_var(vars: &Vec<(String, String)>, name: &str) -> (r: Option<String>)
    ensures
        opt_view(r) == env_lookup(vars@, name@),
{
    let mut i: usize = 0;
    proof {
        assert(vars@.subrange(0, vars@.len() as int) =~= vars@);
    }
    while i < vars.len()
        invariant
            i <= vars@.len(),
            env_lookup(vars@, name@) == env_lookup(vars@.subrange(i as int, vars@.len() as int), name@),
        decreases vars.len() - i,
    {
        let ghost rest = vars@.subrange(i as int, vars@.len() as int);
        proof {
            assert(rest.drop_first() =~= vars@.subrange(i + 1, vars@.len() as int));
        }
        if same_text(vars[i].0.as_str(), name) {
            return Some(vars[i].1.clone());
        }
        i = i + 1;
    }
    None
}

/// A text option, with `default` where `vars` leaves it unset.
fn text_setting(vars: &Vec<(String, String)>, name: &str, default: &str) -> (r: String)
    ensures
        r@ == text_option(vars@, name@, default@),
{
    match lookup_var(vars, name) {
        Some(v) => v,
        None => String::from_str(default),
    }
}

fn invalid_number(name: &str, value: String) -> (e: ConfigError)
    ensures
        e.variable@ == name@,
        e.value@ == value@,
{
    ConfigError { variable: String::from_str(name), value }
}

/// An unsigned option, with `default` where `vars` leaves it unset.
fn u64_setting(vars: &Vec<(String, String)>, name: &str, default: u64) -> (r: Result<
    u64,
    ConfigError,
>)
    ensures
        match r {
            Ok(v) => u64_option(vars@, name@, default) == Some(v) && !bad_u64(vars@, name@),
            Err(e) => bad_u64(vars@, name@) && e.variable@ == name@
                && env_lookup(vars@, name@) == Some(e.value@),
        },
{
    match lookup_var(vars, name) {
        Some(v) => match parse_u64(v.as_str()) {
            Some(n) => Ok(n),
            None => Err(invalid_number(name, v)),
        },
        None => Ok(default),
    }
}

/// A signed option, with `default` where `vars` leaves it unset.
fn i32_setting(vars: &Vec<(String, String)>, name: &str, default: i32) -> (r: Result<
    i32,
    ConfigError,
>)
    ensures
        match r {
            Ok(v) => i32_option(vars@, name@, default) == Some(v) && !bad_i32(vars@, name@),
            Err(e) => bad_i32(vars@, name@) && e.variable@ == name@
                && env_lookup(vars@, name@) == Some(e.value@),
        },
{
    match lookup_var(vars, name) {
        Some(v) => match parse_i32(v.as_str()) {
            Some(n) => Ok(n),
            None => Err(invalid_number(name, v)),
        },
        None => Ok(default),
    }
}

impl ProducerSettings {
    /// Reads the settings from the environment `vars`, given as name and value pairs.
    /// An unset option takes its default. Fails on the first numeric option, in the order
    /// of the fields, that is set to a text that is no number of its type.
    pub fn from_vars(vars: &Vec<(String, String)>) -> (r: Result<ProducerSettings, ConfigError>)
        ensures
            r is Ok <==> first_invalid_var(vars@) is None,
            match r {
                Ok(s) => settings_match(s, vars@),
                Err(e) => first_invalid_var(vars@) == Some(e.variable@) && env_lookup(
                    vars@,
                    e.variable@,
                ) == Some(e.value@),
            },
    {
        let bootstrap_servers = text_setting(vars, BOOTSTRAP_SERVERS_VAR, DEFAULT_BOOTSTRAP_SERVERS);
        let security_protocol = text_setting(vars, SECURITY_PROTOCOL_VAR, DEFAULT_SECURITY_PROTOCOL);
        let retry_backoff_ms = u64_setting(vars, RETRY_BACKOFF_MS_VAR, DEFAULT_RETRY_BACKOFF_MS)?;
        let metadata_max_age_ms = u64_setting(
            vars,
            METADATA_MAX_AGE_MS_VAR,
            DEFAULT_METADATA_MAX_AGE_MS,
        )?;
        let request_timeout_ms = u64_setting(
            vars,
            REQUEST_TIMEOUT_MS_VAR,
            DEFAULT_REQUEST_TIMEOUT_MS,
        )?;
        let connections_max_idle_ms = u64_setting(
            vars,
            CONNECTIONS_MAX_IDLE_MS_VAR,
            DEFAULT_CONNECTIONS_MAX_IDLE_MS,
        )?;
        let acks = text_setting(vars, ACKS_VAR, DEFAULT_ACKS);
        let enable_idempotence = i32_setting(
            vars,
            ENABLE_IDEMPOTENCE_VAR,
            DEFAULT_ENABLE_IDEMPOTENCE,
        )?;
        let transactional_id = lookup_var(vars, TRANSACTIONAL_ID_VAR);
        let client_id = lookup_var(vars, CLIENT_ID_VAR);
        let compression_type = text_setting(vars, COMPRESSION_TYPE_VAR, DEFAULT_COMPRESSION_TYPE);
        let max_batch_size = u64_setting(vars, MAX_BATCH_SIZE_VAR, DEFAULT_MAX_BATCH_SIZE)?;
        let max_request_size = u64_setting(vars, MAX_REQUEST_SIZE_VAR, DEFAULT_MAX_REQUEST_SIZE)?;
        let linger_ms = u64_setting(vars, LINGER_MS_VAR, DEFAULT_LINGER_MS)?;
        let send_backoff_ms = u64_setting(vars, SEND_BACKOFF_MS_VAR, DEFAULT_SEND_BACKOFF_MS)?;
        let transaction_timeout_ms = u64_setting(
            vars,
            TRANSACTION_TIMEOUT_MS_VAR,
            DEFAULT_TRANSACTION_TIMEOUT_MS,
        )?;
        Ok(
            ProducerSettings {
                bootstrap_servers,
                security_protocol,
                retry_backoff_ms,
                metadata_max_age_ms,
                request_timeout_ms,
                connections_max_idle_ms,
                acks,
                enable_idempotence,
                transactional_id,
                client_id,
                compression_type,
                max_batch_size,
                max_request_size,
                linger_ms,
                send_backoff_ms,
                transaction_timeout_ms,
            },
        )
    }
}

/// The address to listen on: all interfaces, at the `PORT` variable or its default.
pub fn listen_address(vars: &Vec<(String, String)>) -> (r: String)
    ensures
        r@ == LISTEN_HOST_PREFIX@ + text_option(vars@, PORT_VAR@, DEFAULT_PORT@),
{
    let port = text_setting(vars, PORT_VAR, DEFAULT_PORT);
    String::from_str(LISTEN_HOST_PREFIX).concat(port.as_str())
}

} // verus!
