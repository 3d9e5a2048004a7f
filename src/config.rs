//! Connection settings of the consumer.
use vstd::prelude::*;
use rdkafka::config::ClientConfig;
use crate::text::{hex_padded, push_hex_padded};

verus! {

/// Environment variable that may name the broker address.
pub const SERVER_URL_VAR: &'static str = "KAFKA_SERVER_URL";

/// Broker address used when the environment names none.
pub const DEFAULT_SERVER_URL: &'static str = "localhost:9092";

/// Warning emitted when the broker address falls back to the default.
pub const MISSING_SERVER_URL_WARNING: &'static str =
    "Warning: KAFKA_SERVER_URL is not set. Using localhost as default.";

/// Consumer group the consumer joins.
pub const GROUP_ID: &'static str = "example_consumer_group";

/// The one topic the consumer subscribes to.
pub const TOPIC: &'static str = "test_topic";

/// The broker address to connect to, and the warning to emit, if any.
pub struct ServerUrl {
    pub url: String,
    pub warning: Option<String>,
}

/// The broker address that a value of the environment variable leads to.
pub open spec fn resolved_url(env_value: Option<String>) -> Seq<char> {
    match env_value {
        Some(v) => v@,
        None => DEFAULT_SERVER_URL@,
    }
}

/// Resolves the broker address from the environment variable's value
/// (`None` where it is unset or unreadable): the value verbatim, or the
/// default together with a warning.
pub fn resolve_server_url(env_value: Option<String>) -> (r: ServerUrl)
    ensures
        r.url@ == resolved_url(env_value),
        env_value is Some ==> r.warning is None,
        env_value is None ==> r.warning is Some && r.warning->0@ == MISSING_SERVER_URL_WARNING@,
{
    match env_value {
        Some(v) => ServerUrl { url: v, warning: None },
        None => ServerUrl {
            url: DEFAULT_SERVER_URL.to_string(),
            warning: Some(MISSING_SERVER_URL_WARNING.to_string()),
        },
    }
}

#[verifier::external_type_specification]
#[verifier::external_body]
pub struct ExClientConfig(ClientConfig);

/// The option names and values that a client configuration holds.
pub uninterp spec fn config_entries(c: ClientConfig) -> Map<Seq<char>, Seq<char>>;

/// Relies on rdkafka's `ClientConfig::new`: a configuration with no options set.
#[verifier::external_body]
fn new_client_config() -> (r: ClientConfig)
    ensures
        config_entries(r).dom() == Set::<Seq<char>>::empty(),
{
    ClientConfig::new()
}

/// Relies on rdkafka's `ClientConfig::set`: the option `key` now maps to
/// `value`, replacing any earlier value, and no other option changes.
#[verifier::external_body]
fn set_option(c: &mut ClientConfig, key: &str, value: &str)
    ensures
        config_entries(*final(c)) == config_entries(*old(c)).insert(key@, value@),
{
    c.set(key, value);
}

/// The options of the consumer that connects to the broker at `server_url`.
pub open spec fn consumer_options(server_url: Seq<char>) -> Map<Seq<char>, Seq<char>> {
    map![
        "group.id"@ => GROUP_ID@,
        "bootstrap.servers"@ => server_url,
        "enable.partition.eof"@ => "false"@,
        "auto.offset.reset"@ => "earliest"@,
    ]
}

/// The client configuration of the consumer: its group, the broker address,
/// no end-of-partition events, and reading from the earliest offset.
pub fn consumer_config(server_url: &str) -> (r: ClientConfig)
    ensures
        config_entries(r) == consumer_options(server_url@),
{
    let mut c = new_client_config();
    set_option(&mut c, "group.id", GROUP_ID);
    set_option(&mut c, "bootstrap.servers", server_url);
    set_option(&mut c, "enable.partition.eof", "false");
    set_option(&mut c, "auto.offset.reset", "earliest");
    proof {
        assert(config_entries(c) =~= consumer_options(server_url@));
    }
    c
}

/// The bits of a 32-bit signed number, read as unsigned.
pub open spec fn u32_bits(n: i32) -> nat {
    if n < 0 {
        (n + 0x1_0000_0000) as nat
    } else {
        n as nat
    }
}

/// The startup line naming the client library's version: its number as
/// eight hexadecimal digits, then its name.
pub open spec fn version_line(version_n: i32, version_s: Seq<char>) -> Seq<char> {
    "rd_kafka_version: 0x"@ + hex_padded(u32_bits(version_n), 8) + ", "@ + version_s
}

/// The startup line naming the client library's version.
pub fn version_banner(version_n: i32, version_s: &str) -> (r: String)
    ensures
        r@ == version_line(version_n, version_s@),
{
    let bits: u64 = if version_n < 0 {
        (version_n as i64 + 0x1_0000_0000) as u64
    } else {
        version_n as u64
    };
    let mut r = String::new();
    r.append("rd_kafka_version: 0x");
    push_hex_padded(&mut r, bits, 8);
    r.append(", ");
    r.append(version_s);
    proof {
        assert(r@ =~= version_line(version_n, version_s@));
    }
    r
}

} // verus!
