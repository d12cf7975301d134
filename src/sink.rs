//! The sink: its configuration checked once, and the command each record becomes.

use vstd::prelude::*;

use crate::command::{key_bytes, record_command, Record, StoreCommand};
use crate::config::{prefix_of, RedisConfig};

verus! {

/// Why the sink stops.
#[derive(Clone, Copy, Debug, PartialEq, Eq, Structural)]
pub enum SinkError {
    /// The endpoint could not be resolved from its secret.
    Resolution,
    /// The endpoint is not a URL with a scheme and a host.
    InvalidConfig,
    /// The store could not be reached, or refused the connection.
    Connection,
    /// A write to the store failed.
    Write,
}

#[verifier::external_type_specification]
#[verifier::external_body]
pub struct ExParseError(url::ParseError);

/// What parsing a string as a URL gives: its serialization and whether it has a
/// host, or `None` where it is no URL.
pub uninterp spec fn parsed_url(s: Seq<char>) -> Option<(Seq<char>, bool)>;

/// Relies on `url::Url::parse`, with `Url::as_str` and `Url::has_host` on its result:
/// the outcome depends on the string alone.
#[verifier::external_body]
fn parse_url(s: &str) -> (r: Result<(String, bool), url::ParseError>)
    ensures
        match r {
            Ok(p) => parsed_url(s@) == Some((p.0@, p.1)),
            Err(_) => parsed_url(s@) is None,
        },
{
    match url::Url::parse(s) {
        Ok(u) => Ok((u.as_str().to_string(), u.has_host())),
        Err(e) => Err(e),
    }
}

/// The sink: a key prefix, the store endpoint as a URL, and the mode flag.
#[derive(Clone, Debug)]
pub struct RedisSink {
    pub prefix: String,
    pub url: String,
    pub to_hash: Option<bool>,
}

/// The sink that a configuration gives where its endpoint parses to `endpoint`.
pub open spec fn sink_matches(s: RedisSink, config: &RedisConfig, endpoint: Seq<char>) -> bool {
    &&& s.prefix@ == prefix_of(config)
    &&& s.url@ == endpoint
    &&& s.to_hash == config.to_hash
}

impl RedisSink {
    /// Builds the sink from `config`, whose endpoint parsed as `endpoint`: its
    /// serialization and whether it has a host. An endpoint that is no URL, or has
    /// no host, is refused.
    pub fn from_endpoint(config: &RedisConfig, endpoint: Option<(String, bool)>) -> (r: Result<
        RedisSink,
        SinkError,
    >)
        ensures
            match endpoint {
                Some((text, true)) => r matches Ok(s) && sink_matches(s, config, text@),
                _ => r == Err::<RedisSink, SinkError>(SinkError::InvalidConfig),
            },
    {
        match endpoint {
            Some((text, true)) => Ok(
                RedisSink { prefix: config.prefix_or_default(), url: text, to_hash: config.to_hash },
            ),
            _ => Err(SinkError::InvalidConfig),
        }
    }

    /// Builds the sink from `config`: the endpoint must parse as a URL with a host.
    pub fn new(config: &RedisConfig) -> (r: Result<RedisSink, SinkError>)
        ensures
            match parsed_url(config.url@) {
                Some((text, true)) => r matches Ok(s) && sink_matches(s, config, text),
                _ => r == Err::<RedisSink, SinkError>(SinkError::InvalidConfig),
            },
    {
        let endpoint = match parse_url(config.url.as_str()) {
            Ok(p) => Some(p),
            Err(_) => None,
        };
        RedisSink::from_endpoint(config, endpoint)
    }

    /// The command that `record` becomes: the mode is the sink's, whatever the record.
    pub fn command_for(&self, record: &Record) -> (r: StoreCommand)
        ensures
            r@ == record_command(
                self.prefix@,
                self.to_hash,
                key_bytes(record),
                record.value@,
                record.timestamp as int,
            ),
    {
        StoreCommand::for_record(self.prefix.as_str(), self.to_hash, record)
    }
}

} // verus!
