//! Connector configuration, with the endpoint already resolved from its secret.

use vstd::prelude::*;

verus! {

/// What the sink is built from: the store endpoint, an optional key prefix and
/// an optional mode flag (`Some(true)` selects plain overwrites).
#[derive(Clone, Debug)]
pub struct RedisConfig {
    pub url: String,
    pub prefix: Option<String>,
    pub to_hash: Option<bool>,
}

/// The prefix that a configuration gives: its own, or the empty string.
pub open spec fn prefix_of(config: &RedisConfig) -> Seq<char> {
    match config.prefix {
        Some(p) => p@,
        None => Seq::empty(),
    }
}

impl RedisConfig {
    pub fn new(url: String, prefix: Option<String>, to_hash: Option<bool>) -> (r: RedisConfig)
        ensures
            r.url@ == url@,
            r.prefix == prefix,
            r.to_hash == to_hash,
    {
        RedisConfig { url, prefix, to_hash }
    }

    /// The key prefix, empty where none is configured.
    pub fn prefix_or_default(&self) -> (r: String)
        ensures
            r@ == prefix_of(self),
    {
        match &self.prefix {
            Some(p) => p.clone(),
            None => String::new(),
        }
    }
}

} // verus!
