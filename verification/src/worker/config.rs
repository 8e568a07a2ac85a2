//! The worker's configuration.

use crate::http::Headers;
use vstd::prelude::*;

verus! {

#[derive(Debug, Clone, PartialEq)]
pub struct Config {
    pub version: String,
    /// The group whose client payloads this worker consumes.
    pub group_id: String,
    pub engine_mode: EngineMode,
    pub stream: Stream,
}

/// Where the work queue is reached, and the names of stream and consumer.
#[derive(Debug, Clone, PartialEq)]
pub struct Stream {
    pub endpoint: String,
    pub name: String,
    pub consumer_name: String,
}

/// How a worker finds the destination of a payload.
#[derive(Debug, Clone, PartialEq)]
pub enum EngineMode {
    /// By an ordered rule table: the first pattern that matches wins.
    Regex { rules: Vec<RegexRule> },
    /// By asking a rules engine.
    Dss { rules_engine: RulesEngineRoute },
}

#[derive(Debug, Clone, PartialEq)]
pub struct RulesEngineRoute {
    pub endpoint: String,
    pub headers: Headers,
}

#[derive(Debug, Clone, PartialEq)]
pub struct DestinationRoute {
    pub endpoint: String,
    pub headers: Headers,
}

#[derive(Debug, Clone, PartialEq)]
pub struct RegexRule {
    pub regex: String,
    pub route: DestinationRoute,
}

} // verus!
