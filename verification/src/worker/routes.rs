//! JSON bodies of the worker's outgoing calls and of the rules engine's answer.

use crate::context::ConnectionContext;
use crate::http::Headers;
use vstd::prelude::*;

verus! {

/// The authorizer's context, as it arrived with the envelope.
pub type MessageContext = ConnectionContext;

/// Body of the call that asks the rules engine for a destination.
#[derive(Debug, Clone, PartialEq)]
pub struct RulesEngineRequest {
    pub instance_id: String,
    pub group_id: Option<String>,
    pub endpoint: String,
    pub connection_id: String,
    pub time: String,
    pub context: MessageContext,
    pub message: String,
}

/// The rules engine's answer: where to forward, and with which headers.
#[derive(Debug, Clone, PartialEq)]
pub struct RulesEngineResponse {
    pub endpoint: String,
    pub headers: Headers,
}

/// Body of the call that forwards a payload to its destination.
#[derive(Debug, Clone, PartialEq)]
pub struct ForwardRequest {
    pub instance_id: String,
    pub connection_id: String,
    pub endpoint: String,
    pub time: String,
    pub context: MessageContext,
    pub message: String,
}

pub ghost struct RulesEngineRequestView {
    pub instance_id: Seq<char>,
    pub group_id: Option<Seq<char>>,
    pub endpoint: Seq<char>,
    pub connection_id: Seq<char>,
    pub time: Seq<char>,
    pub context: Option<Map<String, serde_json::Value>>,
    pub message: Seq<char>,
}

impl View for RulesEngineRequest {
    type V = RulesEngineRequestView;

    open spec fn view(&self) -> RulesEngineRequestView {
        RulesEngineRequestView {
            instance_id: self.instance_id@,
            group_id: crate::bus::redis::opt_view(self.group_id),
            endpoint: self.endpoint@,
            connection_id: self.connection_id@,
            time: self.time@,
            context: self.context@,
            message: self.message@,
        }
    }
}

pub ghost struct ForwardRequestView {
    pub instance_id: Seq<char>,
    pub connection_id: Seq<char>,
    pub endpoint: Seq<char>,
    pub time: Seq<char>,
    pub context: Option<Map<String, serde_json::Value>>,
    pub message: Seq<char>,
}

impl View for ForwardRequest {
    type V = ForwardRequestView;

    open spec fn view(&self) -> ForwardRequestView {
        ForwardRequestView {
            instance_id: self.instance_id@,
            connection_id: self.connection_id@,
            endpoint: self.endpoint@,
            time: self.time@,
            context: self.context@,
            message: self.message@,
        }
    }
}

} // verus!
