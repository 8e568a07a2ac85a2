//! JSON bodies of the gateway's outgoing hook calls and of their answers.

use crate::context::ConnectionContextMap;
use crate::http::{headers_view, Headers};
use vstd::prelude::*;

verus! {

/// Body of the call that asks whether a client may connect.
#[derive(Debug, Clone, PartialEq)]
pub struct AuthorizerRequest {
    pub instance_id: String,
    pub group_id: String,
    pub endpoint: String,
    pub connection_id: String,
    pub time: String,
    pub headers: Headers,
}

/// The authorizer's answer.
#[derive(Debug, Clone, PartialEq)]
pub struct AuthorizerResponse {
    pub context: Option<ConnectionContextMap>,
}

/// Body of the call that announces an accepted connection.
#[derive(Debug, Clone, PartialEq)]
pub struct ConnectRequest {
    pub instance_id: String,
    pub group_id: String,
    pub endpoint: String,
    pub connection_id: String,
    pub time: String,
}

/// Body of the call that announces a connection that went away.
#[derive(Debug, Clone, PartialEq)]
pub struct DisconnectRequest {
    pub instance_id: String,
    pub group_id: String,
    pub endpoint: String,
    pub connection_id: String,
    pub time: String,
}

/// What a connect or disconnect body holds.
pub ghost struct LifecycleView {
    pub instance_id: Seq<char>,
    pub group_id: Seq<char>,
    pub endpoint: Seq<char>,
    pub connection_id: Seq<char>,
    pub time: Seq<char>,
}

impl View for ConnectRequest {
    type V = LifecycleView;

    open spec fn view(&self) -> LifecycleView {
        LifecycleView {
            instance_id: self.instance_id@,
            group_id: self.group_id@,
            endpoint: self.endpoint@,
            connection_id: self.connection_id@,
            time: self.time@,
        }
    }
}

impl View for DisconnectRequest {
    type V = LifecycleView;

    open spec fn view(&self) -> LifecycleView {
        LifecycleView {
            instance_id: self.instance_id@,
            group_id: self.group_id@,
            endpoint: self.endpoint@,
            connection_id: self.connection_id@,
            time: self.time@,
        }
    }
}

/// What an authorizer body holds.
pub ghost struct AuthorizerRequestView {
    pub instance_id: Seq<char>,
    pub group_id: Seq<char>,
    pub endpoint: Seq<char>,
    pub connection_id: Seq<char>,
    pub time: Seq<char>,
    pub headers: Seq<(Seq<char>, Seq<char>)>,
}

impl View for AuthorizerRequest {
    type V = AuthorizerRequestView;

    open spec fn view(&self) -> AuthorizerRequestView {
        AuthorizerRequestView {
            instance_id: self.instance_id@,
            group_id: self.group_id@,
            endpoint: self.endpoint@,
            connection_id: self.connection_id@,
            time: self.time@,
            headers: headers_view(self.headers@),
        }
    }
}

} // verus!
