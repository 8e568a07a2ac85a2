//! Error kinds. Each one carries a human-readable detail text.

use vstd::prelude::*;
use vstd::string::*;

verus! {

/// What can go wrong in a gateway or a worker.
#[derive(Debug, Clone, PartialEq)]
pub enum Failure {
    /// The store or the bus could not be reached, or provisioning failed.
    Startup(String),
    /// The configuration does not allow what was asked.
    Config(String),
    /// The authorizer did not answer with 200.
    AuthorizerRoute(String),
    /// The connect hook did not answer with 200.
    ConnectRoute(String),
    /// The disconnect hook did not answer with 200.
    DisconnectRoute(String),
    /// A write to the ownership directory failed.
    Ownership(String),
    /// A publication on the bus failed.
    Bus(String),
    /// A publication on the work queue failed, or a payload could not be read.
    Queue(String),
    /// The rules engine did not answer with 200.
    RulesEngineRoute(String),
    /// The destination did not answer with 200.
    ForwardRoute(String),
    /// A bus message named a connection without a session on this instance.
    /// The detail text is the connection id.
    ConnectionNotFound(String),
    /// A pattern of the rule table could not be compiled or run.
    InvalidRegex(String),
    /// A request body is larger than the configured ceiling.
    Overflow(String),
}

pub ghost enum FailureView {
    Startup(Seq<char>),
    Config(Seq<char>),
    AuthorizerRoute(Seq<char>),
    ConnectRoute(Seq<char>),
    DisconnectRoute(Seq<char>),
    Ownership(Seq<char>),
    Bus(Seq<char>),
    Queue(Seq<char>),
    RulesEngineRoute(Seq<char>),
    ForwardRoute(Seq<char>),
    ConnectionNotFound(Seq<char>),
    InvalidRegex(Seq<char>),
    Overflow(Seq<char>),
}

impl FailureView {
    /// The detail text.
    pub open spec fn details(self) -> Seq<char> {
        match self {
            FailureView::Startup(d) => d,
            FailureView::Config(d) => d,
            FailureView::AuthorizerRoute(d) => d,
            FailureView::ConnectRoute(d) => d,
            FailureView::DisconnectRoute(d) => d,
            FailureView::Ownership(d) => d,
            FailureView::Bus(d) => d,
            FailureView::Queue(d) => d,
            FailureView::RulesEngineRoute(d) => d,
            FailureView::ForwardRoute(d) => d,
            FailureView::ConnectionNotFound(d) => d,
            FailureView::InvalidRegex(d) => d,
            FailureView::Overflow(d) => d,
        }
    }
}

impl View for Failure {
    type V = FailureView;

    open spec fn view(&self) -> FailureView {
        match *self {
            Failure::Startup(d) => FailureView::Startup(d@),
            Failure::Config(d) => FailureView::Config(d@),
            Failure::AuthorizerRoute(d) => FailureView::AuthorizerRoute(d@),
            Failure::ConnectRoute(d) => FailureView::ConnectRoute(d@),
            Failure::DisconnectRoute(d) => FailureView::DisconnectRoute(d@),
            Failure::Ownership(d) => FailureView::Ownership(d@),
            Failure::Bus(d) => FailureView::Bus(d@),
            Failure::Queue(d) => FailureView::Queue(d@),
            Failure::RulesEngineRoute(d) => FailureView::RulesEngineRoute(d@),
            Failure::ForwardRoute(d) => FailureView::ForwardRoute(d@),
            Failure::ConnectionNotFound(d) => FailureView::ConnectionNotFound(d@),
            Failure::InvalidRegex(d) => FailureView::InvalidRegex(d@),
            Failure::Overflow(d) => FailureView::Overflow(d@),
        }
    }
}

impl Failure {
    /// The detail text, as it goes into the log.
    pub fn message(&self) -> (s: String)
        ensures
            s@ == self@.details(),
    {
        match self {
            Failure::Startup(d) => d.clone(),
            Failure::Config(d) => d.clone(),
            Failure::AuthorizerRoute(d) => d.clone(),
            Failure::ConnectRoute(d) => d.clone(),
            Failure::DisconnectRoute(d) => d.clone(),
            Failure::Ownership(d) => d.clone(),
            Failure::Bus(d) => d.clone(),
            Failure::Queue(d) => d.clone(),
            Failure::RulesEngineRoute(d) => d.clone(),
            Failure::ForwardRoute(d) => d.clone(),
            Failure::ConnectionNotFound(d) => d.clone(),
            Failure::InvalidRegex(d) => d.clone(),
            Failure::Overflow(d) => d.clone(),
        }
    }
}

} // verus!
