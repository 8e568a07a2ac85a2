//! The authorizer's context: an opaque JSON mapping that is only carried along.

use std::collections::HashMap;
use vstd::prelude::*;

verus! {

/// `serde_json::Value`, an arbitrary JSON value. Nothing here looks inside one.
#[verifier::external_type_specification]
#[verifier::external_body]
pub struct ExJsonValue(serde_json::Value);

/// Mapping from string to arbitrary JSON value, as an authorizer returns it.
pub type ConnectionContextMap = HashMap<String, serde_json::Value>;

/// The context attached to a connection when it was accepted. It is set once
/// and travels unchanged with every client message.
#[derive(Debug, Clone, PartialEq)]
pub struct ConnectionContext {
    pub authorizer: Option<ConnectionContextMap>,
}

impl View for ConnectionContext {
    type V = Option<Map<String, serde_json::Value>>;

    open spec fn view(&self) -> Self::V {
        match self.authorizer {
            Some(m) => Some(m@),
            None => None,
        }
    }
}

impl ConnectionContext {
    /// A context without authorizer data.
    pub fn empty() -> (r: Self)
        ensures
            r@ is None,
    {
        ConnectionContext { authorizer: None }
    }

    /// A copy that holds the same mapping.
    pub fn duplicate(&self) -> (r: Self)
        ensures
            r@ == self@,
    {
        match &self.authorizer {
            Some(m) => ConnectionContext { authorizer: Some(m.clone()) },
            None => ConnectionContext { authorizer: None },
        }
    }
}

} // verus!
