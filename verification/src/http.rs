//! Outgoing HTTP calls as plain values: what to post where, and what came back.

use vstd::prelude::*;

verus! {

/// Header lines, in the order in which they were configured.
pub type Headers = Vec<(String, String)>;

/// The status that means success, for hooks and destinations alike.
pub const STATUS_OK: u16 = 200;

/// The header lines in `h`, as mathematical values.
pub open spec fn headers_view(h: Seq<(String, String)>) -> Seq<(Seq<char>, Seq<char>)> {
    h.map_values(|p: (String, String)| (p.0@, p.1@))
}

/// A copy of the header lines.
pub fn clone_headers(h: &Headers) -> (r: Headers)
    ensures
        headers_view(r@) == headers_view(h@),
{
    let mut r: Headers = Vec::new();
    let mut i: usize = 0;
    while i < h.len()
        invariant
            i <= h.len(),
            headers_view(r@) == headers_view(h@.take(i as int)),
        decreases h.len() - i,
    {
        let ghost before = r@;
        r.push((h[i].0.clone(), h[i].1.clone()));
        assert(headers_view(r@) =~= headers_view(before).push((h@[i as int].0@, h@[i as int].1@)));
        assert(h@.take(i + 1) =~= h@.take(i as int).push(h@[i as int]));
        assert(headers_view(h@.take(i + 1)) =~= headers_view(h@.take(i as int)).push(
            (h@[i as int].0@, h@[i as int].1@),
        ));
        i += 1;
    }
    assert(h@.take(h.len() as int) =~= h@);
    r
}

/// A POST to make: the body goes to `endpoint` as JSON, with these headers.
#[derive(Debug, Clone, PartialEq)]
pub struct HttpPost<B> {
    pub endpoint: String,
    pub headers: Headers,
    pub body: B,
}

/// How an HTTP call ended.
#[derive(Debug, Clone, PartialEq)]
pub enum HttpOutcome {
    /// The peer answered with this status.
    Status(u16),
    /// No answer: the transport failed or the call timed out. The text says
    /// how.
    Failed(String),
}

impl HttpOutcome {
    /// Whether the peer answered with 200.
    pub open spec fn accepted(self) -> bool {
        self matches HttpOutcome::Status(code) && code == STATUS_OK
    }

    /// The error text that this outcome amounts to: none for 200, `prefix`
    /// followed by the status for any other answer, and the transport's own
    /// text where there was no answer.
    pub open spec fn complaint(self, prefix: Seq<char>) -> Option<Seq<char>> {
        match self {
            HttpOutcome::Status(code) => if code == STATUS_OK {
                None
            } else {
                Some(prefix + crate::text::decimal(code as nat))
            },
            HttpOutcome::Failed(text) => Some(text@),
        }
    }

    /// The error text that this outcome amounts to, if any.
    pub fn complain(&self, prefix: &str) -> (r: Option<String>)
        ensures
            crate::bus::redis::opt_view(r) == self.complaint(prefix@),
    {
        match self {
            HttpOutcome::Status(code) => if *code == STATUS_OK {
                None
            } else {
                Some(crate::text::with_code(prefix, *code))
            },
            HttpOutcome::Failed(text) => Some(text.clone()),
        }
    }

    /// Whether the peer answered with 200.
    pub fn is_accepted(&self) -> (r: bool)
        ensures
            r == self.accepted(),
    {
        match self {
            HttpOutcome::Status(code) => *code == STATUS_OK,
            HttpOutcome::Failed(_) => false,
        }
    }
}

} // verus!
