//! The rule table: which rule decides about a payload.
//!
//! Patterns are compiled and run by the `fancy_regex` crate. What a pattern
//! matches is not described here; the contracts speak of it by name.

use crate::bus::nats::{ClientMessage, Message};
use crate::error::Failure;
use crate::worker::config::{DestinationRoute, RegexRule};
use vstd::prelude::*;

verus! {

/// `fancy_regex::Regex`, a compiled pattern.
#[verifier::external_type_specification]
#[verifier::external_body]
pub struct ExRegex(fancy_regex::Regex);

/// `fancy_regex::Error`, what compiling or running a pattern can fail with.
#[verifier::external_type_specification]
#[verifier::external_body]
pub struct ExRegexError(fancy_regex::Error);

/// Whether `fancy_regex::Regex::new` accepts `pattern`.
pub uninterp spec fn compiles(pattern: Seq<char>) -> bool;

/// The pattern text that a compiled pattern was made from: what
/// `fancy_regex::Regex::as_str` returns.
pub uninterp spec fn source_of(regex: fancy_regex::Regex) -> Seq<char>;

/// Whether a compiled pattern came out of `fancy_regex::Regex::new`, that is
/// with the crate's default options, rather than out of a builder.
pub uninterp spec fn plain(regex: fancy_regex::Regex) -> bool;

/// What `fancy_regex::Regex::is_match` returns for `text` on what
/// `fancy_regex::Regex::new` made of `pattern`: whether it matches somewhere,
/// or `None` where the run is given up.
pub uninterp spec fn matching(pattern: Seq<char>, text: Seq<char>) -> Option<bool>;

/// Calls `fancy_regex::Regex::new`.
///
/// Trusted: it succeeds on the patterns named by [`compiles`], and the
/// compiled pattern remembers the text it was made from.
#[verifier::external_body]
fn compile(pattern: &str) -> (r: Result<fancy_regex::Regex, fancy_regex::Error>)
    ensures
        r is Ok <==> compiles(pattern@),
        r is Ok ==> source_of(r.unwrap()) == pattern@ && plain(r.unwrap()),
{
    fancy_regex::Regex::new(pattern)
}

/// Calls `fancy_regex::Regex::is_match`.
///
/// Trusted: for a pattern that `Regex::new` compiled, the answer depends on
/// the pattern text and on `text` alone, and is the one named by
/// [`matching`]; an error stands for `None`.
#[verifier::external_body]
fn is_match(regex: &fancy_regex::Regex, text: &str) -> (r: Result<bool, fancy_regex::Error>)
    requires
        plain(*regex),
    ensures
        match r {
            Ok(found) => matching(source_of(*regex), text@) == Some(found),
            Err(_) => matching(source_of(*regex), text@) is None,
        },
{
    regex.is_match(text)
}

/// Writes a `fancy_regex::Error` with its `to_string`. Nothing is claimed of
/// the text.
#[verifier::external_body]
fn describe(error: &fancy_regex::Error) -> (text: String) {
    error.to_string()
}

/// What a rule says about a payload.
pub ghost enum Verdict {
    /// The pattern matches somewhere in the payload.
    Matches,
    /// The pattern is sound and does not match.
    NoMatch,
    /// The pattern does not compile, or its run was given up.
    Invalid,
}

/// What the rule with `pattern` says about `text`.
pub open spec fn verdict(pattern: Seq<char>, text: Seq<char>) -> Verdict {
    if !compiles(pattern) {
        Verdict::Invalid
    } else {
        match matching(pattern, text) {
            Some(true) => Verdict::Matches,
            Some(false) => Verdict::NoMatch,
            None => Verdict::Invalid,
        }
    }
}

/// Whether none of the first `n` rules matches `text`, all of them sound.
pub open spec fn none_before(rules: Seq<RegexRule>, n: int, text: Seq<char>) -> bool {
    forall|j: int| 0 <= j < n ==> verdict((#[trigger] rules[j]).regex@, text) == Verdict::NoMatch
}

/// Whether rule `i` is the first that does not say `NoMatch`, and says `v`.
pub open spec fn decides(rules: Seq<RegexRule>, i: int, text: Seq<char>, v: Verdict) -> bool {
    &&& 0 <= i < rules.len()
    &&& verdict(rules[i].regex@, text) == v
    &&& none_before(rules, i, text)
}

/// A compiled pattern together with the text it was compiled from.
pub struct CachedRegex {
    pattern: String,
    regex: fancy_regex::Regex,
}

/// The compiled patterns of a worker, by pattern text, so that each pattern
/// is compiled once.
pub struct RegexCache {
    entries: Vec<CachedRegex>,
}

impl RegexCache {
    /// Every entry holds the compiled form of its own pattern text.
    #[verifier::type_invariant]
    closed spec fn well_formed(&self) -> bool {
        forall|i: int|
            0 <= i < self.entries@.len() ==> {
                &&& source_of((#[trigger] self.entries@[i]).regex) == self.entries@[i].pattern@
                &&& plain(self.entries@[i].regex)
                &&& compiles(self.entries@[i].pattern@)
            }
    }

    /// The pattern texts held, in the order in which they were compiled.
    pub closed spec fn patterns(&self) -> Seq<Seq<char>> {
        Seq::new(self.entries@.len(), |i: int| self.entries@[i].pattern@)
    }

    pub fn new() -> (c: Self)
        ensures
            c.patterns() == Seq::<Seq<char>>::empty(),
    {
        let c = RegexCache { entries: Vec::new() };
        assert(c.patterns() =~= Seq::<Seq<char>>::empty());
        c
    }

    /// The number of compiled patterns held.
    pub fn len(&self) -> (n: usize)
        ensures
            n == self.patterns().len(),
    {
        self.entries.len()
    }

    fn position(&self, pattern: &String) -> (r: Option<usize>)
        ensures
            match r {
                Some(i) => i < self.entries@.len() && self.entries@[i as int].pattern@
                    == pattern@,
                None => !self.patterns().contains(pattern@),
            },
    {
        let mut i: usize = 0;
        while i < self.entries.len()
            invariant
                i <= self.entries.len(),
                forall|j: int| 0 <= j < i ==> self.entries@[j].pattern@ != pattern@,
            decreases self.entries.len() - i,
        {
            if self.entries[i].pattern == *pattern {
                return Some(i);
            }
            i += 1;
        }
        proof {
            assert forall|j: int| 0 <= j < self.patterns().len() implies self.patterns()[j]
                != pattern@ by {}
        }
        None
    }

    /// Whether `text` matches `pattern`, compiling the pattern unless the
    /// cache holds it already. A pattern that compiles is held afterwards;
    /// nothing else changes.
    pub fn check(&mut self, pattern: &String, text: &String) -> (r: Result<bool, Failure>)
        ensures
            match r {
                Ok(found) => verdict(pattern@, text@) == if found {
                    Verdict::Matches
                } else {
                    Verdict::NoMatch
                },
                Err(e) => verdict(pattern@, text@) == Verdict::Invalid && e@ is InvalidRegex,
            },
            final(self).patterns() == if old(self).patterns().contains(pattern@) || !compiles(
                pattern@,
            ) {
                old(self).patterns()
            } else {
                old(self).patterns().push(pattern@)
            },
    {
        proof {
            use_type_invariant(&*self);
        }
        let at = match self.position(pattern) {
            Some(i) => {
                assert(self.patterns()[i as int] == pattern@);
                i
            },
            None => {
                match compile(pattern.as_str()) {
                    Ok(regex) => {
                        let mut entries: Vec<CachedRegex> = Vec::new();
                        std::mem::swap(&mut self.entries, &mut entries);
                        entries.push(CachedRegex { pattern: pattern.clone(), regex });
                        self.entries = entries;
                        assert(self.patterns() =~= old(self).patterns().push(pattern@));
                        self.entries.len() - 1
                    },
                    Err(e) => {
                        assert(self.patterns() =~= old(self).patterns());
                        return Err(Failure::InvalidRegex(describe(&e)));
                    },
                }
            },
        };
        proof {
            if old(self).patterns().contains(pattern@) {
                assert(self.patterns() =~= old(self).patterns());
            }
            assert(source_of(self.entries@[at as int].regex) == pattern@);
            assert(compiles(pattern@));
        }
        match is_match(&self.entries[at].regex, text.as_str()) {
            Ok(found) => Ok(found),
            Err(e) => Err(Failure::InvalidRegex(describe(&e))),
        }
    }
}

/// Finds the rule that decides about the payload of `msg`: the first whose
/// pattern matches it. A pattern that cannot be compiled or run ends the
/// search with an error, unless an earlier rule matched.
pub fn first_regex_matches<'a>(
    rules: &'a Vec<RegexRule>,
    cache: &mut RegexCache,
    msg: &Message<ClientMessage>,
) -> (r: Result<Option<&'a DestinationRoute>, Failure>)
    ensures
        match r {
            Ok(Some(route)) => exists|i: int|
                #![trigger rules@[i]]
                decides(rules@, i, msg.data.message@, Verdict::Matches) && *route
                    == rules@[i].route,
            Ok(None) => none_before(rules@, rules@.len() as int, msg.data.message@),
            Err(e) => e@ is InvalidRegex && exists|i: int|
                #![trigger rules@[i]]
                decides(rules@, i, msg.data.message@, Verdict::Invalid),
        },
{
    let mut i: usize = 0;
    while i < rules.len()
        invariant
            i <= rules.len(),
            none_before(rules@, i as int, msg.data.message@),
        decreases rules.len() - i,
    {
        match cache.check(&rules[i].regex, &msg.data.message) {
            Ok(found) => {
                if found {
                    assert(decides(rules@, i as int, msg.data.message@, Verdict::Matches));
                    return Ok(Some(&rules[i].route));
                }
            },
            Err(e) => {
                assert(decides(rules@, i as int, msg.data.message@, Verdict::Invalid));
                return Err(e);
            },
        }
        i += 1;
    }
    Ok(None)
}

} // verus!
