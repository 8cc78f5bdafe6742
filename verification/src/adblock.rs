//! URL blocking by regular-expression filters.
//!
//! An [`AdBlocker`] keeps the raw filter patterns that were added and,
//! separately, those that compile as regular expressions; a URL is
//! blocked when some compiled pattern matches it. The regular-expression
//! engine is the `regex` crate behind the two trusted wrappers below;
//! what a pattern accepts is named, not restated.

use vstd::prelude::*;

verus! {

/// Whether `regex::Regex::new` accepts `pattern`. Compilation succeeds
/// or fails on the pattern text alone.
pub uninterp spec fn regex_valid(pattern: Seq<char>) -> bool;

/// Whether the regular expression compiled from `pattern` matches
/// somewhere in `text`. The outcome depends on the two texts alone.
pub uninterp spec fn regex_accepts(pattern: Seq<char>, text: Seq<char>) -> bool;

/// Relies on `regex::Regex::new`: a pattern either compiles or is
/// rejected, deterministically in the pattern text.
#[verifier::external_body]
fn regex_compiles(pattern: &str) -> (r: bool)
    ensures
        r == regex_valid(pattern@),
{
    regex::Regex::new(pattern).is_ok()
}

/// Relies on `regex::Regex::is_match`, on the expression that
/// `regex::Regex::new` compiles from `pattern`: the match outcome is a
/// function of pattern and text.
#[verifier::external_body]
fn regex_is_match(pattern: &str, text: &str) -> (r: bool)
    requires
        regex_valid(pattern@),
    ensures
        r == regex_accepts(pattern@, text@),
{
    match regex::Regex::new(pattern) {
        Ok(re) => re.is_match(text),
        Err(_) => false,
    }
}

/// Does some pattern in `patterns` compile and match `url`?
pub open spec fn some_pattern_matches(patterns: Seq<String>, url: Seq<char>) -> bool {
    exists|i: int|
        0 <= i < patterns.len() && regex_valid(patterns[i]@) && #[trigger] regex_accepts(
            patterns[i]@,
            url,
        )
}

/// Is a string with this text in the list?
pub open spec fn has_text(list: Seq<String>, text: Seq<char>) -> bool {
    exists|i: int| 0 <= i < list.len() && list[i]@ == text
}

/// The URL filter of a session: raw patterns as added (kept unique) and
/// the compiled ones actually used for blocking.
pub struct AdBlocker {
    filters: Vec<String>,
    patterns: Vec<String>,
    enabled: bool,
}

impl AdBlocker {
    /// The texts of the raw filter patterns, in insertion order.
    pub closed spec fn filter_texts(&self) -> Seq<String> {
        self.filters@
    }

    /// The patterns that compiled, in insertion order.
    pub closed spec fn pattern_texts(&self) -> Seq<String> {
        self.patterns@
    }

    /// Is blocking switched on?
    pub closed spec fn enabled_spec(&self) -> bool {
        self.enabled
    }

    /// Creates an enabled blocker with no filters.
    pub fn new() -> (r: AdBlocker)
        ensures
            r.enabled_spec(),
            r.filter_texts() == Seq::<String>::empty(),
            r.pattern_texts() == Seq::<String>::empty(),
    {
        AdBlocker { filters: Vec::new(), patterns: Vec::new(), enabled: true }
    }

    /// Records a filter pattern. The raw pattern is remembered once;
    /// only a pattern that compiles as a regular expression joins the
    /// set used for blocking — an invalid one is skipped silently.
    pub fn add_filter(&mut self, pattern: &str)
        ensures
            (has_text(old(self).filter_texts(), pattern@) ==> final(self).filter_texts() == old(
                self,
            ).filter_texts()),
            (!has_text(old(self).filter_texts(), pattern@) ==> {
                &&& final(self).filter_texts().len() == old(self).filter_texts().len() + 1
                &&& final(self).filter_texts()[old(self).filter_texts().len() as int]@ == pattern@
                &&& (forall|i: int|
                    0 <= i < old(self).filter_texts().len() ==> final(self).filter_texts()[i]
                        == old(self).filter_texts()[i])
            }),
            (regex_valid(pattern@) ==> {
                &&& final(self).pattern_texts().len() == old(self).pattern_texts().len() + 1
                &&& final(self).pattern_texts()[old(self).pattern_texts().len() as int]@
                    == pattern@
                &&& (forall|i: int|
                    0 <= i < old(self).pattern_texts().len() ==> final(self).pattern_texts()[i]
                        == old(self).pattern_texts()[i])
            }),
            (!regex_valid(pattern@) ==> final(self).pattern_texts() == old(self).pattern_texts()),
            final(self).enabled_spec() == old(self).enabled_spec(),
    {
        let owned = pattern.to_owned();
        let n = self.filters.len();
        let mut seen = false;
        let mut i: usize = 0;
        while i < n
            invariant
                n == self.filters@.len(),
                i <= n,
                owned@ == pattern@,
                *self == *old(self),
                seen == (exists|k: int| 0 <= k < i && #[trigger] self.filters@[k]@ == pattern@),
            decreases n - i,
        {
            if self.filters[i] == owned {
                seen = true;
            }
            i = i + 1;
        }
        if !seen {
            self.filters.push(owned);
        }
        if regex_compiles(pattern) {
            self.patterns.push(pattern.to_owned());
        }
    }

    /// Should this URL be blocked? True exactly when blocking is enabled
    /// and some compiled pattern matches the URL.
    pub fn should_block(&self, url: &str) -> (r: bool)
        ensures
            r == (self.enabled_spec() && some_pattern_matches(self.pattern_texts(), url@)),
    {
        if !self.enabled {
            return false;
        }
        let n = self.patterns.len();
        let mut i: usize = 0;
        while i < n
            invariant
                self.enabled_spec(),
                n == self.patterns@.len(),
                i <= n,
                forall|k: int|
                    0 <= k < i ==> !(regex_valid(self.patterns@[k]@) && #[trigger] regex_accepts(
                        self.patterns@[k]@,
                        url@,
                    )),
            decreases n - i,
        {
            let p = &self.patterns[i];
            if regex_compiles(p.as_str()) {
                if regex_is_match(p.as_str(), url) {
                    proof {
                        assert(regex_accepts(self.patterns@[i as int]@, url@));
                    }
                    return true;
                }
            }
            i = i + 1;
        }
        false
    }

    /// Is blocking switched on?
    pub fn is_enabled(&self) -> (r: bool)
        ensures
            r == self.enabled_spec(),
    {
        self.enabled
    }

    /// How many raw filter patterns are recorded.
    pub fn filter_count(&self) -> (n: usize)
        ensures
            n == self.filter_texts().len(),
    {
        self.filters.len()
    }
}

} // verus!
