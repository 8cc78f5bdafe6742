//! Bounded recorder of observed network requests, gated by filters.
//!
//! A [`NetworkMonitor`] keeps a rolling, oldest-first history of at most
//! `max_requests` records. A record is retained only if it matches at
//! least one configured [`RequestFilter`] (OR across filters); when the
//! history is full the oldest record is evicted first. Clearing the
//! history leaves the filters in place: the two have separate
//! lifecycles.

use vstd::prelude::*;

use crate::errors::{ConfigurationError, FilterError};
use crate::text::{contains_seq, contains_substr, eq_ignore_ascii, str_eq_ignore_ascii_case};

verus! {

/// One observed outbound request. Immutable once recorded.
#[derive(Debug, Clone)]
pub struct RequestData {
    pub url: String,
    pub method: String,
    pub headers: Vec<(String, String)>,
    pub body: Option<Vec<u8>>,
}

/// A retention rule: a URL substring, an optional exact method, and a
/// set of header names that must all be present (names compared without
/// regard to ASCII case; values are irrelevant).
#[derive(Debug, Clone)]
pub struct RequestFilter {
    pub url_pattern: String,
    pub method: Option<String>,
    pub headers: Vec<String>,
}

/// Is a header with this name (up to ASCII case) present?
pub open spec fn header_present(headers: Seq<(String, String)>, name: Seq<char>) -> bool {
    exists|j: int| 0 <= j < headers.len() && eq_ignore_ascii(headers[j].0@, name)
}

/// Does `f` match `r`? The URL must contain the filter's substring, the
/// method must equal the filter's (when one is given), and every header
/// name the filter requires must be present in the record.
pub open spec fn filter_matches(f: RequestFilter, r: RequestData) -> bool {
    &&& contains_seq(r.url@, f.url_pattern@)
    &&& (match f.method {
        Some(m) => m@ == r.method@,
        None => true,
    })
    &&& (forall|i: int| 0 <= i < f.headers@.len() ==> header_present(r.headers@, f.headers@[i]@))
}

/// Does at least one filter match `r`? False whenever `filters` is
/// empty.
pub open spec fn matches_any(filters: Seq<RequestFilter>, r: RequestData) -> bool {
    exists|i: int| 0 <= i < filters.len() && filter_matches(filters[i], r)
}

/// A well-formed filter: no empty match expression anywhere. An empty
/// URL substring, an empty method, or an empty required header name is
/// rejected at `add_filter` time.
pub open spec fn filter_well_formed(f: RequestFilter) -> bool {
    &&& f.url_pattern@.len() > 0
    &&& (match f.method {
        Some(m) => m@.len() > 0,
        None => true,
    })
    &&& (forall|i: int| 0 <= i < f.headers@.len() ==> f.headers@[i]@.len() > 0)
}

/// The history after offering `r` to a recorder holding `records` with
/// bound `max`: retained only on a filter match, evicting the oldest
/// record first when full.
pub open spec fn intercept_model(
    records: Seq<RequestData>,
    filters: Seq<RequestFilter>,
    max: nat,
    r: RequestData,
) -> Seq<RequestData> {
    if matches_any(filters, r) {
        if records.len() >= max {
            records.subrange(1, records.len() as int).push(r)
        } else {
            records.push(r)
        }
    } else {
        records
    }
}

impl RequestFilter {
    /// Evaluates this filter against one record.
    pub fn matches(&self, request: &RequestData) -> (r: bool)
        ensures
            r == filter_matches(*self, *request),
    {
        if !contains_substr(request.url.as_str(), self.url_pattern.as_str()) {
            return false;
        }
        match &self.method {
            Some(method) => {
                if !(*method == request.method) {
                    return false;
                }
            },
            None => {},
        }
        let n = self.headers.len();
        let mut i: usize = 0;
        while i < n
            invariant
                n == self.headers@.len(),
                i <= n,
                forall|k: int| 0 <= k < i ==> header_present(request.headers@, self.headers@[k]@),
            decreases n - i,
        {
            if !has_header(&request.headers, &self.headers[i]) {
                return false;
            }
            i = i + 1;
        }
        true
    }
}

/// Is a header with name `name` (up to ASCII case) among `headers`?
fn has_header(headers: &Vec<(String, String)>, name: &String) -> (r: bool)
    ensures
        r == header_present(headers@, name@),
{
    let n = headers.len();
    let mut j: usize = 0;
    while j < n
        invariant
            n == headers@.len(),
            j <= n,
            forall|k: int| 0 <= k < j ==> !eq_ignore_ascii(headers@[k].0@, name@),
        decreases n - j,
    {
        if str_eq_ignore_ascii_case(headers[j].0.as_str(), name.as_str()) {
            return true;
        }
        j = j + 1;
    }
    false
}

/// The bounded, filter-gated request recorder of a session.
pub struct NetworkMonitor {
    requests: Vec<RequestData>,
    filters: Vec<RequestFilter>,
    max_requests: usize,
}

impl NetworkMonitor {
    /// The retained history, oldest first.
    pub closed spec fn records(&self) -> Seq<RequestData> {
        self.requests@
    }

    /// The configured filters, in the order they were added.
    pub closed spec fn filters_spec(&self) -> Seq<RequestFilter> {
        self.filters@
    }

    /// The configured history bound.
    pub closed spec fn max_spec(&self) -> nat {
        self.max_requests as nat
    }

    /// Well-formedness: a positive bound that the history never exceeds.
    pub closed spec fn wf(&self) -> bool {
        self.max_requests >= 1 && self.requests@.len() <= self.max_requests
    }

    /// Creates a recorder that retains at most `max_requests` records
    /// and starts with no filters. A zero bound is a configuration
    /// error.
    pub fn new(max_requests: usize) -> (r: Result<NetworkMonitor, ConfigurationError>)
        ensures
            r is Err <==> max_requests == 0,
            (r matches Ok(m) ==> {
                &&& m.wf()
                &&& m.max_spec() == max_requests
                &&& m.records() == Seq::<RequestData>::empty()
                &&& m.filters_spec() == Seq::<RequestFilter>::empty()
            }),
    {
        if max_requests == 0 {
            Err(ConfigurationError)
        } else {
            Ok(NetworkMonitor { requests: Vec::new(), filters: Vec::new(), max_requests })
        }
    }

    /// Appends a filter. A malformed filter (an empty match expression)
    /// fails with a [`FilterError`] and is not added; the filters added
    /// earlier remain intact either way.
    pub fn add_filter(&mut self, filter: RequestFilter) -> (r: Result<(), FilterError>)
        ensures
            r is Ok <==> filter_well_formed(filter),
            (r is Ok ==> final(self).filters_spec() == old(self).filters_spec().push(filter)),
            (r is Err ==> final(self).filters_spec() == old(self).filters_spec()),
            final(self).records() == old(self).records(),
            final(self).max_spec() == old(self).max_spec(),
            old(self).wf() ==> final(self).wf(),
    {
        if filter.url_pattern.as_str().is_empty() {
            return Err(FilterError);
        }
        match &filter.method {
            Some(m) => {
                if m.as_str().is_empty() {
                    return Err(FilterError);
                }
            },
            None => {},
        }
        let n = filter.headers.len();
        let mut i: usize = 0;
        while i < n
            invariant
                n == filter.headers@.len(),
                i <= n,
                forall|k: int| 0 <= k < i ==> filter.headers@[k]@.len() > 0,
                self == old(self),
            decreases n - i,
        {
            if filter.headers[i].as_str().is_empty() {
                return Err(FilterError);
            }
            i = i + 1;
        }
        self.filters.push(filter);
        Ok(())
    }

    /// Offers one record. It is retained only if some filter matches;
    /// when the history is already full, the oldest record is evicted
    /// first. A record that matches nothing is dropped silently — that
    /// is not an error.
    pub fn intercept_request(&mut self, request: RequestData)
        requires
            old(self).wf(),
        ensures
            final(self).wf(),
            final(self).records() == intercept_model(
                old(self).records(),
                old(self).filters_spec(),
                old(self).max_spec(),
                request,
            ),
            final(self).filters_spec() == old(self).filters_spec(),
            final(self).max_spec() == old(self).max_spec(),
    {
        let n = self.filters.len();
        let mut matched = false;
        let mut i: usize = 0;
        while i < n
            invariant
                n == self.filters@.len(),
                i <= n,
                matched == (exists|k: int|
                    0 <= k < i && #[trigger] filter_matches(self.filters@[k], request)),
            decreases n - i,
        {
            if self.filters[i].matches(&request) {
                matched = true;
            }
            i = i + 1;
        }
        proof {
            assert(matched == matches_any(self.filters@, request));
        }
        if matched {
            if self.requests.len() >= self.max_requests {
                self.requests.remove(0);
                proof {
                    assert(self.requests@ =~= old(self).records().subrange(
                        1,
                        old(self).records().len() as int,
                    ));
                }
            }
            self.requests.push(request);
        }
    }

    /// Empties the history. The filters are not cleared: they have a
    /// separate lifecycle.
    pub fn clear_old_requests(&mut self)
        ensures
            final(self).records() == Seq::<RequestData>::empty(),
            final(self).filters_spec() == old(self).filters_spec(),
            final(self).max_spec() == old(self).max_spec(),
            old(self).wf() ==> final(self).wf(),
    {
        self.requests.clear();
    }

    /// The retained history, oldest first.
    pub fn recorded_requests(&self) -> (r: &Vec<RequestData>)
        ensures
            r@ == self.records(),
    {
        &self.requests
    }

    /// How many records are currently retained.
    pub fn request_count(&self) -> (n: usize)
        ensures
            n == self.records().len(),
    {
        self.requests.len()
    }

    /// How many filters are configured.
    pub fn filter_count(&self) -> (n: usize)
        ensures
            n == self.filters_spec().len(),
    {
        self.filters.len()
    }

    /// The configured history bound.
    pub fn max_records(&self) -> (n: usize)
        ensures
            n == self.max_spec(),
    {
        self.max_requests
    }
}

/// A record that matches no filter is never retained, whatever the
/// history holds.
pub proof fn lemma_unmatched_never_retained(
    records: Seq<RequestData>,
    filters: Seq<RequestFilter>,
    max: nat,
    r: RequestData,
)
    requires
        !matches_any(filters, r),
    ensures
        intercept_model(records, filters, max, r) == records,
{
}

/// With no filters configured, nothing is ever recorded.
pub proof fn lemma_no_filters_retain_nothing(records: Seq<RequestData>, max: nat, r: RequestData)
    ensures
        intercept_model(records, Seq::<RequestFilter>::empty(), max, r) == records,
{
}

} // verus!
