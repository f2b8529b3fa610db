//! What a deployment configures: which headers carry trace, span and request
//! ids, in which order of preference, and which records are blacklisted.
use vstd::prelude::*;

verus! {

/// A header that may carry a trace id or a span id, and how to read the id
/// out of its value.
pub trait TraceCarrier {
    /// Whether a (lower-case) header name is this carrier's.
    spec fn spec_check(&self, key: Seq<char>) -> bool;

    /// The trace id read out of a header value, if there is one.
    spec fn spec_trace_id(&self, value: Seq<char>) -> Option<Seq<char>>;

    /// The span id read out of a header value, if there is one.
    spec fn spec_span_id(&self, value: Seq<char>) -> Option<Seq<char>>;

    fn check(&self, key: &str) -> (r: bool)
        ensures
            r == self.spec_check(key@),
    ;

    fn decode_trace_id(&self, value: &str) -> (r: Option<String>)
        ensures
            r is Some <==> self.spec_trace_id(value@) is Some,
            r matches Some(id) ==> self.spec_trace_id(value@) == Some(id@),
    ;

    fn decode_span_id(&self, value: &str) -> (r: Option<String>)
        ensures
            r is Some <==> self.spec_span_id(value@) is Some,
            r matches Some(id) ==> self.spec_span_id(value@) == Some(id@),
    ;
}

/// A carrier named by its header, whose whole value is the id.
pub struct HeaderCarrier {
    pub name: String,
}

impl TraceCarrier for HeaderCarrier {
    open spec fn spec_check(&self, key: Seq<char>) -> bool {
        key == self.name@
    }

    open spec fn spec_trace_id(&self, value: Seq<char>) -> Option<Seq<char>> {
        Some(value)
    }

    open spec fn spec_span_id(&self, value: Seq<char>) -> Option<Seq<char>> {
        Some(value)
    }

    fn check(&self, key: &str) -> (r: bool) {
        let key = key.to_owned();
        self.name == key
    }

    fn decode_trace_id(&self, value: &str) -> (r: Option<String>) {
        Some(value.to_owned())
    }

    fn decode_span_id(&self, value: &str) -> (r: Option<String>) {
        Some(value.to_owned())
    }
}

/// The ordered carrier lists: an earlier entry is a stronger match.
pub struct L7LogDynamicConfig<C> {
    pub trace_types: Vec<C>,
    pub span_types: Vec<C>,
    /// Lower-case names of the headers that carry a request id.
    pub x_request_id: Vec<String>,
}

/// Tells whether a value is on a blacklist.
pub trait BlacklistMatcher {
    spec fn spec_is_on_blacklist(&self, s: Seq<char>) -> bool;

    fn is_on_blacklist(&self, s: &String) -> (r: bool)
        ensures
            r == self.spec_is_on_blacklist(s@),
    ;
}

/// A blacklist of exact values.
pub struct ExactMatcher {
    pub values: Vec<String>,
}

impl BlacklistMatcher for ExactMatcher {
    open spec fn spec_is_on_blacklist(&self, s: Seq<char>) -> bool {
        exists|i: int| 0 <= i < self.values@.len() && #[trigger] self.values@[i]@ == s
    }

    fn is_on_blacklist(&self, s: &String) -> (r: bool) {
        let mut i: usize = 0;
        while i < self.values.len()
            invariant
                i <= self.values@.len(),
                forall|j: int| 0 <= j < i ==> #[trigger] self.values@[j]@ != s@,
            decreases self.values@.len() - i,
        {
            if self.values[i] == *s {
                return true;
            }
            i += 1;
        }
        false
    }
}

/// The blacklists of this protocol, one per field of a record.
pub struct BlacklistTrie<M> {
    pub request_resource: M,
    pub request_type: M,
    pub request_domain: M,
    pub endpoint: M,
}

} // verus!
