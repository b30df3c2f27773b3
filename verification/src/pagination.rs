//! Paging through list-returning queries.
//!
//! A descriptor is built fresh per call and is stateless: the next page's
//! key comes from the response, which is outside this core. Key and offset
//! are alternatives — a well-formed request sets at most one meaningfully —
//! but, deliberately, nothing here rejects setting both: that discipline is
//! the caller's, and the wire projection copies the fields untouched.

use vstd::prelude::*;

use crate::wire::RawPageRequest;

verus! {

/// Describes how to page through a list-returning query.
#[derive(Clone, Debug)]
pub struct PageRequest {
    /// Opaque continuation key returned by the previous page's response;
    /// empty means start from the beginning.
    pub key: Vec<u8>,
    /// Numeric offset, the less efficient alternative to `key`.
    pub offset: u64,
    /// Total number of results to return in the page.
    pub limit: u64,
    /// Ask the remote side to count the total number of items; only honored
    /// with offset-based paging.
    pub count_total: bool,
    /// Return results in descending order.
    pub reverse: bool,
}

impl Default for PageRequest {
    /// Empty key, offset zero, limit zero, no total count, forward order.
    fn default() -> (r: PageRequest)
        ensures
            r.key@ == Seq::<u8>::empty(),
            r.offset == 0,
            r.limit == 0,
            !r.count_total,
            !r.reverse,
    {
        PageRequest { key: Vec::new(), offset: 0, limit: 0, count_total: false, reverse: false }
    }
}

impl PageRequest {
    /// Requests every item in one page: empty key, offset zero, the maximum
    /// representable limit, no total count, forward order.
    pub fn all() -> (r: PageRequest)
        ensures
            r.key@ == Seq::<u8>::empty(),
            r.offset == 0,
            r.limit == u64::MAX,
            !r.count_total,
            !r.reverse,
    {
        let mut request = PageRequest::default();
        request.limit = u64::MAX;
        request
    }

    /// Projects into the wire pagination sub-message: a field-for-field
    /// copy, with no validation.
    pub fn into_raw(self) -> (r: RawPageRequest)
        ensures
            r.key@ == self.key@,
            r.offset == self.offset,
            r.limit == self.limit,
            r.count_total == self.count_total,
            r.reverse == self.reverse,
    {
        RawPageRequest {
            key: self.key,
            offset: self.offset,
            limit: self.limit,
            count_total: self.count_total,
            reverse: self.reverse,
        }
    }
}

/// The wire form of an optional pagination descriptor: present exactly when
/// the descriptor is, and then a field-for-field copy.
pub open spec fn pagination_matches(p: Option<PageRequest>, r: Option<RawPageRequest>) -> bool {
    match (p, r) {
        (Option::None, Option::None) => true,
        (Option::Some(p), Option::Some(r)) => r.key@ == p.key@ && r.offset == p.offset
            && r.limit == p.limit && r.count_total == p.count_total && r.reverse == p.reverse,
        _ => false,
    }
}

/// Projects an optional pagination descriptor into its wire form.
pub(crate) fn pagination_into_raw(p: Option<PageRequest>) -> (r: Option<RawPageRequest>)
    ensures
        pagination_matches(p, r),
{
    match p {
        Option::Some(page) => Option::Some(page.into_raw()),
        Option::None => Option::None,
    }
}

} // verus!
