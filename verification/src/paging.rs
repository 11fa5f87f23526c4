//! The paginated list response.

use vstd::prelude::*;

verus! {

/// Where a page stands in the whole result set.
#[derive(Debug, Clone)]
pub struct PageInfo {
    /// Whether more items follow the ones in this response.
    pub has_next: bool,
    /// How many items the whole result set holds.
    pub total: usize,
}

/// A list of items framed with its page metadata.
#[derive(Debug, Clone)]
pub struct PagedResponse<T> {
    pub items: Vec<T>,
    pub page_info: PageInfo,
}

impl<T> PagedResponse<T> {
    /// Whether this response holds a whole result set: nothing follows, and
    /// the total is the number of items at hand.
    pub open spec fn is_entire(&self) -> bool {
        &&& !self.page_info.has_next
        &&& self.page_info.total == self.items@.len()
    }

    /// Frames a whole result set: the items are kept as they are and in
    /// their order, the total is their number, and nothing follows.
    pub fn with_entire(data: Vec<T>) -> (r: Self)
        ensures
            r.items == data,
            r.page_info.has_next == false,
            r.page_info.total == data@.len(),
            r.is_entire(),
    {
        let total: usize = data.len();
        PagedResponse { items: data, page_info: PageInfo { has_next: false, total } }
    }
}

} // verus!
