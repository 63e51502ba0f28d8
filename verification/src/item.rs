//! The normalized feed entry that crosses both engine boundaries.

use vstd::prelude::*;

use crate::time::Timestamp;

verus! {

/// One published entry: title, publication instant, canonical URL.
///
/// An item is an immutable value; equality and ordering read the fields
/// alone, and `pub_date` ordering drives deduplication in the poll loop.
#[derive(Debug)]
pub struct Item {
    pub title: String,
    pub pub_date: Timestamp,
    pub url: String,
}

impl Clone for Item {
    fn clone(&self) -> (r: Item)
        ensures
            r == *self,
    {
        Item { title: self.title.clone(), pub_date: self.pub_date, url: self.url.clone() }
    }
}

impl PartialEq for Item {
    fn eq(&self, other: &Item) -> (r: bool) {
        self.title == other.title && self.pub_date.millis == other.pub_date.millis
            && self.url == other.url
    }
}

impl vstd::std_specs::cmp::PartialEqSpecImpl for Item {
    open spec fn obeys_eq_spec() -> bool {
        true
    }

    open spec fn eq_spec(&self, other: &Item) -> bool {
        self.title@ == other.title@ && self.pub_date@ == other.pub_date@
            && self.url@ == other.url@
    }
}

} // verus!
