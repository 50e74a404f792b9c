//! The display parameters a listing carries to the table renderer.

use crate::cli_args::{GetClockArgs, ListArgs};
use crate::non_zero::AtLeastOne;
use vstd::prelude::*;

verus! {

/// The display options of one listing: at most how many columns a row
/// may hold, if limited.
#[derive(Debug, Clone, Copy, PartialEq, Eq, Structural)]
pub struct ListingItemsParams(pub Option<AtLeastOne>);

impl ListingItemsParams {
    /// The column limit, if any.
    pub fn column_num(&self) -> (r: Option<AtLeastOne>)
        ensures
            r == self.0,
    {
        self.0
    }

    /// The display options a get command carries.
    pub fn from_get_args(args: &GetClockArgs) -> (r: ListingItemsParams)
        ensures
            r.0 == args.column_num.colums_num,
    {
        ListingItemsParams(args.column_num())
    }

    /// The display options a list command carries.
    pub fn from_list_args(args: &ListArgs) -> (r: ListingItemsParams)
        ensures
            r.0 == args.colums_num.colums_num,
    {
        ListingItemsParams(args.colums_num())
    }
}

impl Default for ListingItemsParams {
    /// No column limit.
    fn default() -> (r: Self)
        ensures
            r.0 is None,
    {
        ListingItemsParams(None)
    }
}

} // verus!
