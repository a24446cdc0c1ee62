//! The envelope of a paginated answer.

use crate::store::table::images;
use vstd::prelude::*;

verus! {

/// The window that a page was cut with, and how many rows matched in all.
#[derive(Debug, Clone, Copy, PartialEq, Eq, Structural)]
pub struct PaginationObject {
    pub limit: i64,
    pub offset: i64,
    pub total_count: i64,
}

/// One page of rows.
#[derive(Debug)]
pub struct Paginated<T> {
    pub data: Vec<T>,
    pub pagination: PaginationObject,
}

/// What contracts say of a page: the images of its rows, and the envelope.
pub ghost struct PageImage<V> {
    pub data: Seq<V>,
    pub pagination: PaginationObject,
}

impl<T: View> View for Paginated<T> {
    type V = PageImage<T::V>;

    open spec fn view(&self) -> PageImage<T::V> {
        PageImage { data: images(self.data@), pagination: self.pagination }
    }
}

/// The rows of a window: those from `offset` on, and no more than `limit` of
/// them. A limit of zero or less is no limit, and an offset below zero is
/// the start.
pub open spec fn window<V>(rows: Seq<V>, limit: i64, offset: i64) -> Seq<V> {
    let start = if offset < 0 {
        0
    } else if offset <= rows.len() {
        offset as int
    } else {
        rows.len() as int
    };
    let end = if limit > 0 && start + limit <= rows.len() {
        start + limit
    } else {
        rows.len() as int
    };
    rows.subrange(start, end)
}

} // verus!
