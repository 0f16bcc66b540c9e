//! The records the panel works on, and how the models of their parts are
//! put together.

use vstd::prelude::*;

pub mod account;
pub mod bookmarks;

verus! {

/// The model of a value that may be absent.
pub open spec fn optional_model<T: View>(value: Option<T>) -> Option<T::V> {
    match value {
        Some(v) => Some(v@),
        None => None,
    }
}

/// The models of the items of a list, in the list's order.
pub open spec fn seq_model<T: View>(items: Seq<T>) -> Seq<T::V> {
    Seq::new(items.len(), |i: int| items[i]@)
}

} // verus!
