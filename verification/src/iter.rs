//! A pull-based sequence of items.

use crate::option::MyOption;
use vstd::prelude::*;

verus! {

/// A producer of items, pulled one at a time.
///
/// `next` hands out the next item as `Present`, or `Absent` once the sequence
/// is exhausted. Nothing more is fixed here: which items come, and how many,
/// is up to the implementing type.
pub trait MyIterator {
    type Item;

    fn next(&mut self) -> MyOption<Self::Item>;
}

} // verus!
