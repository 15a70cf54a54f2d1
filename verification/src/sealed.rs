use crate::Block;
use vstd::prelude::*;

verus! {

/// Marker for the carriers that may render themselves through
/// [`ToMarkup`](crate::ToMarkup). The trait lives in a private module, so
/// the set of carriers is curated by this library.
pub trait Sealed {

}

impl Sealed for Vec<Block> {

}

impl<'a> Sealed for &'a [Block] {

}

} // verus!
