//! How many rows a page shows.

use vstd::prelude::*;

verus! {

pub const PRODUCT_COUNT_PER_PAGE: i64 = 100;

pub const INCREDIENT_COUNT_PER_PAGE: i64 = 10;

pub const RECIPE_COUNT_PER_PAGE: i64 = 10;

} // verus!
