//! The records that a board is named after.

use vstd::prelude::*;

verus! {

/// A user of the board, as the store holds one.
#[derive(Debug)]
pub struct User {
    pub id: i32,
    pub name: String,
}

/// A board's entry in the store.
#[derive(Debug)]
pub struct Board {
    pub id: i32,
    pub name: String,
}

} // verus!
