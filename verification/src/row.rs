use vstd::prelude::*;

verus! {

/// A single row retrieved from a data store.
///
/// `T` is the type that wraps one column's value until it is decoded.
pub trait DataRow<T> {
    /// The value held in the named column.
    fn get(&self, column_name: &str) -> T;
}

} // verus!
