use vstd::prelude::*;

verus! {

/// A date and time without a time zone: whole seconds since 1970-01-01 00:00:00
/// and the nanoseconds past that second (past 999_999_999 only in a leap second).
#[derive(Clone, Copy, Debug, PartialEq, Eq, Structural)]
pub struct Timestamp {
    pub seconds: i64,
    pub nanos: u32,
}

/// A row of the restock history table: a quantity added to an inventory row at
/// a point in time.
#[derive(Clone, Copy, Debug, PartialEq, Eq, Structural)]
pub struct RestockHistory {
    pub restock_id: i32,
    pub inventory_id: i32,
    pub quantity: i32,
    pub datetime: Timestamp,
}

} // verus!
