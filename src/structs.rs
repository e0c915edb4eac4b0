//! A record composed of plain fields and a `RandomInfo`.
use crate::decimal::Decimal;
use crate::rand_info::{RandomInfo, SomeTrait};
use vstd::prelude::*;

verus! {

impl RandomInfo {
    /// Whether the number is above `compare_to`. Counts nothing.
    pub fn is_larger(&self, compare_to: i64) -> (r: bool)
        ensures
            r == (self.some_int > compare_to),
    {
        self.some_int > compare_to
    }
}

/// A record that holds another record rather than extending it.
#[derive(Debug, Clone, Copy)]
pub struct MyData {
    pub some_bool: bool,
    pub some_decimal: Decimal,
    pub some_int: i32,
    pub random: RandomInfo,
}

impl SomeTrait for MyData {
    open spec fn valid(&self) -> bool {
        true
    }

    fn is_valid(&self) -> (r: bool) {
        true
    }
}

impl Default for MyData {
    /// The flag set, the decimal 10.3, the number 80, and `RandomInfo::new(true)`.
    fn default() -> (r: Self)
        ensures
            r.some_bool,
            r.some_decimal == (Decimal { units: 103, scale: 1 }),
            r.some_int == 80,
            r.random == (RandomInfo { call_count: 0, some_bool: false, some_int: 8 }),
    {
        Self {
            some_bool: true,
            some_decimal: Decimal::new(103, 1),
            some_int: 80,
            random: RandomInfo::new(true),
        }
    }
}

} // verus!
