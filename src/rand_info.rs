//! A validity capability, and a record that counts the comparisons made on it.
use vstd::prelude::*;

verus! {

/// A capability that unrelated record types implement each in their own way.
pub trait SomeTrait {
    /// Whether the value counts as valid.
    spec fn valid(&self) -> bool;

    /// Tells whether the value is valid, as `valid` states it.
    fn is_valid(&self) -> (r: bool)
        ensures
            r == self.valid(),
    ;
}

/// A record with a flag, a number, and a count of the comparisons made with
/// `is_smaller`.
#[derive(Debug, Clone, Copy)]
pub struct RandomInfo {
    pub call_count: i64,
    pub some_bool: bool,
    pub some_int: i64,
}

impl SomeTrait for RandomInfo {
    open spec fn valid(&self) -> bool {
        self.some_bool
    }

    fn is_valid(&self) -> (r: bool) {
        self.some_bool
    }
}

impl RandomInfo {
    /// A fresh record: no comparisons counted, the flag set to the opposite of
    /// `param_a`, and the number 8.
    pub fn new(param_a: bool) -> (r: Self)
        ensures
            r == (RandomInfo { call_count: 0, some_bool: !param_a, some_int: 8 }),
    {
        Self { call_count: 0, some_bool: !param_a, some_int: 8 }
    }

    /// Whether the number is below `compare_to`; counts the comparison.
    pub fn is_smaller(&mut self, compare_to: i64) -> (r: bool)
        requires
            old(self).call_count < i64::MAX,
        ensures
            r == (old(self).some_int < compare_to),
            final(self).call_count == old(self).call_count + 1,
            final(self).some_bool == old(self).some_bool,
            final(self).some_int == old(self).some_int,
    {
        self.call_count = self.call_count + 1;
        self.some_int < compare_to
    }
}

} // verus!
