use vstd::prelude::*;

verus! {

/// `x` brought into the range of `i8` by wrapping around modulo 256.
pub open spec fn wrap_i8(x: int) -> int {
    (x + 128) % 256 - 128
}

/// A signed 8-bit counter.
///
/// Overflow policy: stepping past either end wraps around, so one past `127`
/// is `-128` and one below `-128` is `127`. No step ever fails.
pub struct Counter {
    pub val: i8,
}

impl Counter {
    /// A counter holding `val`.
    pub fn new(val: i8) -> (r: Counter)
        ensures
            r.val == val,
    {
        Counter { val }
    }

    /// The current value.
    pub fn get_num(&self) -> (r: i8)
        ensures
            r == self.val,
    {
        self.val
    }

    /// Adds one, wrapping from `127` to `-128`.
    pub fn increment(&mut self)
        ensures
            final(self).val == wrap_i8(old(self).val + 1),
    {
        if self.val == 127 {
            self.val = -128;
        } else {
            self.val = self.val + 1;
        }
    }

    /// Subtracts one, wrapping from `-128` to `127`.
    pub fn decrement(&mut self)
        ensures
            final(self).val == wrap_i8(old(self).val - 1),
    {
        if self.val == -128 {
            self.val = 127;
        } else {
            self.val = self.val - 1;
        }
    }

    /// Sets the value to zero, whatever it was.
    pub fn reset(&mut self)
        ensures
            final(self).val == 0,
    {
        self.val = 0;
    }
}

} // verus!
