use vstd::prelude::*;

verus! {

/// The scroll register: two bytes, X then Y. Which one a write reaches is
/// decided by the coprocessor's write latch, shared with the address
/// register.
pub struct ScrollRegister {
    pub scroll_x: u8,
    pub scroll_y: u8,
}

impl ScrollRegister {
    /// The register after `value` is written to X (`first`) or to Y.
    pub open spec fn written(self, value: u8, first: bool) -> ScrollRegister {
        if first {
            ScrollRegister { scroll_x: value, ..self }
        } else {
            ScrollRegister { scroll_y: value, ..self }
        }
    }

    pub fn new() -> (r: ScrollRegister)
        ensures
            r == (ScrollRegister { scroll_x: 0, scroll_y: 0 }),
    {
        ScrollRegister { scroll_x: 0, scroll_y: 0 }
    }

    /// Writes `value` to X when `first` holds, to Y otherwise.
    pub fn write(&mut self, value: u8, first: bool)
        ensures
            *final(self) == old(self).written(value, first),
    {
        if first {
            self.scroll_x = value;
        } else {
            self.scroll_y = value;
        }
    }
}

} // verus!
