use vstd::prelude::*;
use crate::bytes::{le16, lemma_le16, lemma_mask16, lemma_split16};

verus! {

/// The coprocessor's address register: a 14-bit address written as two
/// bytes, high then low. Which half a write reaches is decided by the
/// coprocessor's write latch, shared with the scroll register.
pub struct AddressRegister {
    value: (u8, u8),
}

/// The address after a byte is written: the high byte when `high` holds,
/// the low byte otherwise, then masked to 14 bits.
pub open spec fn address_after_update(addr: u16, high: bool, value: u8) -> u16 {
    if high {
        ((value as int * 256 + addr % 256) % 0x4000) as u16
    } else {
        (addr - addr % 256 + value) as u16
    }
}

impl View for AddressRegister {
    type V = u16;

    closed spec fn view(&self) -> u16 {
        le16(self.value.1, self.value.0)
    }
}

impl AddressRegister {
    #[verifier::type_invariant]
    spec fn inv(&self) -> bool {
        self.value.0 <= 0x3F
    }

    fn set(&mut self, data: u16)
        requires
            data <= 0x3FFF,
        ensures
            final(self)@ == data,
    {
        proof {
            lemma_split16(data);
        }
        *self = AddressRegister { value: ((data >> 8) as u8, (data & 0xFF) as u8) };
    }

    pub fn new() -> (r: AddressRegister)
        ensures
            r@ == 0,
    {
        AddressRegister { value: (0, 0) }
    }

    /// Writes `value` to the high byte when `high` holds, to the low byte
    /// otherwise; the address is then masked to 14 bits.
    pub fn update(&mut self, value: u8, high: bool)
        ensures
            final(self)@ == address_after_update(old(self)@, high, value),
    {
        let cur = self.get();
        proof {
            lemma_mask16(cur);
        }
        let next: u16 = if high {
            let v = ((value as u16) << 8) | (cur & 0x00FF);
            proof {
                lemma_le16((cur & 0x00FF) as u8, value);
                lemma_mask16(v);
            }
            v & 0x3FFF
        } else {
            proof {
                lemma_le16(value, (cur >> 8) as u8);
                assert(cur & 0xFF00 == ((cur >> 8) as u8 as u16) << 8) by (bit_vector);
                assert(((((cur >> 8) as u8) as u16) << 8) | (value as u16) <= 0x3FFF)
                    by (bit_vector)
                    requires
                        cur <= 0x3FFF,
                ;
                lemma_split16(cur);
            }
            (cur & 0xFF00) | value as u16
        };
        self.set(next);
    }

    pub fn get(&self) -> (r: u16)
        ensures
            r == self@,
            r <= 0x3FFF,
    {
        proof {
            use_type_invariant(self);
            lemma_le16(self.value.1, self.value.0);
        }
        ((self.value.0 as u16) << 8) | (self.value.1 as u16)
    }

    /// Advances the address by `step`, wrapping within 14 bits.
    pub fn increment(&mut self, step: u8)
        ensures
            final(self)@ == ((old(self)@ + step) % 0x4000) as u16,
    {
        let cur = self.get();
        let next = (cur + step as u16) & 0x3FFF;
        proof {
            lemma_mask16((cur + step as u16) as u16);
        }
        self.set(next);
    }
}

} // verus!
