use vstd::prelude::*;
use crate::bytes::{le16, lemma_le16, lemma_split16};

verus! {

/// The read/write capability shared by every addressable component. Both
/// operations cover the whole 16-bit address space; a read may change state
/// (coprocessor registers do), so it takes `&mut self`.
pub trait Memory: View + Sized {
    /// What a read of `addr` returns, and the state it leaves behind.
    spec fn read_spec(state: Self::V, addr: u16) -> (u8, Self::V);

    /// The state left behind by a write of `data` at `addr`.
    spec fn write_spec(state: Self::V, addr: u16, data: u8) -> Self::V;

    /// Whether a write at `addr` is permitted.
    spec fn writable(state: Self::V, addr: u16) -> bool;

    /// Reads the byte at `addr`.
    fn m_read(&mut self, addr: u16) -> (r: u8)
        ensures
            (r, final(self)@) == Self::read_spec(old(self)@, addr),
    ;

    /// Writes `data` at `addr`.
    fn m_write(&mut self, addr: u16, data: u8)
        requires
            Self::writable(old(self)@, addr),
        ensures
            final(self)@ == Self::write_spec(old(self)@, addr, data),
    ;

    /// Reads the little-endian value at `addr` and `addr + 1`, low byte
    /// first. The high byte's address does not wrap past 0xFFFF.
    fn m_read_u16(&mut self, addr: u16) -> (r: u16)
        requires
            addr < 0xFFFF,
        ensures
            ({
                let (low, s1) = Self::read_spec(old(self)@, addr);
                let (high, s2) = Self::read_spec(s1, (addr + 1) as u16);
                r == le16(low, high) && final(self)@ == s2
            }),
    {
        let low = self.m_read(addr);
        let high = self.m_read(addr + 1);
        proof {
            lemma_le16(low, high);
        }
        ((high as u16) << 8) | (low as u16)
    }

    /// Writes the low byte at `addr` and the high byte at `addr + 1`. The
    /// high byte's address does not wrap past 0xFFFF.
    fn m_write_u16(&mut self, addr: u16, data: u16)
        requires
            addr < 0xFFFF,
            Self::writable(old(self)@, addr),
            Self::writable(Self::write_spec(old(self)@, addr, (data % 0x100) as u8), (addr + 1) as u16),
        ensures
            final(self)@ == Self::write_spec(
                Self::write_spec(old(self)@, addr, (data % 0x100) as u8),
                (addr + 1) as u16,
                (data / 0x100) as u8,
            ),
    {
        proof {
            lemma_split16(data);
        }
        let low = (data & 0xFF) as u8;
        let high = (data >> 8) as u8;
        self.m_write(addr, low);
        self.m_write(addr + 1, high);
    }
}

} // verus!
