//! The machine's byte-addressable memory and the register file on top of it.

use vstd::prelude::*;
use crate::byte_ops;
use crate::byte_ops::{word_of, hi_of, lo_of};
use crate::fault::Fault;

verus! {

/// The big-endian 16-bit word stored at offset `a` of a byte sequence.
pub open spec fn word_at(m: Seq<u8>, a: int) -> u16 {
    word_of(m[a], m[a + 1])
}

/// The byte sequence after a big-endian 16-bit word is stored at offset `a`.
pub open spec fn store_word(m: Seq<u8>, a: int, v: u16) -> Seq<u8> {
    m.update(a, hi_of(v)).update(a + 1, lo_of(v))
}

/// A byte read: the byte at `a`, or a fault if `a` lies outside the buffer.
pub open spec fn sp_read_u8(m: Seq<u8>, a: u16) -> Result<u8, Fault> {
    if (a as int) < m.len() {
        Ok(m[a as int])
    } else {
        Err(Fault::AddressOutOfRange)
    }
}

/// A word read: the word at `a`, or a fault if `a + 1` lies outside the buffer.
pub open spec fn sp_read_u16(m: Seq<u8>, a: u16) -> Result<u16, Fault> {
    if (a as int) + 1 < m.len() {
        Ok(word_at(m, a as int))
    } else {
        Err(Fault::AddressOutOfRange)
    }
}

/// A byte write: the buffer after the write, and a fault if out of range,
/// in which case the buffer is unchanged.
pub open spec fn sp_write_u8(m: Seq<u8>, a: u16, v: u8) -> (Seq<u8>, Result<(), Fault>) {
    if (a as int) < m.len() {
        (m.update(a as int, v), Ok(()))
    } else {
        (m, Err(Fault::AddressOutOfRange))
    }
}

/// A word write: the buffer after the write, and a fault if out of range,
/// in which case the buffer is unchanged.
pub open spec fn sp_write_u16(m: Seq<u8>, a: u16, v: u16) -> (Seq<u8>, Result<(), Fault>) {
    if (a as int) + 1 < m.len() {
        (store_word(m, a as int, v), Ok(()))
    } else {
        (m, Err(Fault::AddressOutOfRange))
    }
}

/// The buffer after a byte sequence is copied in verbatim at `start`, and a
/// fault if the range exceeds the buffer, in which case it is unchanged.
pub open spec fn sp_write_bytes(m: Seq<u8>, start: int, bytes: Seq<u8>) -> (Seq<u8>, Result<(), Fault>) {
    if 0 <= start && start + bytes.len() <= m.len() {
        (Seq::new(m.len(), |i: int| if start <= i < start + bytes.len() { bytes[i - start] } else { m[i] }), Ok(()))
    } else {
        (m, Err(Fault::AddressOutOfRange))
    }
}

/// A register read: the word in slot `reg`, or a fault if there is no such slot.
pub open spec fn sp_regs_read(regs: Seq<u16>, reg: u8) -> Result<u16, Fault> {
    if (reg as int) < regs.len() {
        Ok(regs[reg as int])
    } else {
        Err(Fault::AddressOutOfRange)
    }
}

/// A register write: the register file after the write, and a fault if there
/// is no such slot, in which case the file is unchanged.
pub open spec fn sp_regs_write(regs: Seq<u16>, reg: u8, v: u16) -> (Seq<u16>, Result<(), Fault>) {
    if (reg as int) < regs.len() {
        (regs.update(reg as int, v), Ok(()))
    } else {
        (regs, Err(Fault::AddressOutOfRange))
    }
}

/// The register file held in a byte buffer: slot `i` is the big-endian word
/// at offset `2 * i`.
pub open spec fn reg_file_view(m: Seq<u8>) -> Seq<u16> {
    Seq::new(m.len() / 2, |i: int| word_of(m[2 * i], m[2 * i + 1]))
}

/// A fixed-size byte buffer with bounds-checked byte and word access.
/// Word values are big-endian. The length is fixed at construction and
/// never exceeds 65535.
pub struct Memory {
    vec: Vec<u8>,
}

impl View for Memory {
    type V = Seq<u8>;

    closed spec fn view(&self) -> Seq<u8> {
        self.vec@
    }
}

impl Memory {
    /// The buffer never outgrows the 16-bit address space.
    pub open spec fn wf(&self) -> bool {
        self@.len() <= 0xFFFF
    }

    /// A zero-filled buffer of `byte_size` bytes.
    pub fn new(byte_size: u16) -> (m: Memory)
        ensures
            m.wf(),
            m@ == Seq::new(byte_size as nat, |i: int| 0u8),
    {
        let mut vec: Vec<u8> = Vec::new();
        let mut i: usize = 0;
        while i < byte_size as usize
            invariant
                i <= byte_size as usize,
                vec@ =~= Seq::new(i as nat, |k: int| 0u8),
            decreases byte_size as usize - i,
        {
            vec.push(0);
            i = i + 1;
        }
        proof {
            assert(vec@ =~= Seq::new(byte_size as nat, |i: int| 0u8));
        }
        Memory { vec }
    }

    /// Copies `bytes` into the buffer starting at `start`, verbatim; faults
    /// without writing if the range exceeds the buffer.
    pub fn write_bytes(&mut self, start: usize, bytes: Vec<u8>) -> (r: Result<(), Fault>)
        ensures
            (final(self)@, r) == sp_write_bytes(old(self)@, start as int, bytes@),
    {
        if start <= self.vec.len() && bytes.len() <= self.vec.len() - start {
            let mut j: usize = 0;
            while j < bytes.len()
                invariant
                    j <= bytes.len(),
                    start + bytes.len() <= self.vec.len(),
                    self.vec@.len() == old(self)@.len(),
                    forall|i: int| 0 <= i < self.vec@.len() ==> self.vec@[i] == (
                        if start <= i < start + j { bytes@[i - start] } else { old(self)@[i] }
                    ),
                decreases bytes.len() - j,
            {
                self.vec.set(start + j, bytes[j]);
                j = j + 1;
            }
            proof {
                assert(self.vec@ =~= sp_write_bytes(old(self)@, start as int, bytes@).0);
            }
            Ok(())
        } else {
            Err(Fault::AddressOutOfRange)
        }
    }

    /// Reads the byte at `index`; faults if `index` is out of range.
    pub fn read_u8(&self, index: u16) -> (r: Result<u8, Fault>)
        ensures
            r == sp_read_u8(self@, index),
    {
        if (index as usize) < self.vec.len() {
            Ok(self.vec[index as usize])
        } else {
            Err(Fault::AddressOutOfRange)
        }
    }

    /// Reads the big-endian word at `index`; faults if `index + 1` is out of
    /// range.
    pub fn read_u16(&self, index: u16) -> (r: Result<u16, Fault>)
        ensures
            r == sp_read_u16(self@, index),
    {
        if (index as usize) + 1 < self.vec.len() {
            Ok(byte_ops::u8_to_u16(self.vec[index as usize], self.vec[index as usize + 1]))
        } else {
            Err(Fault::AddressOutOfRange)
        }
    }

    /// Writes one byte at `index`; faults without writing if `index` is out
    /// of range.
    pub fn write_u8(&mut self, index: u16, value: u8) -> (r: Result<(), Fault>)
        ensures
            (final(self)@, r) == sp_write_u8(old(self)@, index, value),
    {
        if (index as usize) < self.vec.len() {
            self.vec.set(index as usize, value);
            Ok(())
        } else {
            Err(Fault::AddressOutOfRange)
        }
    }

    /// Writes a big-endian word at `index`; faults without writing if
    /// `index + 1` is out of range.
    pub fn write_u16(&mut self, index: u16, value: u16) -> (r: Result<(), Fault>)
        ensures
            (final(self)@, r) == sp_write_u16(old(self)@, index, value),
    {
        if (index as usize) + 1 < self.vec.len() {
            let (hi, lo) = byte_ops::u16_to_u8(value);
            self.vec.set(index as usize, hi);
            self.vec.set(index as usize + 1, lo);
            Ok(())
        } else {
            Err(Fault::AddressOutOfRange)
        }
    }

    /// The length of the buffer in bytes.
    pub fn len(&self) -> (r: u16)
        requires
            self.wf(),
        ensures
            r == self@.len(),
    {
        self.vec.len() as u16
    }
}

/// A small fixed set of named 16-bit registers, held as 2-byte slots of a
/// dedicated byte buffer.
pub struct Registers {
    mem: Memory,
}

impl View for Registers {
    type V = Seq<u16>;

    closed spec fn view(&self) -> Seq<u16> {
        reg_file_view(self.mem@)
    }
}

impl Registers {
    /// The backing buffer holds exactly two bytes per register.
    pub closed spec fn wf(&self) -> bool {
        self.mem.wf() && self.mem@.len() % 2 == 0 && self.mem@.len() == 2 * self@.len()
    }

    /// A file of `reg_count` registers, all zero.
    pub fn new(reg_count: u16) -> (r: Registers)
        requires
            reg_count <= 0x7FFF,
        ensures
            r.wf(),
            r@ == Seq::new(reg_count as nat, |i: int| 0u16),
    {
        let mem = Memory::new(2 * reg_count);
        proof {
            assert(reg_file_view(mem@) =~= Seq::new(reg_count as nat, |i: int| 0u16));
        }
        Registers { mem }
    }

    /// Reads register `reg`; faults if there is no such register.
    pub fn read(&self, reg: u8) -> (r: Result<u16, Fault>)
        requires
            self.wf(),
        ensures
            r == sp_regs_read(self@, reg),
    {
        let r = self.mem.read_u16(2 * (reg as u16));
        proof {
            assert((reg as int) < self@.len() <==> 2 * (reg as int) + 1 < self.mem@.len());
        }
        r
    }

    /// Writes `val` to register `reg`; faults without writing if there is no
    /// such register.
    pub fn write(&mut self, reg: u8, val: u16) -> (r: Result<(), Fault>)
        requires
            old(self).wf(),
        ensures
            final(self).wf(),
            (final(self)@, r) == sp_regs_write(old(self)@, reg, val),
    {
        let r = self.mem.write_u16(2 * (reg as u16), val);
        proof {
            assert((reg as int) < old(self)@.len() <==> 2 * (reg as int) + 1 < old(self).mem@.len());
            if (reg as int) < old(self)@.len() {
                lemma_reg_file_store(old(self).mem@, reg as int, val);
            }
        }
        r
    }

    /// Reads register `reg`, known to exist.
    pub(crate) fn get(&self, reg: u8) -> (r: u16)
        requires
            self.wf(),
            (reg as int) < self@.len(),
        ensures
            r == self@[reg as int],
    {
        match self.mem.read_u16(2 * (reg as u16)) {
            Ok(v) => v,
            Err(_) => {
                proof {
                    assert(2 * (reg as int) + 1 < self.mem@.len());
                    assert(false);
                }
                0
            },
        }
    }

    /// Writes `val` to register `reg`, known to exist.
    pub(crate) fn set(&mut self, reg: u8, val: u16)
        requires
            old(self).wf(),
            (reg as int) < old(self)@.len(),
        ensures
            final(self).wf(),
            final(self)@ == old(self)@.update(reg as int, val),
    {
        let r = self.write(reg, val);
        proof {
            assert(r is Ok);
        }
    }
}

/// Storing a word in slot `reg` of the backing buffer updates exactly that
/// slot of the register file.
proof fn lemma_reg_file_store(m: Seq<u8>, reg: int, v: u16)
    requires
        m.len() % 2 == 0,
        0 <= reg,
        2 * reg + 1 < m.len(),
    ensures
        reg_file_view(store_word(m, 2 * reg, v)) == reg_file_view(m).update(reg, v),
{
    let m2 = store_word(m, 2 * reg, v);
    assert forall|i: int| 0 <= i < m.len() / 2 implies reg_file_view(m2)[i] == reg_file_view(m).update(reg, v)[i] by {
        if i == reg {
            byte_ops::lemma_split_combine(hi_of(v), lo_of(v));
            byte_ops::lemma_combine_split(v);
        } else {
            assert(2 * i != 2 * reg && 2 * i != 2 * reg + 1);
            assert(2 * i + 1 != 2 * reg && 2 * i + 1 != 2 * reg + 1);
        }
    }
    assert(reg_file_view(m2) =~= reg_file_view(m).update(reg, v));
}

/// Writing a register and reading it back returns the value written:
/// for every valid register id and every 16-bit value, a write of the value
/// followed by a read of the same id yields that value.
pub proof fn lemma_register_write_then_read(regs: Seq<u16>, reg: u8, v: u16)
    requires
        (reg as int) < regs.len(),
    ensures
        sp_regs_read(sp_regs_write(regs, reg, v).0, reg) == Ok::<u16, Fault>(v),
{
}

/// A word written to memory reads back intact: for every in-range address
/// and every 16-bit value, a word write followed by a word read at the same
/// address yields the value, and the two bytes there read back as its
/// big-endian split.
pub proof fn lemma_memory_word_round_trip(m: Seq<u8>, a: u16, v: u16)
    requires
        m.len() <= 0xFFFF,
        (a as int) + 1 < m.len(),
    ensures
        ({
            let (m2, r) = sp_write_u16(m, a, v);
            &&& r == Ok::<(), Fault>(())
            &&& sp_read_u16(m2, a) == Ok::<u16, Fault>(v)
            &&& sp_read_u8(m2, a) == Ok::<u8, Fault>(hi_of(v))
            &&& sp_read_u8(m2, (a + 1) as u16) == Ok::<u8, Fault>(lo_of(v))
        }),
{
    byte_ops::lemma_combine_split(v);
}

/// A word store leaves every word at a non-overlapping address unchanged.
pub proof fn lemma_store_word_frame(m: Seq<u8>, a: int, v: u16, b: int)
    requires
        0 <= a,
        a + 1 < m.len(),
        0 <= b,
        b + 1 < m.len(),
        b + 1 < a || a + 1 < b,
    ensures
        word_at(store_word(m, a, v), b) == word_at(m, b),
{
}

} // verus!
