//! The 64 KB address space, with an optional mirror boundary above which the
//! address lines are only partly decoded.

use vstd::prelude::*;
use core::ops::{Index, Range, RangeFrom};
use crate::pointer::Pointer;

verus! {

/// `core::ops::RangeFrom`, the range `start..` that has no end. Nothing is claimed
/// of it but that it is the struct of one public field, `start`, that the standard
/// library declares.
#[verifier::external_type_specification]
#[verifier::reject_recursive_types(Idx)]
pub struct ExRangeFrom<Idx>(RangeFrom<Idx>);

/// Writes below this address are dropped while a mirror boundary is set.
pub const ROM_END: u16 = 0x2000;

/// The address space as a mathematical value: 65536 cells and the mirror boundary.
pub struct Ram {
    pub cells: Seq<u8>,
    pub mirror: Option<u16>,
}

impl Ram {
    /// Every address has a cell.
    pub open spec fn wf(self) -> bool {
        self.cells.len() == 0x10000
    }

    /// The cell from which a read of `address` is served. At or above a mirror boundary
    /// `b` the address wraps into the window of `b` cells that starts at `b`. A boundary
    /// of zero leaves no such window; the address is then taken as it is.
    pub open spec fn cell_of(self, address: u16) -> int {
        match self.mirror {
            Some(boundary) => if boundary > 0 && address >= boundary {
                address % boundary + boundary
            } else {
                address as int
            },
            None => address as int,
        }
    }

    /// The byte that a read of `address` gives.
    pub open spec fn read(self, address: u16) -> u8 {
        self.cells[self.cell_of(address)]
    }

    /// Whether a write to `address` is dropped: with a mirror boundary set, the
    /// addresses below `ROM_END` and those at or above the boundary are read-only.
    pub open spec fn protected(self, address: u16) -> bool {
        match self.mirror {
            Some(boundary) => address >= boundary || address < ROM_END,
            None => false,
        }
    }

    /// The address space after a write of `value` to `address`.
    pub open spec fn write(self, address: u16, value: u8) -> Ram {
        if self.protected(address) {
            self
        } else {
            Ram { cells: self.cells.update(address as int, value), ..self }
        }
    }

    /// The address space after `block` was copied in from `position` on, past any
    /// write protection.
    pub open spec fn load(self, block: Seq<u8>, position: u16) -> Ram {
        Ram {
            cells: Seq::new(
                self.cells.len(),
                |i: int|
                    if position <= i < position + block.len() {
                        block[i - position]
                    } else {
                        self.cells[i]
                    },
            ),
            ..self
        }
    }

    /// A read is always served from one of the 65536 cells, and from the cell of the
    /// address itself wherever no mirror applies.
    pub proof fn lemma_cell_in_range(self, address: u16)
        ensures
            0 <= self.cell_of(address) <= address,
            !self.protected(address) ==> self.cell_of(address) == address,
    {
        if let Some(boundary) = self.mirror {
            if boundary > 0 && address >= boundary {
                lemma_wrap_stays_below(address as int, boundary as int);
            }
        }
    }

    /// A write that is not dropped is read back from the same address.
    pub proof fn lemma_write_then_read(self, address: u16, value: u8)
        requires
            self.wf(),
            !self.protected(address),
        ensures
            self.write(address, value).read(address) == value,
    {
        self.lemma_cell_in_range(address);
    }

    /// A write leaves what every read served from another cell gives.
    pub proof fn lemma_write_leaves_others(self, address: u16, value: u8, other: u16)
        requires
            self.wf(),
            self.cell_of(other) != address,
        ensures
            self.write(address, value).read(other) == self.read(other),
    {
        self.lemma_cell_in_range(other);
    }

    /// With a mirror boundary set, a write at or above it changes nothing, and the read
    /// that follows at the same address is served from the window above the boundary,
    /// at the address modulo the boundary; from the address itself where the boundary
    /// is zero.
    pub proof fn lemma_mirrored_write_then_read(self, boundary: u16, address: u16, value: u8)
        requires
            self.wf(),
            self.mirror == Some(boundary),
            address >= boundary,
        ensures
            self.write(address, value) == self,
            self.write(address, value).read(address) == self.cells[if boundary > 0 {
                address % boundary + boundary
            } else {
                address as int
            }],
            0 <= self.cell_of(address) < 0x10000,
    {
        self.lemma_cell_in_range(address);
    }

    /// With a mirror boundary set, a write below `ROM_END` changes nothing: every read
    /// after it gives what it gave before.
    pub proof fn lemma_rom_write_ignored(self, address: u16, value: u8, probe: u16)
        requires
            self.mirror is Some,
            address < ROM_END,
        ensures
            self.write(address, value) == self,
            self.write(address, value).read(probe) == self.read(probe),
    {
    }
}

/// Wrapping an address into the window above a boundary never moves it upwards.
proof fn lemma_wrap_stays_below(address: int, boundary: int)
    requires
        0 < boundary <= address,
    ensures
        0 <= address % boundary < boundary,
        address % boundary + boundary <= address,
{
    vstd::arithmetic::div_mod::lemma_fundamental_div_mod(address, boundary);
    vstd::arithmetic::div_mod::lemma_mod_bound(address, boundary);
    vstd::arithmetic::div_mod::lemma_div_pos_is_pos(address, boundary);
    let quotient: int = address / boundary;
    if quotient < 1 {
        assert(boundary * quotient == 0) by (nonlinear_arith)
            requires
                quotient == 0,
        ;
    } else {
        assert(boundary * quotient >= boundary) by (nonlinear_arith)
            requires
                quotient >= 1,
                boundary > 0,
        ;
    }
}

/// Why a block was not loaded.
#[derive(Debug, Clone, Copy, PartialEq, Eq, Structural)]
pub struct LoadError {
    /// Where the block was to start.
    pub position: u16,
    /// How many bytes it holds.
    pub length: usize,
}

/// The processor's memory.
pub struct Memory {
    pub memory: [u8; 0x10000],
    pub ram_mirror: Option<u16>,
}

impl View for Memory {
    type V = Ram;

    open spec fn view(&self) -> Ram {
        Ram { cells: self.memory@, mirror: self.ram_mirror }
    }
}

impl Memory {
    /// Memory of zeroes with no mirror boundary.
    pub fn new() -> (memory: Memory)
        ensures
            memory@.wf(),
            memory@.mirror is None,
            forall|i: int| 0 <= i < 0x10000 ==> memory@.cells[i] == 0,
    {
        Memory { memory: [0u8; 0x10000], ram_mirror: None }
    }

    /// The view of any memory has all its cells.
    pub proof fn lemma_view_wf(&self)
        ensures
            self@.wf(),
    {
    }

    /// Copies `block` into the address space from `position` on. A block that would
    /// run past the last address is refused, and the memory is left as it was.
    pub fn load(&mut self, block: &[u8], position: u16) -> (loaded: Result<(), LoadError>)
        ensures
            match loaded {
                Ok(()) => position + block@.len() <= 0x10000 && final(self)@ == old(self)@.load(
                    block@,
                    position,
                ),
                Err(error) => position + block@.len() > 0x10000 && error == (LoadError {
                    position,
                    length: block.len(),
                }) && final(self)@ == old(self)@,
            },
    {
        let length: usize = block.len();
        let start: usize = position as usize;
        if length > 0x10000 - start {
            return Err(LoadError { position, length });
        }
        let mut i: usize = 0;
        while i < length
            invariant
                0 <= i <= length,
                length == block@.len(),
                start == position,
                start + length <= 0x10000,
                self.ram_mirror == old(self).ram_mirror,
                forall|k: int|
                    0 <= k < 0x10000 ==> self.memory@[k] == if start <= k < start + i {
                        block@[k - start]
                    } else {
                        old(self).memory@[k]
                    },
            decreases length - i,
        {
            self.memory[start + i] = block[i];
            i += 1;
        }
        assert(self@.cells =~= old(self)@.load(block@, position).cells);
        Ok(())
    }

    /// The byte at `address`, through the mirror.
    pub fn read(&self, address: u16) -> (value: u8)
        ensures
            value == self@.read(address),
    {
        self[address]
    }

    /// Stores `value` at `address`, unless the address is read-only.
    pub fn write(&mut self, address: u16, value: u8)
        ensures
            final(self)@ == old(self)@.write(address, value),
    {
        let dropped: bool = match self.ram_mirror {
            Some(mirror) => address >= mirror || address < ROM_END,
            None => false,
        };
        if !dropped {
            self.memory[address as usize] = value;
        }
    }
}

impl Index<u16> for Memory {
    type Output = u8;

    /// The byte at the address `index`, through the mirror.
    fn index(&self, index: u16) -> (value: &u8)
        ensures
            *value == self@.read(index),
    {
        proof {
            self@.lemma_cell_in_range(index);
        }
        match self.ram_mirror {
            Some(mirror) => {
                if mirror > 0 && index >= mirror {
                    &self.memory[(index % mirror + mirror) as usize]
                } else {
                    &self.memory[index as usize]
                }
            },
            None => &self.memory[index as usize],
        }
    }
}

impl vstd::std_specs::core::IndexSpecImpl<u16> for Memory {
    open spec fn index_req(&self, index: &u16) -> bool {
        true
    }
}

impl Index<u8> for Memory {
    type Output = u8;

    /// The byte at the address `index`, through the mirror.
    fn index(&self, index: u8) -> (value: &u8)
        ensures
            *value == self@.read(index as u16),
    {
        &self[index as u16]
    }
}

impl vstd::std_specs::core::IndexSpecImpl<u8> for Memory {
    open spec fn index_req(&self, index: &u8) -> bool {
        true
    }
}

impl Index<Pointer> for Memory {
    type Output = u8;

    /// The byte at the address that `index` holds, through the mirror.
    fn index(&self, index: Pointer) -> (value: &u8)
        ensures
            *value == self@.read(index.0),
    {
        &self[index.0]
    }
}

impl vstd::std_specs::core::IndexSpecImpl<Pointer> for Memory {
    open spec fn index_req(&self, index: &Pointer) -> bool {
        true
    }
}

impl Index<Range<usize>> for Memory {
    type Output = [u8];

    /// The cells from `index.start` up to `index.end`, as they are stored: no mirror
    /// applies.
    fn index(&self, index: Range<usize>) -> (cells: &[u8])
        ensures
            cells@ == self@.cells.subrange(index.start as int, index.end as int),
    {
        vstd::slice::slice_subrange(self.memory.as_slice(), index.start, index.end)
    }
}

impl vstd::std_specs::core::IndexSpecImpl<Range<usize>> for Memory {
    /// The range has to lie within the address space.
    open spec fn index_req(&self, index: &Range<usize>) -> bool {
        index.start <= index.end <= 0x10000
    }
}

impl Index<RangeFrom<usize>> for Memory {
    type Output = [u8];

    /// The cells from `index.start` to the last, as they are stored: no mirror
    /// applies.
    fn index(&self, index: RangeFrom<usize>) -> (cells: &[u8])
        ensures
            cells@ == self@.cells.subrange(index.start as int, 0x10000),
    {
        vstd::slice::slice_subrange(self.memory.as_slice(), index.start, 0x10000)
    }
}

impl vstd::std_specs::core::IndexSpecImpl<RangeFrom<usize>> for Memory {
    /// The range has to start within the address space.
    open spec fn index_req(&self, index: &RangeFrom<usize>) -> bool {
        index.start <= 0x10000
    }
}

impl Default for Memory {
    fn default() -> (memory: Memory)
        ensures
            memory@.wf(),
            memory@.mirror is None,
            forall|i: int| 0 <= i < 0x10000 ==> memory@.cells[i] == 0,
    {
        Memory::new()
    }
}

} // verus!
