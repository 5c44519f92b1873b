use vstd::prelude::*;

use crate::memory::{stored, Memory, ADDRESS_SPACE_SIZE};

verus! {

/// The one channel to physical memory: it latches an address, then moves a
/// byte to or from memory at that address. It owns the memory.
pub struct AddressBus {
    address: u32,
    memory: Memory,
}

impl AddressBus {
    /// The latched address.
    pub closed spec fn address(&self) -> u32 {
        self.address
    }

    /// The contents of the memory behind the bus.
    pub closed spec fn memory(&self) -> Seq<u8> {
        self.memory@
    }

    /// The memory behind the bus spans the whole address space.
    pub open spec fn wf(&self) -> bool {
        self.memory().len() == ADDRESS_SPACE_SIZE
    }

    /// Creates a bus over zeroed memory, with address 0 latched.
    pub fn new() -> (r: AddressBus)
        ensures
            r.wf(),
            r.address() == 0,
            forall|i: int| 0 <= i < ADDRESS_SPACE_SIZE ==> #[trigger] r.memory()[i] == 0u8,
    {
        AddressBus { address: 0, memory: Memory::new() }
    }

    /// Latches `address` for the next transfer; no transfer takes place.
    pub fn set_address(&mut self, address: u32)
        ensures
            final(self).address() == address,
            final(self).memory() == old(self).memory(),
    {
        self.address = address;
    }

    /// Reads the byte at the latched address.
    pub fn read(&self) -> (r: u8)
        requires
            self.wf(),
            self.address() < ADDRESS_SPACE_SIZE,
        ensures
            r == self.memory()[self.address() as int],
    {
        self.memory.read(self.address)
    }

    /// Writes `value` at the latched address.
    pub fn write(&mut self, value: u8)
        requires
            old(self).wf(),
            old(self).address() < ADDRESS_SPACE_SIZE,
        ensures
            final(self).memory() == stored(old(self).memory(), old(self).address(), value),
            final(self).address() == old(self).address(),
            final(self).wf(),
    {
        self.memory.write(self.address, value);
    }
}

impl Default for AddressBus {
    fn default() -> (r: AddressBus)
        ensures
            r.wf(),
            r.address() == 0,
            forall|i: int| 0 <= i < ADDRESS_SPACE_SIZE ==> #[trigger] r.memory()[i] == 0u8,
    {
        AddressBus::new()
    }
}

} // verus!
