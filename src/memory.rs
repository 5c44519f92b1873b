use vstd::prelude::*;

verus! {

/// Number of bytes in the physical address space: 1 MiB, the reach of a
/// 20-bit address.
pub const ADDRESS_SPACE_SIZE: u32 = 0x0010_0000;

/// Physical memory `mem` after `value` is stored at `address`.
pub open spec fn stored(mem: Seq<u8>, address: u32, value: u8) -> Seq<u8> {
    mem.update(address as int, value)
}

/// The flat byte array of the whole physical address space. Multi-byte
/// values are laid out least significant byte first.
pub struct Memory {
    data: Vec<u8>,
}

impl View for Memory {
    type V = Seq<u8>;

    closed spec fn view(&self) -> Seq<u8> {
        self.data@
    }
}

impl Memory {
    /// The memory spans the whole address space.
    pub open spec fn wf(&self) -> bool {
        self@.len() == ADDRESS_SPACE_SIZE
    }

    /// Creates the memory of the whole address space with every byte zero.
    pub fn new() -> (r: Memory)
        ensures
            r.wf(),
            forall|i: int| 0 <= i < ADDRESS_SPACE_SIZE ==> #[trigger] r@[i] == 0u8,
    {
        let data: Vec<u8> = vec![0u8; ADDRESS_SPACE_SIZE as usize];
        Memory { data }
    }

    /// Returns the byte at `address`.
    pub fn read(&self, address: u32) -> (r: u8)
        requires
            self.wf(),
            address < ADDRESS_SPACE_SIZE,
        ensures
            r == self@[address as int],
    {
        self.data[address as usize]
    }

    /// Stores `value` at `address`; every other byte is kept.
    pub fn write(&mut self, address: u32, value: u8)
        requires
            old(self).wf(),
            address < ADDRESS_SPACE_SIZE,
        ensures
            final(self)@ == stored(old(self)@, address, value),
            final(self).wf(),
    {
        self.data.set(address as usize, value);
    }
}

impl Default for Memory {
    fn default() -> (r: Memory)
        ensures
            r.wf(),
            forall|i: int| 0 <= i < ADDRESS_SPACE_SIZE ==> #[trigger] r@[i] == 0u8,
    {
        Memory::new()
    }
}

/// Storing a byte and reading it back at the same address gives the byte;
/// every other address keeps what it held.
pub proof fn lemma_store_then_load(mem: Seq<u8>, address: u32, value: u8)
    requires
        mem.len() == ADDRESS_SPACE_SIZE,
        address < ADDRESS_SPACE_SIZE,
    ensures
        stored(mem, address, value).len() == ADDRESS_SPACE_SIZE,
        stored(mem, address, value)[address as int] == value,
        forall|other: u32|
            other < ADDRESS_SPACE_SIZE && other != address ==> #[trigger] stored(
                mem,
                address,
                value,
            )[other as int] == mem[other as int],
{
}

} // verus!
