use vstd::prelude::*;

use crate::bus::AddressBus;
use crate::memory::{stored, ADDRESS_SPACE_SIZE};

verus! {

/// The physical address of byte `offset` of segment `segment`: the segment
/// scaled by 16 plus the offset, with no wraparound.
pub open spec fn physical_address(segment: u16, offset: u16) -> int {
    segment as int * 16 + offset as int
}

/// The segment used when `alt_base` may override `default`.
pub open spec fn segment_or(alt_base: Option<u16>, default: u16) -> u16 {
    match alt_base {
        Some(s) => s,
        None => default,
    }
}

/// Abstract state of a bus interface unit.
pub struct BusInterfaceUnitView {
    pub es: u16,
    pub cs: u16,
    pub ss: u16,
    pub ds: u16,
    pub ip: u16,
    /// Pending instruction bytes, oldest first.
    pub queue: Seq<u8>,
    /// The address latched on the bus.
    pub address: u32,
    /// The memory behind the bus.
    pub memory: Seq<u8>,
}

/// The bus interface unit: the segment registers, the instruction pointer,
/// the prefetch queue, and sole ownership of the address bus. It alone turns
/// a segment and an offset into a physical address.
pub struct BusInterfaceUnit {
    /// Extra segment.
    es: u16,
    /// Code segment.
    cs: u16,
    /// Stack segment.
    ss: u16,
    /// Data segment.
    ds: u16,
    /// Offset of the next instruction in the code segment.
    ip: u16,
    /// Instruction bytes fetched ahead of decode, oldest first.
    instruction_queue: Vec<u8>,
    bus: AddressBus,
}

impl View for BusInterfaceUnit {
    type V = BusInterfaceUnitView;

    closed spec fn view(&self) -> BusInterfaceUnitView {
        BusInterfaceUnitView {
            es: self.es,
            cs: self.cs,
            ss: self.ss,
            ds: self.ds,
            ip: self.ip,
            queue: self.instruction_queue@,
            address: self.bus.address(),
            memory: self.bus.memory(),
        }
    }
}

/// Combines a segment and an offset into a physical address.
fn combine(segment: u16, offset: u16) -> (r: u32)
    ensures
        r as int == physical_address(segment, offset),
{
    let base: u32 = (segment as u32) << 4u32;
    assert(base == segment as u32 * 16) by (bit_vector)
        requires
            base == (segment as u32) << 4u32,
    ;
    base + offset as u32
}

impl BusInterfaceUnit {
    /// The memory behind the bus spans the whole address space.
    pub open spec fn wf(&self) -> bool {
        self@.memory.len() == ADDRESS_SPACE_SIZE
    }

    /// Creates a unit with the given segments, instruction pointer and
    /// pending bytes (oldest first); it takes ownership of `bus`.
    pub fn new(
        es: u16,
        cs: u16,
        ss: u16,
        ds: u16,
        ip: u16,
        instruction_queue: Vec<u8>,
        bus: AddressBus,
    ) -> (r: BusInterfaceUnit)
        ensures
            r@ == (BusInterfaceUnitView {
                es,
                cs,
                ss,
                ds,
                ip,
                queue: instruction_queue@,
                address: bus.address(),
                memory: bus.memory(),
            }),
    {
        BusInterfaceUnit { es, cs, ss, ds, ip, instruction_queue, bus }
    }

    pub fn set_extra_segment_address(&mut self, value: u16)
        ensures
            final(self)@ == (BusInterfaceUnitView { es: value, ..old(self)@ }),
    {
        self.es = value;
    }

    pub fn get_extra_segment_address(&self) -> (r: u16)
        ensures
            r == self@.es,
    {
        self.es
    }

    pub fn set_code_segment_address(&mut self, value: u16)
        ensures
            final(self)@ == (BusInterfaceUnitView { cs: value, ..old(self)@ }),
    {
        self.cs = value;
    }

    pub fn get_code_segment_address(&self) -> (r: u16)
        ensures
            r == self@.cs,
    {
        self.cs
    }

    pub fn set_stack_segment_address(&mut self, value: u16)
        ensures
            final(self)@ == (BusInterfaceUnitView { ss: value, ..old(self)@ }),
    {
        self.ss = value;
    }

    pub fn get_stack_segment_address(&self) -> (r: u16)
        ensures
            r == self@.ss,
    {
        self.ss
    }

    pub fn set_data_segment_address(&mut self, value: u16)
        ensures
            final(self)@ == (BusInterfaceUnitView { ds: value, ..old(self)@ }),
    {
        self.ds = value;
    }

    pub fn get_data_segment_address(&self) -> (r: u16)
        ensures
            r == self@.ds,
    {
        self.ds
    }

    pub fn set_instruction_pointer(&mut self, value: u16)
        ensures
            final(self)@ == (BusInterfaceUnitView { ip: value, ..old(self)@ }),
    {
        self.ip = value;
    }

    pub fn get_instruction_pointer(&self) -> (r: u16)
        ensures
            r == self@.ip,
    {
        self.ip
    }

    /// Appends a fetched byte at the tail of the prefetch queue.
    pub fn push_instruction(&mut self, instruction: u8)
        ensures
            final(self)@ == (BusInterfaceUnitView {
                queue: old(self)@.queue.push(instruction),
                ..old(self)@
            }),
    {
        self.instruction_queue.push(instruction);
    }

    /// Takes the oldest byte from the prefetch queue, or `None` when the
    /// queue is empty.
    pub fn pop_instruction(&mut self) -> (r: Option<u8>)
        ensures
            old(self)@.queue.len() == 0 ==> r is None && final(self)@ == old(self)@,
            old(self)@.queue.len() > 0 ==> r == Some(old(self)@.queue[0]) && final(self)@ == (
            BusInterfaceUnitView { queue: old(self)@.queue.drop_first(), ..old(self)@ }),
    {
        if self.instruction_queue.len() == 0 {
            None
        } else {
            Some(self.instruction_queue.remove(0))
        }
    }

    /// Address of the next instruction byte: code segment and instruction
    /// pointer. No override applies.
    pub fn get_fetch_address(&self) -> (r: u32)
        ensures
            r as int == physical_address(self@.cs, self@.ip),
    {
        combine(self.cs, self.ip)
    }

    /// Address in the stack segment. No override applies.
    pub fn get_stack_address(&self, sp_offset: u16) -> (r: u32)
        ensures
            r as int == physical_address(self@.ss, sp_offset),
    {
        combine(self.ss, sp_offset)
    }

    /// Source address of a string operation: the data segment, unless
    /// `alt_base` overrides it.
    pub fn get_string_source_address(&self, si_offset: u16, alt_base: Option<u16>) -> (r: u32)
        ensures
            r as int == physical_address(segment_or(alt_base, self@.ds), si_offset),
    {
        let base: u16 = match alt_base {
            Some(s) => s,
            None => self.ds,
        };
        combine(base, si_offset)
    }

    /// Destination address of a string operation: always the extra segment.
    pub fn get_string_destination_address(&self, di_offset: u16) -> (r: u32)
        ensures
            r as int == physical_address(self@.es, di_offset),
    {
        combine(self.es, di_offset)
    }

    /// Address of a data operand: the data segment, unless `alt_base`
    /// overrides it.
    pub fn get_data_address(&self, eu_offset: u16, alt_base: Option<u16>) -> (r: u32)
        ensures
            r as int == physical_address(segment_or(alt_base, self@.ds), eu_offset),
    {
        let base: u16 = match alt_base {
            Some(s) => s,
            None => self.ds,
        };
        combine(base, eu_offset)
    }

    /// Address of an operand relative to the base pointer: the stack
    /// segment, unless `alt_base` overrides it.
    pub fn get_bp_address(&self, eu_bp_offset: u16, alt_base: Option<u16>) -> (r: u32)
        ensures
            r as int == physical_address(segment_or(alt_base, self@.ss), eu_bp_offset),
    {
        let base: u16 = match alt_base {
            Some(s) => s,
            None => self.ss,
        };
        combine(base, eu_bp_offset)
    }

    /// Latches `address` on the bus and reads the byte there.
    pub fn read_memory(&mut self, address: u32) -> (r: u8)
        requires
            old(self).wf(),
            address < ADDRESS_SPACE_SIZE,
        ensures
            r == old(self)@.memory[address as int],
            final(self)@ == (BusInterfaceUnitView { address, ..old(self)@ }),
    {
        self.bus.set_address(address);
        self.bus.read()
    }

    /// Latches `address` on the bus and writes `value` there.
    pub fn write_memory(&mut self, address: u32, value: u8)
        requires
            old(self).wf(),
            address < ADDRESS_SPACE_SIZE,
        ensures
            final(self)@ == (BusInterfaceUnitView {
                address,
                memory: stored(old(self)@.memory, address, value),
                ..old(self)@
            }),
    {
        self.bus.set_address(address);
        self.bus.write(value);
    }
}

/// The prefetch queue is first in, first out: a byte pushed onto a queue
/// leaves after every byte already in it, and pushing does not change which
/// byte leaves next.
pub proof fn lemma_queue_fifo(queue: Seq<u8>, byte: u8)
    ensures
        queue.len() == 0 ==> queue.push(byte)[0] == byte && queue.push(byte).drop_first()
            =~= Seq::<u8>::empty(),
        queue.len() > 0 ==> queue.push(byte)[0] == queue[0] && queue.push(byte).drop_first()
            =~= queue.drop_first().push(byte),
{
}

} // verus!
