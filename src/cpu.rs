use vstd::prelude::*;

use crate::biu::{BusInterfaceUnit, BusInterfaceUnitView};
use crate::eu::ExecutionUnit;

verus! {

/// How the processor drives the bus control lines.
pub enum CpuMode {
    /// The processor itself provides the bus control signals for memory and
    /// I/O operations.
    Minimum,
    /// The processor encodes the control signals on three lines for an
    /// external bus controller; the freed lines coordinate several processors.
    Maximum,
}

/// The processor: its bus control mode, its execution unit and its bus
/// interface unit.
pub struct Cpu {
    mode: CpuMode,
    eu: ExecutionUnit,
    biu: BusInterfaceUnit,
}

impl Cpu {
    /// The bus control mode.
    pub closed spec fn mode_of(&self) -> CpuMode {
        self.mode
    }

    /// The execution unit.
    pub closed spec fn eu_of(&self) -> ExecutionUnit {
        self.eu
    }

    /// The abstract state of the bus interface unit.
    pub closed spec fn biu_of(&self) -> BusInterfaceUnitView {
        self.biu@
    }

    /// Assembles a processor from its parts.
    pub fn new(mode: CpuMode, eu: ExecutionUnit, biu: BusInterfaceUnit) -> (r: Cpu)
        ensures
            r.mode_of() == mode,
            r.eu_of() == eu,
            r.biu_of() == biu@,
    {
        Cpu { mode, eu, biu }
    }

    /// The bus control mode.
    pub fn mode(&self) -> (r: &CpuMode)
        ensures
            *r == self.mode_of(),
    {
        &self.mode
    }

    /// The execution unit, to change; nothing else changes.
    pub fn eu_mut(&mut self) -> (r: &mut ExecutionUnit)
        ensures
            *r == old(self).eu_of(),
            final(self).eu_of() == *final(r),
            final(self).mode_of() == old(self).mode_of(),
            final(self).biu_of() == old(self).biu_of(),
    {
        &mut self.eu
    }

    /// The bus interface unit, to change; nothing else changes.
    pub fn biu_mut(&mut self) -> (r: &mut BusInterfaceUnit)
        ensures
            r@ == old(self).biu_of(),
            final(self).biu_of() == final(r)@,
            final(self).mode_of() == old(self).mode_of(),
            final(self).eu_of() == old(self).eu_of(),
    {
        &mut self.biu
    }
}

} // verus!
