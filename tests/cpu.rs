use cpu8086::biu::BusInterfaceUnit;
use cpu8086::bus::AddressBus;
use cpu8086::cpu::{Cpu, CpuMode};
use cpu8086::eu::ExecutionUnit;
use cpu8086::flags::Flags;
use cpu8086::registers::Register;

fn machine(mode: CpuMode) -> Cpu {
    let eu = ExecutionUnit::new(
        Register::new(),
        Register::new(),
        Register::new(),
        Register::new(),
        0xFFFE,
        0,
        0,
        0,
        Flags::default(),
    );
    let biu = BusInterfaceUnit::new(0, 0xF000, 0x3000, 0, 0xFFF0, vec![], AddressBus::new());
    Cpu::new(mode, eu, biu)
}

#[test]
fn cpu_keeps_its_mode() {
    assert!(matches!(machine(CpuMode::Minimum).mode(), CpuMode::Minimum));
    assert!(matches!(machine(CpuMode::Maximum).mode(), CpuMode::Maximum));
}

#[test]
fn cpu_stack_address_uses_units_together() {
    let mut cpu = machine(CpuMode::Minimum);
    let sp = cpu.eu_mut().get_sp();
    assert_eq!(cpu.biu_mut().get_stack_address(sp), 0x3FFFE);
    assert_eq!(cpu.biu_mut().get_fetch_address(), 0xFFFF0);
}
