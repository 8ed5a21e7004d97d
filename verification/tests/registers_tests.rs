use jayboy::cpu::CPU;
use jayboy::cpu_flags::CpuFlags;
use jayboy::memory::ReadOnlyMemory;
use jayboy::registers::Registers;

#[test]
pub fn test_register_conv() {
    let mut reg = Registers::pre_boot();
    reg.a = 0xDE;
    reg.f = 0xAD.into();
    reg.b = 0xBE;
    reg.c = 0xEF;
    reg.d = 0xCA;
    reg.e = 0xFE;
    reg.h = 0xBA;
    reg.l = 0xBE;

    // lower 4 bits of f must always be 0
    assert_eq!(reg.f, 0xA0.into());
    assert_eq!(reg.get_af(), 0xDEA0);
    assert_eq!(reg.get_bc(), 0xBEEF);
    assert_eq!(reg.get_de(), 0xCAFE);
    assert_eq!(reg.get_hl(), 0xBABE);

    reg.set_af(0x1111);
    reg.set_bc(0x1111);
    reg.set_de(0x1111);
    reg.set_hl(0x1111);
    assert_eq!(reg.a, 0x11);
    assert_eq!(reg.b, 0x11);
    assert_eq!(reg.c, 0x11);
    assert_eq!(reg.d, 0x11);
    assert_eq!(reg.e, 0x11);
    assert_eq!(reg.h, 0x11);
    assert_eq!(reg.l, 0x11);
    // lower 4 bits of f must always be 0
    assert_eq!(reg.f, 0x10.into());
    assert_eq!(reg.get_af(), 0x1110);
    assert_eq!(reg.get_bc(), 0x1111);
    assert_eq!(reg.get_de(), 0x1111);
    assert_eq!(reg.get_hl(), 0x1111);
}

#[test]
fn test_boot_states() {
    let pre = Registers::pre_boot();
    assert_eq!(pre.get_af(), 0x0000);
    assert_eq!(pre.pc, 0x0000);

    let post = Registers::post_boot();
    assert_eq!(post.get_af(), 0x01B0);
    assert_eq!(post.get_bc(), 0x0013);
    assert_eq!(post.get_de(), 0x00D8);
    assert_eq!(post.get_hl(), 0x014D);
    assert_eq!(post.pc, 0x0100);
    assert_eq!(post.sp, 0xFFFE);
}

#[test]
fn test_cpu_flag_accessors() {
    let f = CpuFlags::from_bits_truncate(0xAD);
    assert_eq!(f.bits(), 0xA0);
    assert!(f.z());
    assert!(!f.s());
    assert!(f.h());
    assert!(!f.c());
    assert_eq!(u8::from(f), 0xA0);
    assert_eq!(CpuFlags::empty().bits(), 0);
    assert_eq!(CpuFlags::none().bits(), 0);
}

#[test]
fn test_cpu_new_is_power_on_state() {
    let cpu = CPU::new();
    assert_eq!(cpu.registers, Registers::pre_boot());
    assert_eq!(cpu.memory.len(), 0);
}
