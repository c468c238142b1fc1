// Unit tests of the ALU methods, the flag helpers and the opcode table.

use emu8080::{
    combine_bytes, parity, sign_flag, carry_flag, set_byte_pair, ConditionFlag, Cpu8080,
    OpcodeTable,
};

#[test]
fn parity_is_even_bit_count() {
    assert!(parity(0x00));
    assert!(!parity(0x01));
    assert!(parity(0x03));
    assert!(!parity(0x07));
    assert!(parity(0xFF));
    assert!(!parity(0x80));
    for n in 0..=255u8 {
        let expected = (n.count_ones() % 2) == 0;
        assert_eq!(parity(n), expected, "parity of {n:#x}");
    }
}

#[test]
fn sign_and_carry_helpers() {
    assert!(!sign_flag(0x7F));
    assert!(sign_flag(0x80));
    assert!(sign_flag(0x1FF));
    assert!(!sign_flag(0x100));
    assert!(!carry_flag(0xFF));
    assert!(carry_flag(0x100));
}

#[test]
fn byte_pair_helpers() {
    assert_eq!(combine_bytes(0x12, 0x34), 0x1234);
    let mut high: u8 = 0;
    let mut low: u8 = 0;
    set_byte_pair(&mut high, &mut low, 0xBEEF);
    assert_eq!(high, 0xBE);
    assert_eq!(low, 0xEF);
}

#[test]
fn add_sets_all_flags() {
    let mut cpu = Cpu8080::new();
    cpu.a = 0x6C;
    cpu.add(0x2E);
    assert_eq!(cpu.a, 0x9A);
    assert!(!cpu.condition_codes.is_set(ConditionFlag::Zero));
    assert!(cpu.condition_codes.is_set(ConditionFlag::Sign));
    assert!(cpu.condition_codes.is_set(ConditionFlag::Parity));
    assert!(!cpu.condition_codes.is_set(ConditionFlag::Carry));
    assert!(cpu.condition_codes.is_set(ConditionFlag::AuxiliaryCarry));
}

#[test]
fn adc_uses_carry_in() {
    let mut cpu = Cpu8080::new();
    cpu.a = 0x3D;
    cpu.condition_codes.set(ConditionFlag::Carry);
    cpu.adc(0x42);
    assert_eq!(cpu.a, 0x80);
    assert!(!cpu.condition_codes.is_set(ConditionFlag::Carry));
    assert!(cpu.condition_codes.is_set(ConditionFlag::Sign));
    assert!(cpu.condition_codes.is_set(ConditionFlag::AuxiliaryCarry));
}

#[test]
fn sub_sets_borrow() {
    let mut cpu = Cpu8080::new();
    cpu.a = 0x3E;
    cpu.sub(0x3E);
    assert_eq!(cpu.a, 0x00);
    assert!(cpu.condition_codes.is_set(ConditionFlag::Zero));
    assert!(!cpu.condition_codes.is_set(ConditionFlag::Carry));
    cpu.a = 0x00;
    cpu.sub(0x01);
    assert_eq!(cpu.a, 0xFF);
    assert!(cpu.condition_codes.is_set(ConditionFlag::Carry));
    assert!(cpu.condition_codes.is_set(ConditionFlag::AuxiliaryCarry));
    assert!(cpu.condition_codes.is_set(ConditionFlag::Sign));
}

#[test]
fn sbb_uses_borrow_in() {
    let mut cpu = Cpu8080::new();
    cpu.a = 0x04;
    cpu.condition_codes.set(ConditionFlag::Carry);
    cpu.sbb(0x02);
    assert_eq!(cpu.a, 0x01);
    assert!(!cpu.condition_codes.is_set(ConditionFlag::Carry));
}

#[test]
fn ana_clears_carry_and_derives_aux() {
    let mut cpu = Cpu8080::new();
    cpu.a = 0xFC;
    cpu.condition_codes.set(ConditionFlag::Carry);
    cpu.ana(0x0F);
    assert_eq!(cpu.a, 0x0C);
    assert!(!cpu.condition_codes.is_set(ConditionFlag::Carry));
    // AC = bit 3 of (0xFC | 0x0F) = 1
    assert!(cpu.condition_codes.is_set(ConditionFlag::AuxiliaryCarry));
}

#[test]
fn xra_and_ora_clear_carry_and_aux() {
    let mut cpu = Cpu8080::new();
    cpu.a = 0xFF;
    cpu.condition_codes.set(ConditionFlag::Carry);
    cpu.condition_codes.set(ConditionFlag::AuxiliaryCarry);
    cpu.xra(0xFF);
    assert_eq!(cpu.a, 0x00);
    assert!(cpu.condition_codes.is_set(ConditionFlag::Zero));
    assert!(!cpu.condition_codes.is_set(ConditionFlag::Carry));
    assert!(!cpu.condition_codes.is_set(ConditionFlag::AuxiliaryCarry));
    cpu.ora(0x55);
    assert_eq!(cpu.a, 0x55);
    assert!(!cpu.condition_codes.is_set(ConditionFlag::Zero));
    assert!(cpu.condition_codes.is_set(ConditionFlag::Parity));
}

#[test]
fn cmp_is_non_destructive() {
    let mut cpu = Cpu8080::new();
    cpu.a = 0x0A;
    cpu.cmp(0x05);
    assert_eq!(cpu.a, 0x0A);
    assert!(!cpu.condition_codes.is_set(ConditionFlag::Zero));
    assert!(!cpu.condition_codes.is_set(ConditionFlag::Carry));
    cpu.cmp(0x0A);
    assert!(cpu.condition_codes.is_set(ConditionFlag::Zero));
    assert!(!cpu.condition_codes.is_set(ConditionFlag::Carry));
    cpu.cmp(0x0B);
    assert!(!cpu.condition_codes.is_set(ConditionFlag::Zero));
    assert!(cpu.condition_codes.is_set(ConditionFlag::Carry));
    assert_eq!(cpu.a, 0x0A);
}

#[test]
fn inr_dcr_do_not_touch_carry() {
    let mut cpu = Cpu8080::new();
    cpu.condition_codes.set(ConditionFlag::Carry);
    let r = cpu.inr(0xFF);
    assert_eq!(r, 0x00);
    assert!(cpu.condition_codes.is_set(ConditionFlag::Zero));
    assert!(cpu.condition_codes.is_set(ConditionFlag::AuxiliaryCarry));
    assert!(cpu.condition_codes.is_set(ConditionFlag::Carry));
    cpu.condition_codes.unset(ConditionFlag::Carry);
    let r = cpu.dcr(0x00);
    assert_eq!(r, 0xFF);
    assert!(cpu.condition_codes.is_set(ConditionFlag::AuxiliaryCarry));
    assert!(!cpu.condition_codes.is_set(ConditionFlag::Carry));
}

#[test]
fn rotate_instructions() {
    let mut cpu = Cpu8080::new();
    cpu.a = 0xF2;
    cpu.rlc();
    assert_eq!(cpu.a, 0xE5);
    assert!(cpu.condition_codes.is_set(ConditionFlag::Carry));

    cpu.a = 0xF2;
    cpu.condition_codes.unset(ConditionFlag::Carry);
    cpu.rrc();
    assert_eq!(cpu.a, 0x79);
    assert!(!cpu.condition_codes.is_set(ConditionFlag::Carry));

    cpu.a = 0xB5;
    cpu.condition_codes.unset(ConditionFlag::Carry);
    cpu.ral();
    assert_eq!(cpu.a, 0x6A);
    assert!(cpu.condition_codes.is_set(ConditionFlag::Carry));

    cpu.a = 0x6A;
    cpu.condition_codes.set(ConditionFlag::Carry);
    cpu.rar();
    assert_eq!(cpu.a, 0xB5);
    assert!(!cpu.condition_codes.is_set(ConditionFlag::Carry));
}

#[test]
fn daa_low_nibble_adjust() {
    let mut cpu = Cpu8080::new();
    cpu.a = 0x15;
    cpu.add(0x27);
    cpu.daa();
    assert_eq!(cpu.a, 0x42);
    assert!(!cpu.condition_codes.is_set(ConditionFlag::Carry));
    assert!(cpu.condition_codes.is_set(ConditionFlag::AuxiliaryCarry));
}

#[test]
fn daa_exhaustive_bcd_addition() {
    let mut cpu = Cpu8080::new();
    for x in 0..=0x99u8 {
        if x % 16 > 9 {
            continue;
        }
        for y in 0..=0x99u8 {
            if y % 16 > 9 {
                continue;
            }
            cpu.a = x;
            cpu.add(y);
            cpu.daa();
            let n = (x / 16) as u32 * 10 + (x % 16) as u32 + (y / 16) as u32 * 10 + (y % 16) as u32;
            let expected = ((n % 100 / 10) * 16 + n % 10) as u8;
            assert_eq!(cpu.a, expected, "DAA of {x:#x} + {y:#x}");
            assert_eq!(
                cpu.condition_codes.is_set(ConditionFlag::Carry),
                n >= 100,
                "DAA carry of {x:#x} + {y:#x}"
            );
        }
    }
}

#[test]
fn flag_set_unset_and_bits() {
    let mut cpu = Cpu8080::new();
    for flag in [
        ConditionFlag::Zero,
        ConditionFlag::Sign,
        ConditionFlag::Parity,
        ConditionFlag::Carry,
        ConditionFlag::AuxiliaryCarry,
    ] {
        assert!(!cpu.condition_codes.is_set(flag));
        assert_eq!(cpu.condition_codes.as_bit(flag), 0);
        cpu.condition_codes.set(flag);
        assert!(cpu.condition_codes.is_set(flag));
        assert_eq!(cpu.condition_codes.as_bit(flag), 1);
        cpu.condition_codes.unset(flag);
        assert!(!cpu.condition_codes.is_set(flag));
    }
}

#[test]
fn flags_byte_round_trip() {
    let mut cpu = Cpu8080::new();
    cpu.condition_codes.set(ConditionFlag::Sign);
    cpu.condition_codes.set(ConditionFlag::Carry);
    let b = cpu.condition_codes.flags_byte();
    assert_eq!(b, 0x80 | 0x02 | 0x01);
    let mut other = Cpu8080::new();
    other.condition_codes.set_flags_byte(b);
    assert_eq!(other.condition_codes, cpu.condition_codes);
}

#[test]
fn stack_helpers_round_trip() {
    let mut cpu = Cpu8080::new();
    cpu.sp = 0x2400;
    cpu.push_stack(0xBEEF);
    assert_eq!(cpu.sp, 0x23FE);
    let (high, low) = cpu.read_u16_parts(0x23FE);
    assert_eq!((high, low), (0xBE, 0xEF));
    let (high, low) = cpu.pop_stack_parts();
    assert_eq!((high, low), (0xBE, 0xEF));
    assert_eq!(cpu.sp, 0x2400);
}

#[test]
fn jmp_call_ret_helpers() {
    let mut cpu = Cpu8080::new();
    cpu.sp = 0x2400;
    cpu.pc = 0x0123;
    cpu.jmp(0x4567);
    assert_eq!(cpu.pc, 0x4567);
    cpu.call(0x0010);
    assert_eq!(cpu.pc, 0x0010);
    assert_eq!(cpu.read_u16(0x23FE), 0x4567);
    cpu.ret();
    assert_eq!(cpu.pc, 0x4567);
    assert_eq!(cpu.sp, 0x2400);
}

#[test]
fn opcode_table_sizes() {
    let table = OpcodeTable::new();
    let nop = table.get(0x00).unwrap();
    assert_eq!((nop.opcode, nop.size), (0x00, 1));
    assert_eq!(table.get(0x01).unwrap().size, 3);  // LXI B
    assert_eq!(table.get(0x06).unwrap().size, 2);  // MVI B
    assert_eq!(table.get(0x22).unwrap().size, 3);  // SHLD
    assert_eq!(table.get(0x36).unwrap().size, 2);  // MVI M
    assert_eq!(table.get(0x76).unwrap().size, 1);  // HLT
    assert_eq!(table.get(0x80).unwrap().size, 1);  // ADD B
    assert_eq!(table.get(0xC3).unwrap().size, 3);  // JMP
    assert_eq!(table.get(0xC6).unwrap().size, 2);  // ADI
    assert_eq!(table.get(0xCD).unwrap().size, 3);  // CALL
    assert_eq!(table.get(0xD3).unwrap().size, 2);  // OUT
    assert_eq!(table.get(0xDB).unwrap().size, 2);  // IN
    assert_eq!(table.get(0xDA).unwrap().size, 3);  // JC
    assert_eq!(table.get(0xDC).unwrap().size, 3);  // CC
    assert_eq!(table.get(0xC9).unwrap().size, 1);  // RET
    assert_eq!(table.get(0xFF).unwrap().size, 1);  // RST 7
    for op in 0..=255u8 {
        let entry = table.get(op).unwrap();
        assert_eq!(entry.opcode, op);
        assert!(entry.size >= 1 && entry.size <= 3);
    }
}

#[test]
fn new_cpu_is_zeroed() {
    let cpu = Cpu8080::new();
    assert_eq!(cpu.pc, 0);
    assert_eq!(cpu.sp, 0);
    assert_eq!(cpu.a, 0);
    assert_eq!(
        (cpu.b, cpu.c, cpu.d, cpu.e, cpu.h, cpu.l),
        (0, 0, 0, 0, 0, 0)
    );
    assert!(!cpu.halted);
    assert!(!cpu.interrupts_enabled);
    assert_eq!(cpu.memory.len(), 0x10000);
    assert!(cpu.memory.iter().all(|&b| b == 0));
}

#[test]
fn execute_advances_pc_before_action() {
    // execute() takes the opcode with PC still addressing it; a jump then
    // overwrites the advanced PC.
    let mut cpu = Cpu8080::new();
    let program: Vec<u8> = vec![0xC3, 0x34, 0x12];
    cpu.load(&program, 0);
    let mut bus = emu8080::NullBus;
    cpu.execute(0xC3, &mut bus);
    assert_eq!(cpu.pc, 0x1234);
}

#[test]
fn opcode_table_mnemonics() {
    let table = OpcodeTable::new();
    assert_eq!(table.get(0x00).unwrap().disassembly, "NOP");
    assert_eq!(table.get(0x3E).unwrap().disassembly, "MVI A,D8");
    assert_eq!(table.get(0x41).unwrap().disassembly, "MOV B,C");
    assert_eq!(table.get(0x76).unwrap().disassembly, "HLT");
    assert_eq!(table.get(0x9E).unwrap().disassembly, "SBB M");
    assert_eq!(table.get(0xC3).unwrap().disassembly, "JMP A16");
    assert_eq!(table.get(0xF5).unwrap().disassembly, "PUSH PSW");
    assert_eq!(table.get(0xFE).unwrap().disassembly, "CPI D8");
    assert_eq!(table.get(0xFF).unwrap().disassembly, "RST 7");
    assert_eq!(table.get(0xFD).unwrap().disassembly, "NOP");
}
