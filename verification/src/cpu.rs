use vstd::prelude::*;
use crate::model::{
    even_parity, psw_flags_byte, flags_from_psw, pair16, high_byte, low_byte,
    CpuView, initial_view, addr1, wrap16, read16, write16, push_spec, pop_spec, pop_value,
    ret_spec, call_spec, set_flag_view, flag_bit, wrap8, alu_add, alu_sub, alu_cmp, alu_and,
    alu_xor, alu_or, inr8, dcr8, inr_flags, dcr_flags, rlc_spec, rrc_spec, ral_spec, rar_spec,
    daa_spec, dad_spec,
};

verus! {

/// One of the five 8080 condition flags.
#[derive(Copy, Clone, Debug)]
pub enum ConditionFlag {
    Zero,
    Sign,
    Parity,
    Carry,
    AuxiliaryCarry,
}

/// The five condition flags of the processor. The packed byte layout only
/// matters to PUSH PSW / POP PSW, which go through `psw_flags_byte` and
/// `flags_from_psw`; internally each flag is its own field.
#[derive(Copy, Clone, Debug, PartialEq, Eq, Structural)]
pub struct ConditionBitset {
    pub zero: bool,
    pub sign: bool,
    pub parity: bool,
    pub carry: bool,
    pub aux_carry: bool,
}

impl ConditionBitset {
    /// The value of one flag.
    pub open spec fn flag(self, flag: ConditionFlag) -> bool {
        match flag {
            ConditionFlag::Zero => self.zero,
            ConditionFlag::Sign => self.sign,
            ConditionFlag::Parity => self.parity,
            ConditionFlag::Carry => self.carry,
            ConditionFlag::AuxiliaryCarry => self.aux_carry,
        }
    }

    /// This flag set to `value`, the others unchanged.
    pub open spec fn with_flag(self, flag: ConditionFlag, value: bool) -> ConditionBitset {
        match flag {
            ConditionFlag::Zero => ConditionBitset { zero: value, ..self },
            ConditionFlag::Sign => ConditionBitset { sign: value, ..self },
            ConditionFlag::Parity => ConditionBitset { parity: value, ..self },
            ConditionFlag::Carry => ConditionBitset { carry: value, ..self },
            ConditionFlag::AuxiliaryCarry => ConditionBitset { aux_carry: value, ..self },
        }
    }

    pub fn set(&mut self, flag: ConditionFlag)
        ensures
            *final(self) == old(self).with_flag(flag, true),
    {
        match flag {
            ConditionFlag::Zero => self.zero = true,
            ConditionFlag::Sign => self.sign = true,
            ConditionFlag::Parity => self.parity = true,
            ConditionFlag::Carry => self.carry = true,
            ConditionFlag::AuxiliaryCarry => self.aux_carry = true,
        }
    }

    pub fn unset(&mut self, flag: ConditionFlag)
        ensures
            *final(self) == old(self).with_flag(flag, false),
    {
        match flag {
            ConditionFlag::Zero => self.zero = false,
            ConditionFlag::Sign => self.sign = false,
            ConditionFlag::Parity => self.parity = false,
            ConditionFlag::Carry => self.carry = false,
            ConditionFlag::AuxiliaryCarry => self.aux_carry = false,
        }
    }

    pub fn is_set(&self, flag: ConditionFlag) -> (r: bool)
        ensures
            r == self.flag(flag),
    {
        match flag {
            ConditionFlag::Zero => self.zero,
            ConditionFlag::Sign => self.sign,
            ConditionFlag::Parity => self.parity,
            ConditionFlag::Carry => self.carry,
            ConditionFlag::AuxiliaryCarry => self.aux_carry,
        }
    }

    /// The flag as the integer 0 or 1, as the ADC/SBB carry input needs it.
    pub fn as_bit(&self, flag: ConditionFlag) -> (r: u8)
        ensures
            r == flag_bit(self.flag(flag)),
    {
        if self.is_set(flag) {
            1
        } else {
            0
        }
    }

    /// Pack the flags into the PSW byte format.
    pub fn flags_byte(&self) -> (b: u8)
        ensures
            b == psw_flags_byte(*self),
    {
        let s: u8 = if self.sign { 0x80 } else { 0 };
        let z: u8 = if self.zero { 0x40 } else { 0 };
        let ac: u8 = if self.aux_carry { 0x10 } else { 0 };
        let p: u8 = if self.parity { 4 } else { 0 };
        let cy: u8 = if self.carry { 1 } else { 0 };
        s + z + ac + p + 2 + cy
    }

    /// Load the flags from a PSW byte; the reserved bits are ignored.
    pub fn set_flags_byte(&mut self, b: u8)
        ensures
            *final(self) == flags_from_psw(b),
    {
        self.sign = b / 0x80 % 2 == 1;
        self.zero = b / 0x40 % 2 == 1;
        self.aux_carry = b / 0x10 % 2 == 1;
        self.parity = b / 4 % 2 == 1;
        self.carry = b % 2 == 1;
    }
}

/// The host-supplied I/O port bus that the IN and OUT instructions go
/// through. Nothing is assumed of a port's behaviour: IN may hand back any
/// byte, and OUT may do anything on the host's side.
pub trait IoBus {
    fn port_in(&mut self, port: u8) -> u8;

    fn port_out(&mut self, port: u8, value: u8);
}

/// A bus with no devices attached: IN reads 0 and OUT is dropped.
pub struct NullBus;

impl IoBus for NullBus {
    fn port_in(&mut self, _port: u8) -> u8 {
        0
    }

    fn port_out(&mut self, _port: u8, _value: u8) {
    }
}

/// The processor: eight 8-bit registers, the two 16-bit pointers, the flag
/// bits, the halted and interrupt-enable bits, and the flat 64 KiB memory.
pub struct Cpu8080 {
    pub pc: u16,
    pub sp: u16,
    pub a: u8,
    pub b: u8,
    pub c: u8,
    pub d: u8,
    pub e: u8,
    pub h: u8,
    pub l: u8,
    pub halted: bool,
    pub interrupts_enabled: bool,
    pub memory: Vec<u8>,
    pub condition_codes: ConditionBitset,
}

impl View for Cpu8080 {
    type V = CpuView;

    open spec fn view(&self) -> CpuView {
        CpuView {
            a: self.a,
            b: self.b,
            c: self.c,
            d: self.d,
            e: self.e,
            h: self.h,
            l: self.l,
            pc: self.pc,
            sp: self.sp,
            flags: self.condition_codes,
            halted: self.halted,
            interrupts_enabled: self.interrupts_enabled,
            mem: self.memory@,
        }
    }
}

/// The address one past `addr`, wrapping at the top of the address space.
pub(crate) fn next_addr(addr: u16) -> (r: u16)
    ensures
        r == addr1(addr),
{
    if addr == 0xFFFF {
        0
    } else {
        addr + 1
    }
}

impl Cpu8080 {
    /// The one structural invariant: the memory is the full address space.
    pub open spec fn wf(&self) -> bool {
        self.memory@.len() == 0x10000
    }

    /// A processor at power-on: all state zeroed, memory zero-filled,
    /// interrupts disabled.
    pub fn new() -> (cpu: Cpu8080)
        ensures
            cpu.wf(),
            cpu@ == initial_view(),
    {
        let mut memory: Vec<u8> = Vec::new();
        let mut i: usize = 0;
        while i < 0x10000
            invariant
                memory@.len() == i,
                i <= 0x10000,
                forall|j: int| 0 <= j < i ==> memory@[j] == 0u8,
            decreases 0x10000 - i,
        {
            memory.push(0);
            i += 1;
        }
        let cpu = Cpu8080 {
            pc: 0,
            sp: 0,
            a: 0,
            b: 0,
            c: 0,
            d: 0,
            e: 0,
            h: 0,
            l: 0,
            halted: false,
            interrupts_enabled: false,
            memory,
            condition_codes: ConditionBitset {
                zero: false,
                sign: false,
                parity: false,
                carry: false,
                aux_carry: false,
            },
        };
        proof {
            assert(cpu@.mem =~= initial_view().mem);
            assert(cpu@ =~= initial_view());
        }
        cpu
    }

    /// Copy `data` into memory starting at `base`. The image must fit below
    /// the top of the address space.
    pub fn load(&mut self, data: &Vec<u8>, base: u16)
        requires
            old(self).wf(),
            base + data@.len() <= 0x10000,
        ensures
            final(self).wf(),
            final(self)@ == (CpuView { mem: final(self)@.mem, ..old(self)@ }),
            forall|i: int|
                0 <= i < data@.len() ==> final(self)@.mem[base + i] == data@[i],
            forall|i: int|
                0 <= i < 0x10000 && !(base <= i < base + data@.len()) ==> final(self)@.mem[i]
                    == old(self)@.mem[i],
    {
        let mut k: usize = 0;
        while k < data.len()
            invariant
                self.wf(),
                base + data@.len() <= 0x10000,
                k <= data@.len(),
                self@ == (CpuView { mem: self@.mem, ..old(self)@ }),
                forall|i: int| 0 <= i < k ==> self@.mem[base + i] == data@[i],
                forall|i: int|
                    0 <= i < 0x10000 && !(base <= i < base + k) ==> self@.mem[i] == old(
                        self,
                    )@.mem[i],
            decreases data@.len() - k,
        {
            let v: u8 = data[k];
            self.memory.set(base as usize + k, v);
            k += 1;
        }
    }

    /// The byte at `addr`.
    pub fn read8(&self, addr: u16) -> (r: u8)
        requires
            self.wf(),
        ensures
            r == self@.mem[addr as int],
    {
        self.memory[addr as usize]
    }

    /// Store `v` at `addr`.
    pub fn write8(&mut self, addr: u16, v: u8)
        requires
            old(self).wf(),
        ensures
            final(self).wf(),
            final(self)@ == (CpuView { mem: old(self)@.mem.update(addr as int, v), ..old(self)@ }),
    {
        self.memory.set(addr as usize, v);
    }

    /// Read the 16-bit value at `addr` and hand it back in its parts:
    /// (high, low).
    pub fn read_u16_parts(&self, addr: u16) -> (r: (u8, u8))
        requires
            self.wf(),
        ensures
            r.0 == self@.mem[addr1(addr) as int],
            r.1 == self@.mem[addr as int],
    {
        let low: u8 = self.read8(addr);
        let high: u8 = self.read8(next_addr(addr));
        (high, low)
    }

    /// The little-endian 16-bit value at `addr`.
    pub fn read_u16(&self, addr: u16) -> (r: u16)
        requires
            self.wf(),
        ensures
            r == read16(self@.mem, addr),
    {
        let (high, low) = self.read_u16_parts(addr);
        combine_bytes(high, low)
    }

    /// Store `val` at `addr` little-endian: low byte first.
    pub fn write_u16(&mut self, addr: u16, val: u16)
        requires
            old(self).wf(),
        ensures
            final(self).wf(),
            final(self)@ == (CpuView { mem: write16(old(self)@.mem, addr, val), ..old(self)@ }),
    {
        let mut high: u8 = 0;
        let mut low: u8 = 0;
        set_byte_pair(&mut high, &mut low, val);
        self.write8(addr, low);
        self.write8(next_addr(addr), high);
    }

    /// Push `val`: high byte to SP - 1, low byte to SP - 2, SP moves down
    /// by two, wrapping at 16 bits.
    pub fn push_stack(&mut self, val: u16)
        requires
            old(self).wf(),
        ensures
            final(self).wf(),
            final(self)@ == push_spec(old(self)@, val),
    {
        let new_sp: u16 = if self.sp >= 2 {
            self.sp - 2
        } else {
            self.sp + 0xFFFE
        };
        self.write_u16(new_sp, val);
        self.sp = new_sp;
    }

    /// Pop a 16-bit value off the stack in its parts (high, low): low byte
    /// read at SP, high byte at SP + 1, then SP moves up by two.
    pub fn pop_stack_parts(&mut self) -> (r: (u8, u8))
        requires
            old(self).wf(),
        ensures
            final(self).wf(),
            r.0 == old(self)@.mem[addr1(old(self)@.sp) as int],
            r.1 == old(self)@.mem[old(self)@.sp as int],
            final(self)@ == pop_spec(old(self)@),
    {
        let parts = self.read_u16_parts(self.sp);
        self.sp = if self.sp <= 0xFFFD {
            self.sp + 2
        } else {
            self.sp - 0xFFFE
        };
        parts
    }

    /// Pop a 16-bit value off the stack.
    pub fn pop_stack(&mut self) -> (r: u16)
        requires
            old(self).wf(),
        ensures
            final(self).wf(),
            r == pop_value(old(self)@),
            final(self)@ == pop_spec(old(self)@),
    {
        let (high, low) = self.pop_stack_parts();
        combine_bytes(high, low)
    }

    /// Overwrite PC.
    pub fn jmp(&mut self, addr: u16)
        requires
            old(self).wf(),
        ensures
            final(self).wf(),
            final(self)@ == (CpuView { pc: addr, ..old(self)@ }),
    {
        self.pc = addr;
    }

    /// Return: pop the saved address into PC.
    pub fn ret(&mut self)
        requires
            old(self).wf(),
        ensures
            final(self).wf(),
            final(self)@ == ret_spec(old(self)@),
    {
        let addr: u16 = self.pop_stack();
        self.pc = addr;
    }

    /// Call `addr`: push the current PC, then jump.
    pub fn call(&mut self, addr: u16)
        requires
            old(self).wf(),
        ensures
            final(self).wf(),
            final(self)@ == call_spec(old(self)@, addr),
    {
        let pc: u16 = self.pc;
        self.push_stack(pc);
        self.pc = addr;
    }

    /// True once HLT has been executed and no interrupt has arrived since.
    pub fn is_halted(&self) -> (r: bool)
        ensures
            r == self@.halted,
    {
        self.halted
    }

    /// Derive the zero flag from the low byte of a wide ALU result.
    pub fn check_zero(&mut self, result: u16) -> (b: bool)
        ensures
            b == (result % 256 == 0),
            final(self)@ == set_flag_view(old(self)@, ConditionFlag::Zero, result % 256 == 0),
    {
        let b: bool = result % 256 == 0;
        self.condition_codes.zero = b;
        b
    }

    /// Derive the sign flag from bit 7 of the low byte of a wide ALU result.
    pub fn check_sign(&mut self, result: u16) -> (b: bool)
        ensures
            b == (result % 256 >= 128),
            final(self)@ == set_flag_view(old(self)@, ConditionFlag::Sign, result % 256 >= 128),
    {
        let b: bool = sign_flag(result);
        self.condition_codes.sign = b;
        b
    }

    /// Derive the parity flag from the low byte of a wide ALU result.
    pub fn check_parity(&mut self, result: u16) -> (b: bool)
        ensures
            b == even_parity(wrap8(result as int)),
            final(self)@ == set_flag_view(
                old(self)@,
                ConditionFlag::Parity,
                even_parity(wrap8(result as int)),
            ),
    {
        let b: bool = parity((result % 256) as u8);
        self.condition_codes.parity = b;
        b
    }

    /// Derive the carry flag: set when a 9-bit result carries out of bit 7.
    pub fn check_carry(&mut self, result: u16) -> (b: bool)
        ensures
            b == (result > 0xFF),
            final(self)@ == set_flag_view(old(self)@, ConditionFlag::Carry, result > 0xFF),
    {
        let b: bool = carry_flag(result);
        self.condition_codes.carry = b;
        b
    }

    /// The shared body of ADD and ADC: `cin` is the carry-in bit.
    fn add_impl(&mut self, val: u8, cin: u8)
        requires
            old(self).wf(),
            cin <= 1,
        ensures
            final(self).wf(),
            final(self)@ == alu_add(old(self)@, val, cin),
    {
        let a0: u8 = self.a;
        let result: u16 = a0 as u16 + val as u16 + cin as u16;
        self.check_zero(result);
        self.check_sign(result);
        self.check_parity(result);
        self.check_carry(result);
        self.condition_codes.aux_carry = a0 % 16 + val % 16 + cin > 15;
        self.a = (result % 256) as u8;
        proof {
            assert(self@ =~= alu_add(old(self)@, val, cin));
        }
    }

    /// ADD: add `val` into the accumulator, setting all five flags.
    pub fn add(&mut self, val: u8)
        requires
            old(self).wf(),
        ensures
            final(self).wf(),
            final(self)@ == alu_add(old(self)@, val, 0),
    {
        self.add_impl(val, 0);
    }

    /// ADC: add `val` and the carry bit into the accumulator.
    pub fn adc(&mut self, val: u8)
        requires
            old(self).wf(),
        ensures
            final(self).wf(),
            final(self)@ == alu_add(old(self)@, val, flag_bit(old(self)@.flags.carry)),
    {
        let cin: u8 = self.condition_codes.as_bit(ConditionFlag::Carry);
        self.add_impl(val, cin);
    }

    /// The shared body of SUB and SBB: `bin` is the borrow-in bit.
    fn sub_impl(&mut self, val: u8, bin: u8)
        requires
            old(self).wf(),
            bin <= 1,
        ensures
            final(self).wf(),
            final(self)@ == alu_sub(old(self)@, val, bin),
    {
        let a0: u8 = self.a;
        let result: u16 = a0 as u16 + 0x100 - val as u16 - bin as u16;
        self.check_zero(result);
        self.check_sign(result);
        self.check_parity(result);
        self.condition_codes.carry = result <= 0xFF;
        self.condition_codes.aux_carry = val % 16 + bin > a0 % 16;
        self.a = (result % 256) as u8;
        proof {
            assert(self@ =~= alu_sub(old(self)@, val, bin));
        }
    }

    /// SUB: subtract `val` from the accumulator; CY is the borrow.
    pub fn sub(&mut self, val: u8)
        requires
            old(self).wf(),
        ensures
            final(self).wf(),
            final(self)@ == alu_sub(old(self)@, val, 0),
    {
        self.sub_impl(val, 0);
    }

    /// SBB: subtract `val` and the carry bit from the accumulator.
    pub fn sbb(&mut self, val: u8)
        requires
            old(self).wf(),
        ensures
            final(self).wf(),
            final(self)@ == alu_sub(old(self)@, val, flag_bit(old(self)@.flags.carry)),
    {
        let bin: u8 = self.condition_codes.as_bit(ConditionFlag::Carry);
        self.sub_impl(val, bin);
    }

    /// CMP: set the flags of `A - val` without storing the difference.
    pub fn cmp(&mut self, val: u8)
        requires
            old(self).wf(),
        ensures
            final(self).wf(),
            final(self)@ == alu_cmp(old(self)@, val),
    {
        let a0: u8 = self.a;
        let result: u16 = a0 as u16 + 0x100 - val as u16;
        self.check_zero(result);
        self.check_sign(result);
        self.check_parity(result);
        self.condition_codes.carry = result <= 0xFF;
        self.condition_codes.aux_carry = val % 16 > a0 % 16;
        proof {
            assert(self@ =~= alu_cmp(old(self)@, val));
        }
    }

    /// ANA: AND `val` into the accumulator. CY clears; AC takes bit 3 of the
    /// OR of the operands, as the 8080 defines for AND operations.
    pub fn ana(&mut self, val: u8)
        requires
            old(self).wf(),
        ensures
            final(self).wf(),
            final(self)@ == alu_and(old(self)@, val),
    {
        let a0: u8 = self.a;
        let r: u8 = a0 & val;
        self.check_zero(r as u16);
        self.check_sign(r as u16);
        self.check_parity(r as u16);
        self.condition_codes.carry = false;
        self.condition_codes.aux_carry = ((a0 | val) & 8) != 0;
        self.a = r;
        proof {
            assert(self@ =~= alu_and(old(self)@, val));
        }
    }

    /// XRA: XOR `val` into the accumulator; CY and AC clear.
    pub fn xra(&mut self, val: u8)
        requires
            old(self).wf(),
        ensures
            final(self).wf(),
            final(self)@ == alu_xor(old(self)@, val),
    {
        let a0: u8 = self.a;
        let r: u8 = a0 ^ val;
        self.check_zero(r as u16);
        self.check_sign(r as u16);
        self.check_parity(r as u16);
        self.condition_codes.carry = false;
        self.condition_codes.aux_carry = false;
        self.a = r;
        proof {
            assert(self@ =~= alu_xor(old(self)@, val));
        }
    }

    /// ORA: OR `val` into the accumulator; CY and AC clear.
    pub fn ora(&mut self, val: u8)
        requires
            old(self).wf(),
        ensures
            final(self).wf(),
            final(self)@ == alu_or(old(self)@, val),
    {
        let a0: u8 = self.a;
        let r: u8 = a0 | val;
        self.check_zero(r as u16);
        self.check_sign(r as u16);
        self.check_parity(r as u16);
        self.condition_codes.carry = false;
        self.condition_codes.aux_carry = false;
        self.a = r;
        proof {
            assert(self@ =~= alu_or(old(self)@, val));
        }
    }

    /// INR: hand back `val + 1`, updating Z, S, P and AC and leaving CY
    /// alone. The caller stores the result in the register or memory cell.
    pub fn inr(&mut self, val: u8) -> (r: u8)
        requires
            old(self).wf(),
        ensures
            final(self).wf(),
            r == inr8(val),
            final(self)@ == (CpuView { flags: inr_flags(old(self)@.flags, val), ..old(self)@ }),
    {
        let result: u16 = val as u16 + 1;
        self.check_zero(result);
        self.check_sign(result);
        self.check_parity(result);
        self.condition_codes.aux_carry = val % 16 == 15;
        (result % 256) as u8
    }

    /// DCR: hand back `val - 1`, updating Z, S, P and AC and leaving CY
    /// alone.
    pub fn dcr(&mut self, val: u8) -> (r: u8)
        requires
            old(self).wf(),
        ensures
            final(self).wf(),
            r == dcr8(val),
            final(self)@ == (CpuView { flags: dcr_flags(old(self)@.flags, val), ..old(self)@ }),
    {
        let result: u16 = val as u16 + 0xFF;
        self.check_zero(result);
        self.check_sign(result);
        self.check_parity(result);
        self.condition_codes.aux_carry = val % 16 == 0;
        (result % 256) as u8
    }

    /// RLC: rotate the accumulator left; CY takes the old bit 7.
    pub fn rlc(&mut self)
        requires
            old(self).wf(),
        ensures
            final(self).wf(),
            final(self)@ == rlc_spec(old(self)@),
    {
        let a0: u8 = self.a;
        self.a = (a0 << 1u8) | (a0 >> 7u8);
        self.condition_codes.carry = a0 >= 0x80;
    }

    /// RRC: rotate the accumulator right; CY takes the old bit 0.
    pub fn rrc(&mut self)
        requires
            old(self).wf(),
        ensures
            final(self).wf(),
            final(self)@ == rrc_spec(old(self)@),
    {
        let a0: u8 = self.a;
        self.a = (a0 >> 1u8) | (a0 << 7u8);
        self.condition_codes.carry = (a0 & 1) == 1;
    }

    /// RAL: rotate left through the carry bit.
    pub fn ral(&mut self)
        requires
            old(self).wf(),
        ensures
            final(self).wf(),
            final(self)@ == ral_spec(old(self)@),
    {
        let a0: u8 = self.a;
        let cin: u8 = self.condition_codes.as_bit(ConditionFlag::Carry);
        self.a = (a0 << 1u8) | cin;
        self.condition_codes.carry = a0 >= 0x80;
    }

    /// RAR: rotate right through the carry bit.
    pub fn rar(&mut self)
        requires
            old(self).wf(),
        ensures
            final(self).wf(),
            final(self)@ == rar_spec(old(self)@),
    {
        let a0: u8 = self.a;
        let cin: u8 = self.condition_codes.as_bit(ConditionFlag::Carry);
        self.a = (a0 >> 1u8) | (cin << 7u8);
        self.condition_codes.carry = (a0 & 1) == 1;
    }

    /// DAA: decimal-adjust the accumulator after a BCD addition.
    pub fn daa(&mut self)
        requires
            old(self).wf(),
        ensures
            final(self).wf(),
            final(self)@ == daa_spec(old(self)@),
    {
        let a0: u8 = self.a;
        let adj_lo: bool = a0 % 16 > 9 || self.condition_codes.aux_carry;
        let a1: u8 = if adj_lo {
            ((a0 as u16 + 6) % 256) as u8
        } else {
            a0
        };
        let ac1: bool = adj_lo && a0 % 16 + 6 > 15;
        let cy0: bool = self.condition_codes.carry;
        let cy_mid: bool = cy0 || (adj_lo && a0 as u16 + 6 > 0xFF);
        let adj_hi: bool = a1 / 16 > 9 || cy_mid;
        let a2: u8 = if adj_hi {
            ((a1 as u16 + 0x60) % 256) as u8
        } else {
            a1
        };
        let cy2: bool = cy_mid || (adj_hi && a1 as u16 + 0x60 > 0xFF);
        self.check_zero(a2 as u16);
        self.check_sign(a2 as u16);
        self.check_parity(a2 as u16);
        self.condition_codes.carry = cy2;
        self.condition_codes.aux_carry = ac1;
        self.a = a2;
        proof {
            assert(self@ =~= daa_spec(old(self)@));
        }
    }

    /// DAD: add a 16-bit register pair value into HL; only CY changes.
    pub fn dad(&mut self, rp: u16)
        requires
            old(self).wf(),
        ensures
            final(self).wf(),
            final(self)@ == dad_spec(old(self)@, rp),
    {
        let hl: u16 = combine_bytes(self.h, self.l);
        let result: u32 = hl as u32 + rp as u32;
        self.condition_codes.carry = result > 0xFFFF;
        let new_hl: u16 = (result % 0x10000) as u16;
        let mut high: u8 = 0;
        let mut low: u8 = 0;
        set_byte_pair(&mut high, &mut low, new_hl);
        self.h = high;
        self.l = low;
        proof {
            assert(self@ =~= dad_spec(old(self)@, rp));
        }
    }
}

/// True when the number of set bits of `n` is even; this is the value the
/// parity flag takes for a result byte `n`.
pub fn parity(n: u8) -> (r: bool)
    ensures
        r == even_parity(n),
{
    proof {
        assert((n >> 0u8) & 1 <= 1 && (n >> 1u8) & 1 <= 1 && (n >> 2u8) & 1 <= 1 && (n >> 3u8) & 1
            <= 1 && (n >> 4u8) & 1 <= 1 && (n >> 5u8) & 1 <= 1 && (n >> 6u8) & 1 <= 1 && (n >> 7u8)
            & 1 <= 1) by (bit_vector);
    }
    let count: u8 = ((n >> 0u8) & 1) + ((n >> 1u8) & 1) + ((n >> 2u8) & 1) + ((n >> 3u8) & 1) + ((n
        >> 4u8) & 1) + ((n >> 5u8) & 1) + ((n >> 6u8) & 1) + ((n >> 7u8) & 1);
    count % 2 == 0
}

/// True when bit 7 of the low byte of `n` is set: the sign flag of a result.
pub fn sign_flag(n: u16) -> (r: bool)
    ensures
        r == (n % 256 >= 128),
{
    n % 256 >= 128
}

/// True when a 9-bit arithmetic result carries out of bit 7.
pub fn carry_flag(n: u16) -> (r: bool)
    ensures
        r == (n > 0xFF),
{
    n > 0xFF
}

/// The 16-bit value formed little-endian style from a high and a low byte.
pub fn combine_bytes(high: u8, low: u8) -> (r: u16)
    ensures
        r == pair16(high, low),
{
    (high as u16) * 256 + (low as u16)
}

/// Split a 16-bit value into its high and low bytes.
pub fn set_byte_pair(high: &mut u8, low: &mut u8, scalar: u16)
    ensures
        *final(high) == high_byte(scalar),
        *final(low) == low_byte(scalar),
{
    *low = (scalar % 256) as u8;
    *high = (scalar / 256) as u8;
}

} // verus!
