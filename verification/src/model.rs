use vstd::prelude::*;
use crate::cpu::{ConditionBitset, ConditionFlag};

verus! {

// The mathematical model of the processor: machine words and flag
// derivation, the architectural state (`CpuView`), and the per-instruction
// transition function (`exec_spec`, `step_spec`, `interrupt_spec`) that the
// executable core in `cpu.rs` and `exec.rs` is proved against.

/// `x` reduced into the 16-bit range.
pub open spec fn wrap16(x: int) -> u16 {
    (x % 0x10000) as u16
}

/// `x` reduced into the 8-bit range.
pub open spec fn wrap8(x: int) -> u8 {
    (x % 0x100) as u8
}

/// The 16-bit value formed from a high and a low byte.
pub open spec fn pair16(high: u8, low: u8) -> u16 {
    (high * 256 + low) as u16
}

pub open spec fn high_byte(v: u16) -> u8 {
    (v / 256) as u8
}

pub open spec fn low_byte(v: u16) -> u8 {
    (v % 256) as u8
}

/// The address one past `a`, wrapping at the top of the address space.
pub open spec fn addr1(a: u16) -> u16 {
    wrap16(a + 1)
}

/// Bit `i` of `n`, as 0 or 1.
pub open spec fn bit_u8(n: u8, i: u8) -> u8 {
    (n >> i) & 1
}

/// How many of the eight bits of `n` are set.
pub open spec fn ones8(n: u8) -> int {
    bit_u8(n, 0) + bit_u8(n, 1) + bit_u8(n, 2) + bit_u8(n, 3) + bit_u8(n, 4) + bit_u8(n, 5)
        + bit_u8(n, 6) + bit_u8(n, 7)
}

/// Even parity: true when the number of set bits of `n` is even.
pub open spec fn even_parity(n: u8) -> bool {
    ones8(n) % 2 == 0
}

pub open spec fn flag_bit(b: bool) -> u8 {
    if b {
        1
    } else {
        0
    }
}

/// The flag byte in the format PUSH PSW stores: bit 7 = S, bit 6 = Z,
/// bit 5 = 0, bit 4 = AC, bit 3 = 0, bit 2 = P, bit 1 = 1, bit 0 = CY.
pub open spec fn psw_flags_byte(f: ConditionBitset) -> u8 {
    (flag_bit(f.sign) * 0x80 + flag_bit(f.zero) * 0x40 + flag_bit(f.aux_carry) * 0x10 + flag_bit(
        f.parity,
    ) * 4 + 2 + flag_bit(f.carry)) as u8
}

/// The flags recovered from a PSW flag byte; the reserved bits 1, 3 and 5
/// are ignored.
pub open spec fn flags_from_psw(b: u8) -> ConditionBitset {
    ConditionBitset {
        sign: b / 0x80 % 2 == 1,
        zero: b / 0x40 % 2 == 1,
        aux_carry: b / 0x10 % 2 == 1,
        parity: b / 4 % 2 == 1,
        carry: b % 2 == 1,
    }
}

/// All five flags cleared.
pub open spec fn clear_flags() -> ConditionBitset {
    ConditionBitset { zero: false, sign: false, parity: false, carry: false, aux_carry: false }
}

/// The architectural state of the processor: the registers, the flags, the
/// halted and interrupt-enable bits, and the 65,536-byte memory.
#[verifier::ext_equal]
pub ghost struct CpuView {
    pub a: u8,
    pub b: u8,
    pub c: u8,
    pub d: u8,
    pub e: u8,
    pub h: u8,
    pub l: u8,
    pub pc: u16,
    pub sp: u16,
    pub flags: ConditionBitset,
    pub halted: bool,
    pub interrupts_enabled: bool,
    pub mem: Seq<u8>,
}

impl CpuView {
    pub open spec fn mem_ok(self) -> bool {
        self.mem.len() == 0x10000
    }

    pub open spec fn bc(self) -> u16 {
        pair16(self.b, self.c)
    }

    pub open spec fn de(self) -> u16 {
        pair16(self.d, self.e)
    }

    pub open spec fn hl(self) -> u16 {
        pair16(self.h, self.l)
    }
}

/// The state at power-on: everything zeroed, interrupts disabled.
pub open spec fn initial_view() -> CpuView {
    CpuView {
        a: 0,
        b: 0,
        c: 0,
        d: 0,
        e: 0,
        h: 0,
        l: 0,
        pc: 0,
        sp: 0,
        flags: clear_flags(),
        halted: false,
        interrupts_enabled: false,
        mem: Seq::new(0x10000, |i: int| 0u8),
    }
}

/// The little-endian 16-bit value at address `a`: low byte at `a`, high byte
/// at `a + 1`, the address wrapping at 16 bits.
pub open spec fn read16(mem: Seq<u8>, a: u16) -> u16 {
    pair16(mem[addr1(a) as int], mem[a as int])
}

/// The memory after a little-endian 16-bit store of `v` at address `a`.
pub open spec fn write16(mem: Seq<u8>, a: u16, v: u16) -> Seq<u8> {
    mem.update(a as int, low_byte(v)).update(addr1(a) as int, high_byte(v))
}

/// The state after pushing `v`: the high byte goes to SP - 1, the low byte to
/// SP - 2, and SP moves down by two.
pub open spec fn push_spec(s: CpuView, v: u16) -> CpuView {
    CpuView { sp: wrap16(s.sp - 2), mem: write16(s.mem, wrap16(s.sp - 2), v), ..s }
}

/// The 16-bit value a POP at state `s` hands back: read at SP before SP moves.
pub open spec fn pop_value(s: CpuView) -> u16 {
    read16(s.mem, s.sp)
}

/// The state after a POP: SP moves up by two, memory is untouched.
pub open spec fn pop_spec(s: CpuView) -> CpuView {
    CpuView { sp: wrap16(s.sp + 2), ..s }
}

/// The state after RET: PC is popped off the stack.
pub open spec fn ret_spec(s: CpuView) -> CpuView {
    CpuView { pc: pop_value(s), ..pop_spec(s) }
}

/// The state after CALL `addr`: the return address (the PC already past the
/// instruction) is pushed, then PC is overwritten.
pub open spec fn call_spec(s: CpuView, addr: u16) -> CpuView {
    CpuView { pc: addr, ..push_spec(s, s.pc) }
}

/// The state with one flag replaced.
pub open spec fn set_flag_view(s: CpuView, f: ConditionFlag, b: bool) -> CpuView {
    CpuView { flags: s.flags.with_flag(f, b), ..s }
}

/// The flags after an arithmetic or logic result byte `r`: Z, S and P are
/// derived from `r`; CY and AC are as the operation determined them.
pub open spec fn flags_arith(r: u8, cy: bool, ac: bool) -> ConditionBitset {
    ConditionBitset {
        zero: r == 0,
        sign: r >= 0x80,
        parity: even_parity(r),
        carry: cy,
        aux_carry: ac,
    }
}

/// ADD / ADC: `cin` is 0, or the incoming carry bit for ADC. CY is the carry
/// out of bit 7, AC the carry out of bit 3.
pub open spec fn alu_add(s: CpuView, v: u8, cin: u8) -> CpuView {
    let r: u8 = wrap8(s.a + v + cin);
    CpuView {
        a: r,
        flags: flags_arith(r, s.a + v + cin > 0xFF, s.a % 16 + v % 16 + cin > 0xF),
        ..s
    }
}

/// The flags a subtraction `a - v - bin` leaves: CY is the borrow out of
/// bit 7, AC the borrow out of bit 3.
pub open spec fn sub_flags(a: u8, v: u8, bin: u8) -> ConditionBitset {
    flags_arith(wrap8(a - v - bin), v + bin > a, v % 16 + bin > a % 16)
}

/// SUB / SBB: `bin` is 0, or the incoming carry bit for SBB.
pub open spec fn alu_sub(s: CpuView, v: u8, bin: u8) -> CpuView {
    CpuView { a: wrap8(s.a - v - bin), flags: sub_flags(s.a, v, bin), ..s }
}

/// CMP: the flags of `a - v`, with the accumulator left alone.
pub open spec fn alu_cmp(s: CpuView, v: u8) -> CpuView {
    CpuView { flags: sub_flags(s.a, v, 0), ..s }
}

/// ANA: CY cleared; AC from bit 3 of the OR of the operands.
pub open spec fn alu_and(s: CpuView, v: u8) -> CpuView {
    let r: u8 = s.a & v;
    CpuView { a: r, flags: flags_arith(r, false, ((s.a | v) & 8) != 0), ..s }
}

/// XRA: CY and AC cleared.
pub open spec fn alu_xor(s: CpuView, v: u8) -> CpuView {
    let r: u8 = s.a ^ v;
    CpuView { a: r, flags: flags_arith(r, false, false), ..s }
}

/// ORA: CY and AC cleared.
pub open spec fn alu_or(s: CpuView, v: u8) -> CpuView {
    let r: u8 = s.a | v;
    CpuView { a: r, flags: flags_arith(r, false, false), ..s }
}

pub open spec fn inr8(v: u8) -> u8 {
    wrap8(v + 1)
}

pub open spec fn dcr8(v: u8) -> u8 {
    wrap8(v - 1)
}

/// The flags after INR of `v`: Z, S, P, AC updated, CY untouched.
pub open spec fn inr_flags(f: ConditionBitset, v: u8) -> ConditionBitset {
    ConditionBitset { carry: f.carry, ..flags_arith(inr8(v), false, v % 16 == 15) }
}

/// The flags after DCR of `v`: Z, S, P, AC updated, CY untouched.
pub open spec fn dcr_flags(f: ConditionBitset, v: u8) -> ConditionBitset {
    ConditionBitset { carry: f.carry, ..flags_arith(dcr8(v), false, v % 16 == 0) }
}

/// The byte rotated left by one: bit 7 moves to bit 0.
pub open spec fn rotl8(a: u8) -> u8 {
    (a << 1u8) | (a >> 7u8)
}

/// The byte rotated right by one: bit 0 moves to bit 7.
pub open spec fn rotr8(a: u8) -> u8 {
    (a >> 1u8) | (a << 7u8)
}

/// RLC: rotate the accumulator left; CY becomes the old bit 7. No other flag
/// moves.
pub open spec fn rlc_spec(s: CpuView) -> CpuView {
    CpuView {
        a: rotl8(s.a),
        flags: ConditionBitset { carry: s.a >= 0x80, ..s.flags },
        ..s
    }
}

/// RRC: rotate the accumulator right; CY becomes the old bit 0.
pub open spec fn rrc_spec(s: CpuView) -> CpuView {
    CpuView {
        a: rotr8(s.a),
        flags: ConditionBitset { carry: (s.a & 1) == 1, ..s.flags },
        ..s
    }
}

/// RAL: rotate left through the carry: the old CY enters at bit 0 and the
/// old bit 7 becomes CY.
pub open spec fn ral_spec(s: CpuView) -> CpuView {
    CpuView {
        a: (s.a << 1u8) | flag_bit(s.flags.carry),
        flags: ConditionBitset { carry: s.a >= 0x80, ..s.flags },
        ..s
    }
}

/// RAR: rotate right through the carry.
pub open spec fn rar_spec(s: CpuView) -> CpuView {
    CpuView {
        a: (s.a >> 1u8) | (flag_bit(s.flags.carry) << 7u8),
        flags: ConditionBitset { carry: (s.a & 1) == 1, ..s.flags },
        ..s
    }
}

/// DAA: adjust the accumulator after a BCD addition. If the low nibble
/// exceeds 9 or AC is set, 6 is added, AC recording the carry out of bit 3
/// of that add and CY absorbing any carry out of bit 7. Then, on the
/// post-low-add state, if the high nibble exceeds 9 or CY is set, 0x60 is
/// added, CY again absorbing any carry out of bit 7. Z, S, P come from the
/// final accumulator.
pub open spec fn daa_spec(s: CpuView) -> CpuView {
    let adj_lo: bool = s.a % 16 > 9 || s.flags.aux_carry;
    let a1: u8 = if adj_lo {
        wrap8(s.a + 6)
    } else {
        s.a
    };
    let ac1: bool = adj_lo && s.a % 16 + 6 > 15;
    let cy_mid: bool = s.flags.carry || (adj_lo && s.a + 6 > 0xFF);
    let adj_hi: bool = a1 / 16 > 9 || cy_mid;
    let a2: u8 = if adj_hi {
        wrap8(a1 + 0x60)
    } else {
        a1
    };
    let cy2: bool = cy_mid || (adj_hi && a1 + 0x60 > 0xFF);
    CpuView {
        a: a2,
        flags: ConditionBitset {
            zero: a2 == 0,
            sign: a2 >= 0x80,
            parity: even_parity(a2),
            carry: cy2,
            aux_carry: ac1,
        },
        ..s
    }
}

/// DAD: 16-bit add of a register pair into HL; only CY is set, from the
/// carry out of bit 15.
pub open spec fn dad_spec(s: CpuView, rp: u16) -> CpuView {
    CpuView {
        h: high_byte(wrap16(s.hl() + rp)),
        l: low_byte(wrap16(s.hl() + rp)),
        flags: ConditionBitset { carry: s.hl() + rp > 0xFFFF, ..s.flags },
        ..s
    }
}

/// The register operand selected by a three-bit code: 0 B, 1 C, 2 D, 3 E,
/// 4 H, 5 L, 6 the memory byte at HL (the pseudo-register M), 7 A.
pub open spec fn reg_read(s: CpuView, code: u8) -> u8 {
    if code == 0 {
        s.b
    } else if code == 1 {
        s.c
    } else if code == 2 {
        s.d
    } else if code == 3 {
        s.e
    } else if code == 4 {
        s.h
    } else if code == 5 {
        s.l
    } else if code == 6 {
        s.mem[s.hl() as int]
    } else {
        s.a
    }
}

/// The state with the selected register set to `v`; code 6 stores to memory
/// at HL.
pub open spec fn reg_write(s: CpuView, code: u8, v: u8) -> CpuView {
    if code == 0 {
        CpuView { b: v, ..s }
    } else if code == 1 {
        CpuView { c: v, ..s }
    } else if code == 2 {
        CpuView { d: v, ..s }
    } else if code == 3 {
        CpuView { e: v, ..s }
    } else if code == 4 {
        CpuView { h: v, ..s }
    } else if code == 5 {
        CpuView { l: v, ..s }
    } else if code == 6 {
        CpuView { mem: s.mem.update(s.hl() as int, v), ..s }
    } else {
        CpuView { a: v, ..s }
    }
}

/// The register pair selected by a two-bit code: 0 BC, 1 DE, 2 HL, 3 SP.
pub open spec fn rp_read(s: CpuView, code: u8) -> u16 {
    if code == 0 {
        s.bc()
    } else if code == 1 {
        s.de()
    } else if code == 2 {
        s.hl()
    } else {
        s.sp
    }
}

/// The state with the selected register pair set to `v`.
pub open spec fn rp_write(s: CpuView, code: u8, v: u16) -> CpuView {
    if code == 0 {
        CpuView { b: high_byte(v), c: low_byte(v), ..s }
    } else if code == 1 {
        CpuView { d: high_byte(v), e: low_byte(v), ..s }
    } else if code == 2 {
        CpuView { h: high_byte(v), l: low_byte(v), ..s }
    } else {
        CpuView { sp: v, ..s }
    }
}

/// The branch condition selected by a three-bit code: NZ, Z, NC, C, PO, PE,
/// P, M, in that order.
pub open spec fn cond_spec(f: ConditionBitset, code: u8) -> bool {
    if code == 0 {
        !f.zero
    } else if code == 1 {
        f.zero
    } else if code == 2 {
        !f.carry
    } else if code == 3 {
        f.carry
    } else if code == 4 {
        !f.parity
    } else if code == 5 {
        f.parity
    } else if code == 6 {
        !f.sign
    } else {
        f.sign
    }
}

/// The ALU operation selected by a three-bit code: ADD, ADC, SUB, SBB, ANA,
/// XRA, ORA, CMP, in that order.
pub open spec fn alu_spec(s: CpuView, code: u8, v: u8) -> CpuView {
    if code == 0 {
        alu_add(s, v, 0)
    } else if code == 1 {
        alu_add(s, v, flag_bit(s.flags.carry))
    } else if code == 2 {
        alu_sub(s, v, 0)
    } else if code == 3 {
        alu_sub(s, v, flag_bit(s.flags.carry))
    } else if code == 4 {
        alu_and(s, v)
    } else if code == 5 {
        alu_xor(s, v)
    } else if code == 6 {
        alu_or(s, v)
    } else {
        alu_cmp(s, v)
    }
}

/// The actions of the opcodes below 0x40: NOP, LXI, the direct and indirect
/// loads and stores, INX/DCX, INR/DCR, MVI, DAD, the rotates, DAA, CMA, STC
/// and CMC. PC has already advanced past the instruction.
pub open spec fn action_misc(s: CpuView, op: u8, b2: u8, b3: u8) -> CpuView {
    let col: u8 = op % 8;
    let rp: u8 = op / 16;
    let q: bool = (op / 8) % 2 == 1;
    let r: u8 = op / 8;
    if col == 0 {
        s  // NOP, and the undefined bytes 0x08 .. 0x38
    } else if col == 1 {
        if !q {
            rp_write(s, rp, pair16(b3, b2))  // LXI
        } else {
            dad_spec(s, rp_read(s, rp))  // DAD
        }
    } else if col == 2 {
        if !q {
            if rp == 0 {
                CpuView { mem: s.mem.update(s.bc() as int, s.a), ..s }  // STAX B
            } else if rp == 1 {
                CpuView { mem: s.mem.update(s.de() as int, s.a), ..s }  // STAX D
            } else if rp == 2 {
                CpuView { mem: write16(s.mem, pair16(b3, b2), s.hl()), ..s }  // SHLD
            } else {
                CpuView { mem: s.mem.update(pair16(b3, b2) as int, s.a), ..s }  // STA
            }
        } else {
            if rp == 0 {
                CpuView { a: s.mem[s.bc() as int], ..s }  // LDAX B
            } else if rp == 1 {
                CpuView { a: s.mem[s.de() as int], ..s }  // LDAX D
            } else if rp == 2 {
                CpuView {
                    l: s.mem[pair16(b3, b2) as int],
                    h: s.mem[addr1(pair16(b3, b2)) as int],
                    ..s
                }  // LHLD
            } else {
                CpuView { a: s.mem[pair16(b3, b2) as int], ..s }  // LDA
            }
        }
    } else if col == 3 {
        if !q {
            rp_write(s, rp, wrap16(rp_read(s, rp) + 1))  // INX
        } else {
            rp_write(s, rp, wrap16(rp_read(s, rp) - 1))  // DCX
        }
    } else if col == 4 {
        CpuView {
            flags: inr_flags(s.flags, reg_read(s, r)),
            ..reg_write(s, r, inr8(reg_read(s, r)))
        }  // INR
    } else if col == 5 {
        CpuView {
            flags: dcr_flags(s.flags, reg_read(s, r)),
            ..reg_write(s, r, dcr8(reg_read(s, r)))
        }  // DCR
    } else if col == 6 {
        reg_write(s, r, b2)  // MVI
    } else {
        if op == 0x07 {
            rlc_spec(s)
        } else if op == 0x0F {
            rrc_spec(s)
        } else if op == 0x17 {
            ral_spec(s)
        } else if op == 0x1F {
            rar_spec(s)
        } else if op == 0x27 {
            daa_spec(s)
        } else if op == 0x2F {
            CpuView { a: !s.a, ..s }  // CMA
        } else if op == 0x37 {
            CpuView { flags: ConditionBitset { carry: true, ..s.flags }, ..s }  // STC
        } else {
            CpuView { flags: ConditionBitset { carry: !s.flags.carry, ..s.flags }, ..s }  // CMC
        }
    }
}

/// The actions of the opcodes from 0xC0 up: the branches, the stack group,
/// the immediate ALU group, IN/OUT, EI/DI, XTHL/XCHG/PCHL/SPHL and RST.
/// `inb` is the byte the host bus hands an IN instruction.
pub open spec fn action_ctrl(s: CpuView, op: u8, b2: u8, b3: u8, inb: u8) -> CpuView {
    let col: u8 = op % 8;
    let ccc: u8 = (op / 8) % 8;
    let rp: u8 = (op / 16) % 4;
    let addr: u16 = pair16(b3, b2);
    if col == 0 {
        if cond_spec(s.flags, ccc) {
            ret_spec(s)  // conditional RET taken
        } else {
            s
        }
    } else if col == 1 {
        if op == 0xC9 {
            ret_spec(s)
        } else if op == 0xD9 {
            s  // undefined: NOP
        } else if op == 0xE9 {
            CpuView { pc: s.hl(), ..s }  // PCHL
        } else if op == 0xF9 {
            CpuView { sp: s.hl(), ..s }  // SPHL
        } else if op == 0xF1 {
            CpuView {
                a: s.mem[addr1(s.sp) as int],
                flags: flags_from_psw(s.mem[s.sp as int]),
                ..pop_spec(s)
            }  // POP PSW
        } else {
            rp_write(pop_spec(s), rp, pop_value(s))  // POP B, D, H
        }
    } else if col == 2 {
        if cond_spec(s.flags, ccc) {
            CpuView { pc: addr, ..s }  // conditional JMP taken
        } else {
            s
        }
    } else if col == 3 {
        if op == 0xC3 {
            CpuView { pc: addr, ..s }  // JMP
        } else if op == 0xD3 {
            s  // OUT: the effect is on the host's side of the bus
        } else if op == 0xDB {
            CpuView { a: inb, ..s }  // IN
        } else if op == 0xE3 {
            CpuView {
                l: s.mem[s.sp as int],
                h: s.mem[addr1(s.sp) as int],
                mem: write16(s.mem, s.sp, s.hl()),
                ..s
            }  // XTHL
        } else if op == 0xEB {
            CpuView { d: s.h, e: s.l, h: s.d, l: s.e, ..s }  // XCHG
        } else if op == 0xF3 {
            CpuView { interrupts_enabled: false, ..s }  // DI
        } else if op == 0xFB {
            CpuView { interrupts_enabled: true, ..s }  // EI
        } else {
            s  // 0xCB, undefined: NOP
        }
    } else if col == 4 {
        if cond_spec(s.flags, ccc) {
            call_spec(s, addr)  // conditional CALL taken
        } else {
            s
        }
    } else if col == 5 {
        if op == 0xCD {
            call_spec(s, addr)
        } else if op == 0xDD || op == 0xED || op == 0xFD {
            s  // undefined: NOP
        } else if op == 0xF5 {
            push_spec(s, pair16(s.a, psw_flags_byte(s.flags)))  // PUSH PSW
        } else {
            push_spec(s, rp_read(s, rp))  // PUSH B, D, H
        }
    } else if col == 6 {
        alu_spec(s, ccc, b2)  // ADI, ACI, SUI, SBI, ANI, XRI, ORI, CPI
    } else {
        call_spec(s, (ccc * 8) as u16)  // RST
    }
}

/// What one instruction does once PC has advanced past it: `b2` and `b3`
/// are its operand bytes.
pub open spec fn action_spec(s: CpuView, op: u8, b2: u8, b3: u8, inb: u8) -> CpuView {
    if op < 0x40 {
        action_misc(s, op, b2, b3)
    } else if op < 0x80 {
        if op == 0x76 {
            CpuView { halted: true, ..s }  // HLT
        } else {
            reg_write(s, (op / 8) % 8, reg_read(s, op % 8))  // MOV
        }
    } else if op < 0xC0 {
        alu_spec(s, (op / 8) % 8, reg_read(s, op % 8))
    } else {
        action_ctrl(s, op, b2, b3, inb)
    }
}

/// The full effect of executing the instruction whose opcode byte is `op`,
/// with PC still addressing that byte: the operand bytes are read at PC + 1
/// and PC + 2, PC advances past the whole instruction, and then the action
/// runs, so a jump or call simply overwrites PC. `inb` is the byte the host
/// bus would hand an IN instruction.
pub open spec fn exec_spec(s: CpuView, op: u8, inb: u8) -> CpuView {
    let b2: u8 = s.mem[addr1(s.pc) as int];
    let b3: u8 = s.mem[addr1(addr1(s.pc)) as int];
    let s1: CpuView = CpuView { pc: wrap16(s.pc + instr_size(op)), ..s };
    action_spec(s1, op, b2, b3, inb)
}

/// One step: a halted processor does nothing; otherwise the opcode byte at
/// PC is fetched and executed.
pub open spec fn step_spec(s: CpuView, inb: u8) -> CpuView {
    if s.halted {
        s
    } else {
        exec_spec(s, s.mem[s.pc as int], inb)
    }
}

/// Delivery of interrupt `n`: while interrupts are enabled the processor
/// disables them, wakes from HLT, pushes PC and jumps to the vector at
/// `n * 8`; otherwise nothing happens.
pub open spec fn interrupt_spec(s: CpuView, n: u8) -> CpuView {
    if s.interrupts_enabled {
        CpuView {
            pc: (n * 8) as u16,
            halted: false,
            interrupts_enabled: false,
            ..push_spec(s, s.pc)
        }
    } else {
        s
    }
}

/// The length in bytes, opcode byte included, of the instruction that `op`
/// begins. The undefined opcode bytes count as one-byte NOPs.
pub open spec fn instr_size(op: u8) -> u8 {
    if op < 0x40 {
        if op == 0x01 || op == 0x11 || op == 0x21 || op == 0x31 || op == 0x22 || op == 0x2A || op
            == 0x32 || op == 0x3A {
            3
        } else if op % 8 == 6 {
            2
        } else {
            1
        }
    } else if op < 0xC0 {
        1
    } else if op % 8 == 2 || op % 8 == 4 || op == 0xC3 || op == 0xCD {
        3
    } else if op % 8 == 6 || op == 0xD3 || op == 0xDB {
        2
    } else {
        1
    }
}

} // verus!
