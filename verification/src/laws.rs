use vstd::prelude::*;
use crate::cpu::ConditionBitset;
use crate::model::{
    CpuView, exec_spec, action_misc, action_ctrl, instr_size, wrap16, cond_spec, push_spec,
    pop_spec, pop_value, addr1, pair16, high_byte, low_byte, inr8, dcr8, inr_flags, dcr_flags,
    alu_cmp, alu_add, daa_spec, rlc_spec, rrc_spec, rotl8, rotr8, wrap8, psw_flags_byte,
    flags_from_psw,
};

verus! {

// The general laws of the instruction set, stated over the same spec
// functions the executable contracts use.

/// The opcodes that overwrite PC outright at state `s`: JMP, CALL, RET,
/// RST and PCHL, and the conditional jumps, calls and returns whose
/// condition holds.
pub open spec fn pc_overwriting(s: CpuView, op: u8) -> bool {
    ||| op == 0xC3 || op == 0xCD || op == 0xC9 || op == 0xE9
    ||| (op >= 0xC0 && op % 8 == 7)
    ||| (op >= 0xC0 && (op % 8 == 0 || op % 8 == 2 || op % 8 == 4) && cond_spec(
        s.flags,
        (op / 8) % 8,
    ))
}

/// Every instruction ends with PC at its own start plus its size, except
/// the control-transfer instructions, which set PC by their own rule.
pub proof fn lemma_pc_advance(s: CpuView, op: u8, inb: u8)
    requires
        !pc_overwriting(s, op),
    ensures
        exec_spec(s, op, inb).pc == wrap16(s.pc + instr_size(op)),
{
    let b2: u8 = s.mem[addr1(s.pc) as int];
    let b3: u8 = s.mem[addr1(addr1(s.pc)) as int];
    let s1: CpuView = CpuView { pc: wrap16(s.pc + instr_size(op)), ..s };
    if op < 0x40 {
        assert(action_misc(s1, op, b2, b3).pc == s1.pc);
    } else if op >= 0xC0 {
        assert(action_ctrl(s1, op, b2, b3, inb).pc == s1.pc);
    }
}

/// PUSH then POP: the popped value is the pushed one and SP is back where
/// it began.
pub proof fn lemma_push_pop(s: CpuView, v: u16)
    requires
        s.mem_ok(),
    ensures
        pop_value(push_spec(s, v)) == v,
        pop_spec(push_spec(s, v)).sp == s.sp,
{
    let nsp: u16 = wrap16(s.sp - 2);
    assert(addr1(nsp) != nsp);
    assert(push_spec(s, v).mem[nsp as int] == low_byte(v));
    assert(push_spec(s, v).mem[addr1(nsp) as int] == high_byte(v));
    assert(pair16(high_byte(v), low_byte(v)) == v);
}

/// INR then DCR of the same register brings it back to its prior value,
/// and neither step moves CY.
pub proof fn lemma_inr_dcr(f: ConditionBitset, v: u8)
    ensures
        dcr8(inr8(v)) == v,
        inr_flags(f, v).carry == f.carry,
        dcr_flags(inr_flags(f, v), inr8(v)).carry == f.carry,
{
}

/// CMP leaves the accumulator alone; Z holds exactly when A equals the
/// operand, CY exactly when A is below it, unsigned.
pub proof fn lemma_cmp(s: CpuView, v: u8)
    ensures
        alu_cmp(s, v).a == s.a,
        alu_cmp(s, v).flags.zero == (s.a == v),
        alu_cmp(s, v).flags.carry == (s.a < v),
{
}

/// Eight RLCs bring the accumulator back to its start. CY ends at bit 0 of
/// the accumulator — the value it already has whenever the previous rotate
/// was an RLC — and once it starts there, the whole state returns.
pub proof fn lemma_rlc_eight(s: CpuView)
    ensures
        ({
            let t: CpuView = rlc_spec(
                rlc_spec(rlc_spec(rlc_spec(rlc_spec(rlc_spec(rlc_spec(rlc_spec(s))))))),
            );
            t.a == s.a && t.flags.carry == ((s.a & 1) == 1) && (s.flags.carry == ((s.a & 1) == 1)
                ==> t == s)
        }),
{
    let a0: u8 = s.a;
    assert(rotl8(rotl8(rotl8(rotl8(rotl8(rotl8(rotl8(rotl8(a0)))))))) == a0) by (bit_vector);
    assert((rotl8(rotl8(rotl8(rotl8(rotl8(rotl8(rotl8(a0))))))) >= 0x80) == ((a0 & 1)
        == 1)) by (bit_vector);
    let t: CpuView = rlc_spec(
        rlc_spec(rlc_spec(rlc_spec(rlc_spec(rlc_spec(rlc_spec(rlc_spec(s))))))),
    );
    if s.flags.carry == ((s.a & 1) == 1) {
        assert(t =~= s);
    }
}

/// Eight RRCs bring the accumulator back to its start. CY ends at bit 7 of
/// the accumulator, and once it starts there, the whole state returns.
pub proof fn lemma_rrc_eight(s: CpuView)
    ensures
        ({
            let t: CpuView = rrc_spec(
                rrc_spec(rrc_spec(rrc_spec(rrc_spec(rrc_spec(rrc_spec(rrc_spec(s))))))),
            );
            t.a == s.a && t.flags.carry == (s.a >= 0x80) && (s.flags.carry == (s.a >= 0x80) ==> t
                == s)
        }),
{
    let a0: u8 = s.a;
    assert(rotr8(rotr8(rotr8(rotr8(rotr8(rotr8(rotr8(rotr8(a0)))))))) == a0) by (bit_vector);
    assert(((rotr8(rotr8(rotr8(rotr8(rotr8(rotr8(rotr8(a0))))))) & 1) == 1) == (a0
        >= 0x80)) by (bit_vector);
    let t: CpuView = rrc_spec(
        rrc_spec(rrc_spec(rrc_spec(rrc_spec(rrc_spec(rrc_spec(rrc_spec(s))))))),
    );
    if s.flags.carry == (s.a >= 0x80) {
        assert(t =~= s);
    }
}

/// The two-digit decimal number a valid BCD byte stands for.
pub open spec fn bcd_val(x: u8) -> int {
    (x / 16) * 10 + x % 16
}

/// Both nibbles are decimal digits.
pub open spec fn valid_bcd(x: u8) -> bool {
    x / 16 <= 9 && x % 16 <= 9
}

/// The digit arithmetic at the heart of the DAA law, over the bytes and
/// carry bits alone.
proof fn lemma_daa_digits(
    x: u8,
    y: u8,
    a: u8,
    a1: u8,
    a2: u8,
    cy: bool,
    ac: bool,
    adj_lo: bool,
    cy_mid: bool,
    adj_hi: bool,
    cy2: bool,
)
    requires
        x / 16 <= 9,
        x % 16 <= 9,
        y / 16 <= 9,
        y % 16 <= 9,
        cy ==> a + 256 == x + y,
        !cy ==> a == x + y,
        ac == (x % 16 + y % 16 > 15),
        adj_lo == (a % 16 > 9 || ac),
        adj_lo ==> (a1 == a + 6 || a1 + 256 == a + 6),
        !adj_lo ==> a1 == a,
        cy_mid == (cy || (adj_lo && a + 6 > 255)),
        adj_hi == (a1 / 16 > 9 || cy_mid),
        adj_hi ==> (a2 == a1 + 0x60 || a2 + 256 == a1 + 0x60),
        !adj_hi ==> a2 == a1,
        cy2 == (cy_mid || (adj_hi && a1 + 0x60 > 255)),
    ensures
        a2 / 16 <= 9,
        a2 % 16 <= 9,
        (a2 / 16) * 10 + a2 % 16 == ((x / 16) * 10 + x % 16 + (y / 16) * 10 + y % 16) % 100,
        cy2 == ((x / 16) * 10 + x % 16 + (y / 16) * 10 + y % 16 >= 100),
{
    assert(a2 / 16 <= 9 && a2 % 16 <= 9 && (a2 / 16) * 10 + a2 % 16 == ((x / 16) * 10 + x % 16 + (y
        / 16) * 10 + y % 16) % 100 && cy2 == ((x / 16) * 10 + x % 16 + (y / 16) * 10 + y % 16
        >= 100)) by (bit_vector)
        requires
            x / 16 <= 9,
            x % 16 <= 9,
            y / 16 <= 9,
            y % 16 <= 9,
            cy ==> a + 256 == x + y,
            !cy ==> a == x + y,
            ac == (x % 16 + y % 16 > 15),
            adj_lo == (a % 16 > 9 || ac),
            adj_lo ==> (a1 == a + 6 || a1 + 256 == a + 6),
            !adj_lo ==> a1 == a,
            cy_mid == (cy || (adj_lo && a + 6 > 255)),
            adj_hi == (a1 / 16 > 9 || cy_mid),
            adj_hi ==> (a2 == a1 + 0x60 || a2 + 256 == a1 + 0x60),
            !adj_hi ==> a2 == a1,
            cy2 == (cy_mid || (adj_hi && a1 + 0x60 > 255)),
    ;
}

/// Case split for a byte-wrapped 9-bit value.
proof fn lemma_wrap8_split(v: int, w: u8)
    requires
        0 <= v < 512,
        w == wrap8(v),
    ensures
        v < 256 ==> w == v,
        v >= 256 ==> w + 256 == v,
{
}

/// The DAA law over an arbitrary state whose accumulator and CY/AC flags
/// came out of an 8-bit add of the BCD bytes `x` and `y`.
#[verifier::rlimit(100)]
proof fn lemma_daa_on_state(t0: CpuView, x: u8, y: u8)
    requires
        valid_bcd(x),
        valid_bcd(y),
        t0.a == wrap8(x + y),
        t0.flags.carry == (x + y > 255),
        t0.flags.aux_carry == (x % 16 + y % 16 > 15),
    ensures
        valid_bcd(daa_spec(t0).a),
        bcd_val(daa_spec(t0).a) == (bcd_val(x) + bcd_val(y)) % 100,
        daa_spec(t0).flags.carry == (bcd_val(x) + bcd_val(y) >= 100),
{
    let a: u8 = t0.a;
    let cy: bool = t0.flags.carry;
    let ac: bool = t0.flags.aux_carry;
    let t: CpuView = daa_spec(t0);
    let adj_lo: bool = a % 16 > 9 || ac;
    let a1: u8 = if adj_lo {
        wrap8(a + 6)
    } else {
        a
    };
    let cy_mid: bool = cy || (adj_lo && a + 6 > 0xFF);
    let adj_hi: bool = a1 / 16 > 9 || cy_mid;
    let a2: u8 = if adj_hi {
        wrap8(a1 + 0x60)
    } else {
        a1
    };
    let cy2: bool = cy_mid || (adj_hi && a1 + 0x60 > 0xFF);
    assert(t.a == a2 && t.flags.carry == cy2);
    lemma_wrap8_split(x + y, a);
    if adj_lo {
        lemma_wrap8_split(a + 6, a1);
    }
    if adj_hi {
        lemma_wrap8_split(a1 + 0x60, a2);
    }
    lemma_daa_digits(x, y, a, a1, a2, cy, ac, adj_lo, cy_mid, adj_hi, cy2);
    assert(bcd_val(t.a) == (a2 / 16) * 10 + a2 % 16);
    assert(bcd_val(x) + bcd_val(y) == (x / 16) * 10 + x % 16 + (y / 16) * 10 + y % 16);
}

/// ADD of two valid BCD bytes followed by DAA yields their BCD sum, with
/// CY showing the decimal overflow past 99.
pub proof fn lemma_daa_bcd(s: CpuView, y: u8)
    requires
        valid_bcd(s.a),
        valid_bcd(y),
    ensures
        ({
            let t: CpuView = daa_spec(alu_add(s, y, 0));
            valid_bcd(t.a) && bcd_val(t.a) == (bcd_val(s.a) + bcd_val(y)) % 100 && t.flags.carry
                == (bcd_val(s.a) + bcd_val(y) >= 100)
        }),
{
    let t0: CpuView = alu_add(s, y, 0);
    assert(t0.a == wrap8(s.a + y));
    assert(t0.flags.carry == (s.a + y > 255));
    assert(t0.flags.aux_carry == (s.a % 16 + y % 16 > 15));
    lemma_daa_on_state(t0, s.a, y);
}

/// The PSW flag byte round trips: POP PSW after PUSH PSW restores every
/// flag. The packed byte carries the fixed bits the 8080 defines: bit 1
/// set, bits 3 and 5 clear.
pub proof fn lemma_psw_round_trip(f: ConditionBitset)
    ensures
        flags_from_psw(psw_flags_byte(f)) == f,
        psw_flags_byte(f) / 2 % 2 == 1,
        psw_flags_byte(f) / 8 % 2 == 0,
        psw_flags_byte(f) / 32 % 2 == 0,
{
}

} // verus!
