use vstd::prelude::*;
use crate::cpu::{Cpu8080, ConditionFlag, IoBus, combine_bytes, set_byte_pair, next_addr};
use crate::model::{
    CpuView, reg_read, reg_write, rp_read, rp_write, cond_spec, alu_spec, action_misc,
    action_ctrl, action_spec, exec_spec, step_spec, interrupt_spec, instr_size, wrap16, addr1,
};
use crate::opcode::instruction_size;

verus! {

impl Cpu8080 {
    /// The register (or memory at HL) operand selected by a three-bit code.
    fn reg_get(&self, code: u8) -> (v: u8)
        requires
            self.wf(),
            code < 8,
        ensures
            v == reg_read(self@, code),
    {
        if code == 0 {
            self.b
        } else if code == 1 {
            self.c
        } else if code == 2 {
            self.d
        } else if code == 3 {
            self.e
        } else if code == 4 {
            self.h
        } else if code == 5 {
            self.l
        } else if code == 6 {
            let hl: u16 = combine_bytes(self.h, self.l);
            self.read8(hl)
        } else {
            self.a
        }
    }

    /// Store `v` into the register (or memory at HL) a three-bit code picks.
    fn reg_set(&mut self, code: u8, v: u8)
        requires
            old(self).wf(),
            code < 8,
        ensures
            final(self).wf(),
            final(self)@ == reg_write(old(self)@, code, v),
    {
        if code == 0 {
            self.b = v;
        } else if code == 1 {
            self.c = v;
        } else if code == 2 {
            self.d = v;
        } else if code == 3 {
            self.e = v;
        } else if code == 4 {
            self.h = v;
        } else if code == 5 {
            self.l = v;
        } else if code == 6 {
            let hl: u16 = combine_bytes(self.h, self.l);
            self.write8(hl, v);
        } else {
            self.a = v;
        }
    }

    /// The register pair a two-bit code picks: BC, DE, HL or SP.
    fn rp_get(&self, code: u8) -> (v: u16)
        requires
            code < 4,
        ensures
            v == rp_read(self@, code),
    {
        if code == 0 {
            combine_bytes(self.b, self.c)
        } else if code == 1 {
            combine_bytes(self.d, self.e)
        } else if code == 2 {
            combine_bytes(self.h, self.l)
        } else {
            self.sp
        }
    }

    /// Store `v` into the register pair a two-bit code picks.
    fn rp_set(&mut self, code: u8, v: u16)
        requires
            code < 4,
        ensures
            final(self)@ == rp_write(old(self)@, code, v),
    {
        let mut high: u8 = 0;
        let mut low: u8 = 0;
        set_byte_pair(&mut high, &mut low, v);
        if code == 0 {
            self.b = high;
            self.c = low;
        } else if code == 1 {
            self.d = high;
            self.e = low;
        } else if code == 2 {
            self.h = high;
            self.l = low;
        } else {
            self.sp = v;
        }
    }

    /// Evaluate the branch condition a three-bit code picks.
    fn cond_eval(&self, code: u8) -> (r: bool)
        requires
            code < 8,
        ensures
            r == cond_spec(self@.flags, code),
    {
        if code == 0 {
            !self.condition_codes.zero
        } else if code == 1 {
            self.condition_codes.zero
        } else if code == 2 {
            !self.condition_codes.carry
        } else if code == 3 {
            self.condition_codes.carry
        } else if code == 4 {
            !self.condition_codes.parity
        } else if code == 5 {
            self.condition_codes.parity
        } else if code == 6 {
            !self.condition_codes.sign
        } else {
            self.condition_codes.sign
        }
    }

    /// Apply the ALU operation a three-bit code picks to operand `v`.
    fn op_alu(&mut self, code: u8, v: u8)
        requires
            old(self).wf(),
            code < 8,
        ensures
            final(self).wf(),
            final(self)@ == alu_spec(old(self)@, code, v),
    {
        if code == 0 {
            self.add(v);
        } else if code == 1 {
            self.adc(v);
        } else if code == 2 {
            self.sub(v);
        } else if code == 3 {
            self.sbb(v);
        } else if code == 4 {
            self.ana(v);
        } else if code == 5 {
            self.xra(v);
        } else if code == 6 {
            self.ora(v);
        } else {
            self.cmp(v);
        }
    }

    /// The opcodes below 0x40, PC already advanced past the instruction.
    /// LXI and DAD: the column-1 opcodes below 0x40.
    fn misc_lxi_dad(&mut self, op: u8, b2: u8, b3: u8)
        requires
            old(self).wf(),
            op < 0x40,
            op % 8 == 1,
        ensures
            final(self).wf(),
            final(self)@ == action_misc(old(self)@, op, b2, b3),
    {
        let rp: u8 = op / 16;
        if (op / 8) % 2 == 0 {
            self.rp_set(rp, combine_bytes(b3, b2));
        } else {
            let v: u16 = self.rp_get(rp);
            self.dad(v);
        }
        proof {
            assert(self@ =~= action_misc(old(self)@, op, b2, b3));
        }
    }

    /// STAX, LDAX, STA, LDA, SHLD, LHLD: the column-2 opcodes below 0x40.
    fn misc_load_store(&mut self, op: u8, b2: u8, b3: u8)
        requires
            old(self).wf(),
            op < 0x40,
            op % 8 == 2,
        ensures
            final(self).wf(),
            final(self)@ == action_misc(old(self)@, op, b2, b3),
    {
        let rp: u8 = op / 16;
        let addr16: u16 = combine_bytes(b3, b2);
        if (op / 8) % 2 == 0 {
            if rp == 0 {
                let dst: u16 = combine_bytes(self.b, self.c);
                let va: u8 = self.a;
                self.write8(dst, va);
            } else if rp == 1 {
                let dst: u16 = combine_bytes(self.d, self.e);
                let va: u8 = self.a;
                self.write8(dst, va);
            } else if rp == 2 {
                let hl: u16 = combine_bytes(self.h, self.l);
                self.write_u16(addr16, hl);
            } else {
                let va: u8 = self.a;
                self.write8(addr16, va);
            }
        } else {
            if rp == 0 {
                let src: u16 = combine_bytes(self.b, self.c);
                self.a = self.read8(src);
            } else if rp == 1 {
                let src: u16 = combine_bytes(self.d, self.e);
                self.a = self.read8(src);
            } else if rp == 2 {
                self.l = self.read8(addr16);
                self.h = self.read8(next_addr(addr16));
            } else {
                self.a = self.read8(addr16);
            }
        }
        proof {
            assert(self@ =~= action_misc(old(self)@, op, b2, b3));
        }
    }

    /// INX and DCX: the column-3 opcodes below 0x40.
    fn misc_inx_dcx(&mut self, op: u8, b2: u8, b3: u8)
        requires
            old(self).wf(),
            op < 0x40,
            op % 8 == 3,
        ensures
            final(self).wf(),
            final(self)@ == action_misc(old(self)@, op, b2, b3),
    {
        let rp: u8 = op / 16;
        let v: u16 = self.rp_get(rp);
        let nv: u16 = if (op / 8) % 2 == 0 {
            if v == 0xFFFF {
                0
            } else {
                v + 1
            }
        } else {
            if v == 0 {
                0xFFFF
            } else {
                v - 1
            }
        };
        self.rp_set(rp, nv);
        proof {
            assert(self@ =~= action_misc(old(self)@, op, b2, b3));
        }
    }

    /// INR, DCR and MVI: the column-4, -5 and -6 opcodes below 0x40.
    fn misc_inr_dcr_mvi(&mut self, op: u8, b2: u8, b3: u8)
        requires
            old(self).wf(),
            op < 0x40,
            op % 8 == 4 || op % 8 == 5 || op % 8 == 6,
        ensures
            final(self).wf(),
            final(self)@ == action_misc(old(self)@, op, b2, b3),
    {
        let r: u8 = op / 8;
        if op % 8 == 4 {
            let v: u8 = self.reg_get(r);
            let nv: u8 = self.inr(v);
            self.reg_set(r, nv);
        } else if op % 8 == 5 {
            let v: u8 = self.reg_get(r);
            let nv: u8 = self.dcr(v);
            self.reg_set(r, nv);
        } else {
            self.reg_set(r, b2);
        }
        proof {
            assert(self@ =~= action_misc(old(self)@, op, b2, b3));
        }
    }

    /// The rotates, DAA, CMA, STC and CMC: the column-7 opcodes below 0x40.
    fn misc_rot_adjust(&mut self, op: u8, b2: u8, b3: u8)
        requires
            old(self).wf(),
            op < 0x40,
            op % 8 == 7,
        ensures
            final(self).wf(),
            final(self)@ == action_misc(old(self)@, op, b2, b3),
    {
        if op == 0x07 {
            self.rlc();
        } else if op == 0x0F {
            self.rrc();
        } else if op == 0x17 {
            self.ral();
        } else if op == 0x1F {
            self.rar();
        } else if op == 0x27 {
            self.daa();
        } else if op == 0x2F {
            let a0: u8 = self.a;
            self.a = !a0;
        } else if op == 0x37 {
            self.condition_codes.carry = true;
        } else {
            let cy: bool = self.condition_codes.carry;
            self.condition_codes.carry = !cy;
        }
        proof {
            assert(self@ =~= action_misc(old(self)@, op, b2, b3));
        }
    }

    /// The opcodes below 0x40, PC already advanced past the instruction.
    fn op_misc(&mut self, op: u8, b2: u8, b3: u8)
        requires
            old(self).wf(),
            op < 0x40,
        ensures
            final(self).wf(),
            final(self)@ == action_misc(old(self)@, op, b2, b3),
    {
        let col: u8 = op % 8;
        if col == 0 {
            // NOP, and the undefined bytes
            proof {
                assert(self@ =~= action_misc(old(self)@, op, b2, b3));
            }
        } else if col == 1 {
            self.misc_lxi_dad(op, b2, b3);
        } else if col == 2 {
            self.misc_load_store(op, b2, b3);
        } else if col == 3 {
            self.misc_inx_dcx(op, b2, b3);
        } else if col == 4 || col == 5 || col == 6 {
            self.misc_inr_dcr_mvi(op, b2, b3);
        } else {
            self.misc_rot_adjust(op, b2, b3);
        }
    }

    /// The opcodes from 0xC0 up, PC already advanced past the instruction.
    fn op_ctrl<B: IoBus>(&mut self, op: u8, b2: u8, b3: u8, bus: &mut B)
        requires
            old(self).wf(),
            op >= 0xC0,
        ensures
            final(self).wf(),
            exists|iv: u8| final(self)@ == action_ctrl(old(self)@, op, b2, b3, iv),
            op != 0xDB ==> final(self)@ == action_ctrl(old(self)@, op, b2, b3, 0),
    {
        let col: u8 = op % 8;
        let ccc: u8 = (op / 8) % 8;
        let rp: u8 = (op / 16) % 4;
        let addr16: u16 = combine_bytes(b3, b2);
        if col == 0 {
            if self.cond_eval(ccc) {
                self.ret();
            }
        } else if col == 1 {
            if op == 0xC9 {
                self.ret();
            } else if op == 0xD9 {
                // undefined: NOP
            } else if op == 0xE9 {
                self.pc = combine_bytes(self.h, self.l);
            } else if op == 0xF9 {
                self.sp = combine_bytes(self.h, self.l);
            } else if op == 0xF1 {
                let parts = self.pop_stack_parts();
                self.a = parts.0;
                self.condition_codes.set_flags_byte(parts.1);
            } else {
                let v: u16 = self.pop_stack();
                self.rp_set(rp, v);
            }
        } else if col == 2 {
            if self.cond_eval(ccc) {
                self.pc = addr16;
            }
        } else if col == 3 {
            if op == 0xC3 {
                self.pc = addr16;
            } else if op == 0xD3 {
                let va: u8 = self.a;
                bus.port_out(b2, va);
            } else if op == 0xDB {
                let vin: u8 = bus.port_in(b2);
                self.a = vin;
            } else if op == 0xE3 {
                let sp: u16 = self.sp;
                let lo: u8 = self.read8(sp);
                let hi: u8 = self.read8(next_addr(sp));
                let hl: u16 = combine_bytes(self.h, self.l);
                self.write_u16(sp, hl);
                self.l = lo;
                self.h = hi;
            } else if op == 0xEB {
                let d0: u8 = self.d;
                let e0: u8 = self.e;
                self.d = self.h;
                self.e = self.l;
                self.h = d0;
                self.l = e0;
            } else if op == 0xF3 {
                self.interrupts_enabled = false;
            } else if op == 0xFB {
                self.interrupts_enabled = true;
            } else {
                // 0xCB, undefined: NOP
            }
        } else if col == 4 {
            if self.cond_eval(ccc) {
                self.call(addr16);
            }
        } else if col == 5 {
            if op == 0xCD {
                self.call(addr16);
            } else if op == 0xDD || op == 0xED || op == 0xFD {
                // undefined: NOP
            } else if op == 0xF5 {
                let fb: u8 = self.condition_codes.flags_byte();
                let a0: u8 = self.a;
                let v: u16 = combine_bytes(a0, fb);
                self.push_stack(v);
            } else {
                let v: u16 = self.rp_get(rp);
                self.push_stack(v);
            }
        } else if col == 6 {
            self.op_alu(ccc, b2);
        } else {
            let vec_addr: u16 = (ccc as u16) * 8;
            self.call(vec_addr);
        }
        proof {
            if op == 0xDB {
                assert(self@ =~= action_ctrl(old(self)@, op, b2, b3, self@.a));
                assert(self@ == action_ctrl(old(self)@, op, b2, b3, self@.a));
            } else {
                assert(self@ =~= action_ctrl(old(self)@, op, b2, b3, 0));
                assert(self@ == action_ctrl(old(self)@, op, b2, b3, 0));
            }
        }
    }

    /// Execute the instruction whose opcode byte is `opcode`, with PC still
    /// addressing that byte. PC advances past the whole instruction before
    /// the action runs, so a jump or call inside it simply overwrites PC.
    pub fn execute<B: IoBus>(&mut self, opcode: u8, bus: &mut B)
        requires
            old(self).wf(),
        ensures
            final(self).wf(),
            exists|iv: u8| final(self)@ == exec_spec(old(self)@, opcode, iv),
            opcode != 0xDB ==> final(self)@ == exec_spec(old(self)@, opcode, 0),
    {
        let b2: u8 = self.read8(next_addr(self.pc));
        let b3: u8 = self.read8(next_addr(next_addr(self.pc)));
        let size: u8 = instruction_size(opcode);
        let wide: u32 = self.pc as u32 + size as u32;
        self.pc = (wide % 0x10000) as u16;
        let ghost s1: CpuView = self@;
        proof {
            assert(s1 =~= (CpuView { pc: wrap16(old(self)@.pc + instr_size(opcode)), ..old(
                self,
            )@ }));
        }
        if opcode < 0x40 {
            self.op_misc(opcode, b2, b3);
            proof {
                assert(self@ == exec_spec(old(self)@, opcode, 0));
            }
        } else if opcode < 0x80 {
            if opcode == 0x76 {
                self.halted = true;
            } else {
                let src: u8 = opcode % 8;
                let dst: u8 = (opcode / 8) % 8;
                let v: u8 = self.reg_get(src);
                self.reg_set(dst, v);
            }
            proof {
                assert(self@ == exec_spec(old(self)@, opcode, 0));
            }
        } else if opcode < 0xC0 {
            let v: u8 = self.reg_get(opcode % 8);
            self.op_alu((opcode / 8) % 8, v);
            proof {
                assert(self@ == exec_spec(old(self)@, opcode, 0));
            }
        } else {
            self.op_ctrl(opcode, b2, b3, bus);
            proof {
                let iv = choose|iv: u8| self@ == action_ctrl(s1, opcode, b2, b3, iv);
                assert(self@ == exec_spec(old(self)@, opcode, iv));
            }
        }
    }

    /// Execute one instruction at PC; a halted processor does nothing.
    pub fn step<B: IoBus>(&mut self, bus: &mut B)
        requires
            old(self).wf(),
        ensures
            final(self).wf(),
            exists|iv: u8| final(self)@ == step_spec(old(self)@, iv),
            old(self)@.halted ==> final(self)@ == old(self)@,
            !old(self)@.halted && old(self)@.mem[old(self)@.pc as int] != 0xDB ==> final(self)@
                == step_spec(old(self)@, 0),
    {
        if self.halted {
            proof {
                assert(self@ == step_spec(old(self)@, 0));
            }
            return ;
        }
        let op: u8 = self.read8(self.pc);
        self.execute(op, bus);
        proof {
            let iv = choose|iv: u8| self@ == exec_spec(old(self)@, op, iv);
            assert(self@ == step_spec(old(self)@, iv));
        }
    }

    /// Deliver interrupt `n`. While interrupts are enabled the processor
    /// disables them, wakes from HLT, pushes PC and jumps to the vector at
    /// `n * 8`; with interrupts disabled the call is silently ignored.
    pub fn interrupt(&mut self, n: u8)
        requires
            old(self).wf(),
            n < 8,
        ensures
            final(self).wf(),
            final(self)@ == interrupt_spec(old(self)@, n),
    {
        if self.interrupts_enabled {
            self.interrupts_enabled = false;
            self.halted = false;
            let pc: u16 = self.pc;
            self.push_stack(pc);
            self.pc = (n as u16) * 8;
            proof {
                assert(self@ =~= interrupt_spec(old(self)@, n));
            }
        }
    }
}

} // verus!
