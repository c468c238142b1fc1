use vstd::prelude::*;
use crate::model::instr_size;

verus! {

/// One entry of the dispatch table: an opcode byte, the total length in
/// bytes of the instruction it begins (the opcode byte included), and its
/// assembly mnemonic.
#[derive(Copy, Clone, Debug)]
pub struct Instruction {
    pub opcode: u8,
    pub size: u8,
    pub disassembly: &'static str,
}

/// The 256-entry table giving each opcode byte its descriptor. It is pure
/// data, immutable after construction, and may be shared read-only across
/// processor instances. The undefined opcode bytes behave as NOP and have
/// ordinary one-byte entries.
pub struct OpcodeTable {
    pub entries: Vec<Instruction>,
}

impl OpcodeTable {
    pub open spec fn wf(&self) -> bool {
        &&& self.entries@.len() == 256
        &&& forall|i: int|
            0 <= i < 256 ==> (#[trigger] self.entries@[i]).opcode == i as u8
                && self.entries@[i].size == instr_size(i as u8)
    }

    pub fn new() -> (t: OpcodeTable)
        ensures
            t.wf(),
    {
        let mut entries: Vec<Instruction> = Vec::new();
        let mut i: usize = 0;
        while i < 256
            invariant
                entries@.len() == i,
                i <= 256,
                forall|j: int|
                    0 <= j < i ==> (#[trigger] entries@[j]).opcode == j as u8
                        && entries@[j].size == instr_size(j as u8),
            decreases 256 - i,
        {
            let size: u8 = instruction_size(i as u8);
            entries.push(Instruction { opcode: i as u8, size, disassembly: disassembly(i as u8) });
            i += 1;
        }
        OpcodeTable { entries }
    }

    /// The descriptor for `opcode`; every byte value has one.
    pub fn get(&self, opcode: u8) -> (r: Option<Instruction>)
        requires
            self.wf(),
        ensures
            r matches Some(instruction) && instruction.opcode == opcode && instruction.size
                == instr_size(opcode),
    {
        Some(self.entries[opcode as usize])
    }
}

/// The length in bytes of the instruction that `op` begins.
pub fn instruction_size(op: u8) -> (s: u8)
    ensures
        s == instr_size(op),
{
    if op < 0x40 {
        if op == 0x01 || op == 0x11 || op == 0x21 || op == 0x31 || op == 0x22 || op == 0x2A || op
            == 0x32 || op == 0x3A {
            3
        } else if op % 8 == 6 {
            2
        } else {
            1
        }
    } else if op < 0xC0 {
        1
    } else if op % 8 == 2 || op % 8 == 4 || op == 0xC3 || op == 0xCD {
        3
    } else if op % 8 == 6 || op == 0xD3 || op == 0xDB {
        2
    } else {
        1
    }
}

/// The assembly mnemonic of the instruction that `op` begins. The
/// undefined opcode bytes read as NOP, which is how they behave.
pub fn disassembly(op: u8) -> &'static str {
    match op {
        0x00 => "NOP",
        0x01 => "LXI B,D16",
        0x02 => "STAX B",
        0x03 => "INX B",
        0x04 => "INR B",
        0x05 => "DCR B",
        0x06 => "MVI B,D8",
        0x07 => "RLC",
        0x08 => "NOP",
        0x09 => "DAD B",
        0x0A => "LDAX B",
        0x0B => "DCX B",
        0x0C => "INR C",
        0x0D => "DCR C",
        0x0E => "MVI C,D8",
        0x0F => "RRC",
        0x10 => "NOP",
        0x11 => "LXI D,D16",
        0x12 => "STAX D",
        0x13 => "INX D",
        0x14 => "INR D",
        0x15 => "DCR D",
        0x16 => "MVI D,D8",
        0x17 => "RAL",
        0x18 => "NOP",
        0x19 => "DAD D",
        0x1A => "LDAX D",
        0x1B => "DCX D",
        0x1C => "INR E",
        0x1D => "DCR E",
        0x1E => "MVI E,D8",
        0x1F => "RAR",
        0x20 => "NOP",
        0x21 => "LXI H,D16",
        0x22 => "SHLD A16",
        0x23 => "INX H",
        0x24 => "INR H",
        0x25 => "DCR H",
        0x26 => "MVI H,D8",
        0x27 => "DAA",
        0x28 => "NOP",
        0x29 => "DAD H",
        0x2A => "LHLD A16",
        0x2B => "DCX H",
        0x2C => "INR L",
        0x2D => "DCR L",
        0x2E => "MVI L,D8",
        0x2F => "CMA",
        0x30 => "NOP",
        0x31 => "LXI SP,D16",
        0x32 => "STA A16",
        0x33 => "INX SP",
        0x34 => "INR M",
        0x35 => "DCR M",
        0x36 => "MVI M,D8",
        0x37 => "STC",
        0x38 => "NOP",
        0x39 => "DAD SP",
        0x3A => "LDA A16",
        0x3B => "DCX SP",
        0x3C => "INR A",
        0x3D => "DCR A",
        0x3E => "MVI A,D8",
        0x3F => "CMC",
        0x40 => "MOV B,B",
        0x41 => "MOV B,C",
        0x42 => "MOV B,D",
        0x43 => "MOV B,E",
        0x44 => "MOV B,H",
        0x45 => "MOV B,L",
        0x46 => "MOV B,M",
        0x47 => "MOV B,A",
        0x48 => "MOV C,B",
        0x49 => "MOV C,C",
        0x4A => "MOV C,D",
        0x4B => "MOV C,E",
        0x4C => "MOV C,H",
        0x4D => "MOV C,L",
        0x4E => "MOV C,M",
        0x4F => "MOV C,A",
        0x50 => "MOV D,B",
        0x51 => "MOV D,C",
        0x52 => "MOV D,D",
        0x53 => "MOV D,E",
        0x54 => "MOV D,H",
        0x55 => "MOV D,L",
        0x56 => "MOV D,M",
        0x57 => "MOV D,A",
        0x58 => "MOV E,B",
        0x59 => "MOV E,C",
        0x5A => "MOV E,D",
        0x5B => "MOV E,E",
        0x5C => "MOV E,H",
        0x5D => "MOV E,L",
        0x5E => "MOV E,M",
        0x5F => "MOV E,A",
        0x60 => "MOV H,B",
        0x61 => "MOV H,C",
        0x62 => "MOV H,D",
        0x63 => "MOV H,E",
        0x64 => "MOV H,H",
        0x65 => "MOV H,L",
        0x66 => "MOV H,M",
        0x67 => "MOV H,A",
        0x68 => "MOV L,B",
        0x69 => "MOV L,C",
        0x6A => "MOV L,D",
        0x6B => "MOV L,E",
        0x6C => "MOV L,H",
        0x6D => "MOV L,L",
        0x6E => "MOV L,M",
        0x6F => "MOV L,A",
        0x70 => "MOV M,B",
        0x71 => "MOV M,C",
        0x72 => "MOV M,D",
        0x73 => "MOV M,E",
        0x74 => "MOV M,H",
        0x75 => "MOV M,L",
        0x76 => "HLT",
        0x77 => "MOV M,A",
        0x78 => "MOV A,B",
        0x79 => "MOV A,C",
        0x7A => "MOV A,D",
        0x7B => "MOV A,E",
        0x7C => "MOV A,H",
        0x7D => "MOV A,L",
        0x7E => "MOV A,M",
        0x7F => "MOV A,A",
        0x80 => "ADD B",
        0x81 => "ADD C",
        0x82 => "ADD D",
        0x83 => "ADD E",
        0x84 => "ADD H",
        0x85 => "ADD L",
        0x86 => "ADD M",
        0x87 => "ADD A",
        0x88 => "ADC B",
        0x89 => "ADC C",
        0x8A => "ADC D",
        0x8B => "ADC E",
        0x8C => "ADC H",
        0x8D => "ADC L",
        0x8E => "ADC M",
        0x8F => "ADC A",
        0x90 => "SUB B",
        0x91 => "SUB C",
        0x92 => "SUB D",
        0x93 => "SUB E",
        0x94 => "SUB H",
        0x95 => "SUB L",
        0x96 => "SUB M",
        0x97 => "SUB A",
        0x98 => "SBB B",
        0x99 => "SBB C",
        0x9A => "SBB D",
        0x9B => "SBB E",
        0x9C => "SBB H",
        0x9D => "SBB L",
        0x9E => "SBB M",
        0x9F => "SBB A",
        0xA0 => "ANA B",
        0xA1 => "ANA C",
        0xA2 => "ANA D",
        0xA3 => "ANA E",
        0xA4 => "ANA H",
        0xA5 => "ANA L",
        0xA6 => "ANA M",
        0xA7 => "ANA A",
        0xA8 => "XRA B",
        0xA9 => "XRA C",
        0xAA => "XRA D",
        0xAB => "XRA E",
        0xAC => "XRA H",
        0xAD => "XRA L",
        0xAE => "XRA M",
        0xAF => "XRA A",
        0xB0 => "ORA B",
        0xB1 => "ORA C",
        0xB2 => "ORA D",
        0xB3 => "ORA E",
        0xB4 => "ORA H",
        0xB5 => "ORA L",
        0xB6 => "ORA M",
        0xB7 => "ORA A",
        0xB8 => "CMP B",
        0xB9 => "CMP C",
        0xBA => "CMP D",
        0xBB => "CMP E",
        0xBC => "CMP H",
        0xBD => "CMP L",
        0xBE => "CMP M",
        0xBF => "CMP A",
        0xC0 => "RNZ",
        0xC1 => "POP B",
        0xC2 => "JNZ A16",
        0xC3 => "JMP A16",
        0xC4 => "CNZ A16",
        0xC5 => "PUSH B",
        0xC6 => "ADI D8",
        0xC7 => "RST 0",
        0xC8 => "RZ",
        0xC9 => "RET",
        0xCA => "JZ A16",
        0xCB => "NOP",
        0xCC => "CZ A16",
        0xCD => "CALL A16",
        0xCE => "ACI D8",
        0xCF => "RST 1",
        0xD0 => "RNC",
        0xD1 => "POP D",
        0xD2 => "JNC A16",
        0xD3 => "OUT D8",
        0xD4 => "CNC A16",
        0xD5 => "PUSH D",
        0xD6 => "SUI D8",
        0xD7 => "RST 2",
        0xD8 => "RC",
        0xD9 => "NOP",
        0xDA => "JC A16",
        0xDB => "IN D8",
        0xDC => "CC A16",
        0xDD => "NOP",
        0xDE => "SBI D8",
        0xDF => "RST 3",
        0xE0 => "RPO",
        0xE1 => "POP H",
        0xE2 => "JPO A16",
        0xE3 => "XTHL",
        0xE4 => "CPO A16",
        0xE5 => "PUSH H",
        0xE6 => "ANI D8",
        0xE7 => "RST 4",
        0xE8 => "RPE",
        0xE9 => "PCHL",
        0xEA => "JPE A16",
        0xEB => "XCHG",
        0xEC => "CPE A16",
        0xED => "NOP",
        0xEE => "XRI D8",
        0xEF => "RST 5",
        0xF0 => "RP",
        0xF1 => "POP PSW",
        0xF2 => "JP A16",
        0xF3 => "DI",
        0xF4 => "CP A16",
        0xF5 => "PUSH PSW",
        0xF6 => "ORI D8",
        0xF7 => "RST 6",
        0xF8 => "RM",
        0xF9 => "SPHL",
        0xFA => "JM A16",
        0xFB => "EI",
        0xFC => "CM A16",
        0xFD => "NOP",
        0xFE => "CPI D8",
        0xFF => "RST 7",
    }
}

} // verus!
