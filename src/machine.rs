use vstd::prelude::*;
use crate::decode::{decode, opcode_of, Opcode};
use crate::semantics::{
    field_offset, lemma_fields, load_spec, packed_chars, prompt, putsp_spec, puts_spec, settles,
    Load, Status, Step, INTERRUPT_KEY,
};

verus! {

/// Address of the keyboard status register.
pub const KBSR: u16 = 0xFE00;

/// Address of the keyboard data register; reading it takes a key.
pub const KBDR: u16 = 0xFE02;

/// The state of the machine as values: memory, registers, program counter
/// and processor status register.
pub struct Machine {
    pub mem: Seq<u16>,
    pub reg: Seq<u16>,
    pub pc: u16,
    pub psr: u16,
}

/// The condition-code bits for a result: N (bit 2) when negative, Z (bit 1)
/// when zero, P (bit 0) when positive.
pub open spec fn cc_of(value: u16) -> u16 {
    if value == 0 {
        0b010
    } else if value & 0x8000 != 0 {
        0b100
    } else {
        0b001
    }
}

/// The status register after its condition codes are set from `value`.
pub open spec fn with_cc(psr: u16, value: u16) -> u16 {
    (psr & 0xFFF8) | cc_of(value)
}

/// The machine with register `r` set to `value` and the condition codes set
/// from it.
pub open spec fn set_result(m: Machine, r: int, value: u16) -> Machine {
    Machine { reg: m.reg.update(r, value), psr: with_cc(m.psr, value), ..m }
}

/// The machine with `value` stored at `addr`.
pub open spec fn with_word(m: Machine, addr: int, value: u16) -> Machine {
    Machine { mem: m.mem.update(addr, value), ..m }
}

/// The machine with register `r` set to `value`.
pub open spec fn with_reg(m: Machine, r: int, value: u16) -> Machine {
    Machine { reg: m.reg.update(r, value), ..m }
}

/// A machine of full memory and eight registers.
pub open spec fn well_formed(m: Machine) -> bool {
    m.mem.len() == 0x10000 && m.reg.len() == 8
}

/// The emulated computer.
pub struct Emulator {
    memory: [u16; 0x10000],
    registers: [u16; 8],
    pc: u16,
    psr: u16,
}

impl View for Emulator {
    type V = Machine;

    closed spec fn view(&self) -> Machine {
        Machine { mem: self.memory@, reg: self.registers@, pc: self.pc, psr: self.psr }
    }
}

impl Emulator {
    /// A machine holding `memory`, with zeroed registers and status, about
    /// to run the instruction at `start_addr`.
    pub fn new(start_addr: u16, memory: [u16; 0x10000]) -> (r: Emulator)
        ensures
            r@.mem == memory@,
            r@.reg == seq![0u16; 8],
            r@.pc == start_addr,
            r@.psr == 0,
    {
        let r = Emulator { memory, registers: [0u16; 8], pc: start_addr, psr: 0 };
        assert(r.registers@ =~= seq![0u16; 8]);
        r
    }

    /// Every emulator has a full memory and eight registers.
    pub proof fn lemma_well_formed(&self)
        ensures
            well_formed(self@),
    {
    }

    /// The program counter.
    pub fn pc(&self) -> (r: u16)
        ensures
            r == self@.pc,
    {
        self.pc
    }

    /// The processor status register.
    pub fn psr(&self) -> (r: u16)
        ensures
            r == self@.psr,
    {
        self.psr
    }

    /// The eight general registers.
    pub fn registers(&self) -> (r: [u16; 8])
        ensures
            r@ == self@.reg,
    {
        self.registers
    }

    /// The word stored at `addr`, read without touching any device.
    pub fn peek(&self, addr: u16) -> (r: u16)
        ensures
            r == self@.mem[addr as int],
    {
        self.memory[addr as usize]
    }

    /// Stores `value` at `addr`; an address past the memory changes nothing.
    pub fn set_mem(&mut self, addr: usize, value: u16)
        ensures
            final(self)@ == (if addr < 0x10000 {
                with_word(old(self)@, addr as int, value)
            } else {
                old(self)@
            }),
    {
        if addr < 0x10000 {
            self.memory[addr] = value;
        }
    }

    /// Register `reg`, or zero past the eighth.
    pub fn read_reg(&self, reg: u16) -> (r: u16)
        ensures
            r == (if reg < 8 { self@.reg[reg as int] } else { 0 }),
    {
        if reg < 8 {
            self.registers[reg as usize]
        } else {
            0
        }
    }

    /// Sets register `reg` to `value`; an index past the eighth changes nothing.
    pub fn set_reg(&mut self, reg: u16, value: u16)
        ensures
            final(self)@ == (if reg < 8 {
                with_reg(old(self)@, reg as int, value)
            } else {
                old(self)@
            }),
    {
        if reg < 8 {
            self.registers[reg as usize] = value;
        }
    }

    /// Sets the condition codes from `value`, keeping the other status bits.
    pub fn setcc(&mut self, value: u16)
        ensures
            final(self)@ == (Machine { psr: with_cc(old(self)@.psr, value), ..old(self)@ }),
    {
        let n = (value >> 15) == 1 && value != 0;
        let z = value == 0;
        let p = (value >> 15) == 0 && value != 0;
        let mut psr = self.psr & 0xFFF8;
        if n {
            psr = psr | 0b100;
        }
        if z {
            psr = psr | 0b010;
        }
        if p {
            psr = psr | 0b001;
        }
        assert(psr == with_cc(self.psr, value)) by {
            let old_psr = self.psr;
            assert((value >> 15 == 1) == (value & 0x8000 != 0)) by (bit_vector);
            assert((value >> 15 == 0) == (value & 0x8000 == 0)) by (bit_vector);
            assert(old_psr & 0xFFF8 | 0 == old_psr & 0xFFF8) by (bit_vector);
        };
        self.psr = psr;
    }

    /// Marks the keyboard as ready, as done once before a run.
    pub fn mark_keyboard_ready(&mut self)
        ensures
            final(self)@ == with_word(old(self)@, KBSR as int, 0x8000),
    {
        self.memory[KBSR as usize] = 0x8000;
    }

    /// Reads the word at `addr`; at the keyboard data register this takes
    /// `key`, the keyboard's next byte, if it is known.
    pub fn read_mem(&self, addr: u16, key: Option<u8>) -> (r: Load)
        ensures
            r == load_spec(self@.mem, addr, key),
    {
        if addr == KBDR {
            match key {
                None => Load::NeedsKey,
                Some(k) => if k == INTERRUPT_KEY {
                    Load::Interrupted
                } else {
                    Load::Word(k as u16)
                },
            }
        } else {
            Load::Word(self.memory[addr as usize])
        }
    }

    /// Executes ADD, AND, NOT and LEA.
    fn exec_operate(&mut self, instr: u16, op: Opcode, key: Option<u8>) -> (r: Step)
        requires
            op == opcode_of(instr),
            instr == old(self)@.mem[old(self)@.pc as int],
            op == Opcode::Add || op == Opcode::And || op == Opcode::Not || op == Opcode::Lea,
        ensures
            settles(old(self)@, key, final(self)@, &r),
    {
        proof {
            lemma_fields(instr);
        }
        let pc = self.pc.wrapping_add(1);
        let a = (instr >> 9) & 7;
        let b = (instr >> 6) & 7;
        let src = self.registers[b as usize];
        let value = match op {
            Opcode::Not => !src,
            Opcode::Lea => pc.wrapping_add(field_offset(instr, 9)),
            _ => {
                let operand = if (instr >> 5) & 1 == 1 {
                    field_offset(instr, 5)
                } else {
                    self.registers[(instr & 7) as usize]
                };
                if op == Opcode::Add {
                    src.wrapping_add(operand)
                } else {
                    src & operand
                }
            },
        };
        self.pc = pc;
        self.set_reg(a, value);
        self.setcc(value);
        Step { status: Status::Running, output: Vec::new() }
    }

    /// Executes BR, JMP and JSR.
    fn exec_control(&mut self, instr: u16, op: Opcode, key: Option<u8>) -> (r: Step)
        requires
            op == opcode_of(instr),
            instr == old(self)@.mem[old(self)@.pc as int],
            op == Opcode::Br || op == Opcode::Jmp || op == Opcode::Jsr,
        ensures
            settles(old(self)@, key, final(self)@, &r),
    {
        proof {
            lemma_fields(instr);
        }
        let pc = self.pc.wrapping_add(1);
        let b = (instr >> 6) & 7;
        match op {
            Opcode::Br => {
                let n = (instr >> 11) & 1 == 1;
                let z = (instr >> 10) & 1 == 1;
                let p = (instr >> 9) & 1 == 1;
                let nn = (self.psr >> 2) & 1 == 1;
                let zz = (self.psr >> 1) & 1 == 1;
                let psr = self.psr;
                let pp = psr & 1 == 1;
                assert((psr >> 0u16) == psr) by (bit_vector);
                self.pc = if (n && nn) || (z && zz) || (p && pp) {
                    pc.wrapping_add(field_offset(instr, 9))
                } else {
                    pc
                };
            },
            Opcode::Jmp => {
                self.pc = self.registers[b as usize];
            },
            _ => {
                self.registers[7] = pc;
                self.pc = if (instr >> 11) & 1 == 1 {
                    pc.wrapping_add(field_offset(instr, 11))
                } else {
                    self.registers[b as usize]
                };
            },
        }
        Step { status: Status::Running, output: Vec::new() }
    }

    /// Executes LD, LDI and LDR.
    fn exec_load(&mut self, instr: u16, op: Opcode, key: Option<u8>) -> (r: Step)
        requires
            op == opcode_of(instr),
            instr == old(self)@.mem[old(self)@.pc as int],
            op == Opcode::Ld || op == Opcode::Ldi || op == Opcode::Ldr,
        ensures
            settles(old(self)@, key, final(self)@, &r),
    {
        proof {
            lemma_fields(instr);
        }
        let pc = self.pc.wrapping_add(1);
        let a = (instr >> 9) & 7;
        let b = (instr >> 6) & 7;
        let loaded = if op == Opcode::Ldr {
            self.read_mem(self.registers[b as usize].wrapping_add(field_offset(instr, 6)), key)
        } else {
            let first = self.read_mem(pc.wrapping_add(field_offset(instr, 9)), key);
            match first {
                Load::Word(p) => if op == Opcode::Ldi {
                    self.read_mem(p, key)
                } else {
                    first
                },
                _ => first,
            }
        };
        match loaded {
            Load::Word(value) => {
                self.pc = pc;
                self.set_reg(a, value);
                self.setcc(value);
                Step { status: Status::Running, output: Vec::new() }
            },
            Load::NeedsKey => Step { status: Status::NeedsKey, output: Vec::new() },
            Load::Interrupted => Step { status: Status::Interrupted, output: Vec::new() },
        }
    }

    /// Executes ST, STI and STR.
    fn exec_store(&mut self, instr: u16, op: Opcode, key: Option<u8>) -> (r: Step)
        requires
            op == opcode_of(instr),
            instr == old(self)@.mem[old(self)@.pc as int],
            op == Opcode::St || op == Opcode::Sti || op == Opcode::Str,
        ensures
            settles(old(self)@, key, final(self)@, &r),
    {
        proof {
            lemma_fields(instr);
        }
        let pc = self.pc.wrapping_add(1);
        let a = (instr >> 9) & 7;
        let b = (instr >> 6) & 7;
        let target = match op {
            Opcode::St => Load::Word(pc.wrapping_add(field_offset(instr, 9))),
            Opcode::Str => Load::Word(self.registers[b as usize].wrapping_add(field_offset(instr, 6))),
            _ => self.read_mem(pc.wrapping_add(field_offset(instr, 9)), key),
        };
        match target {
            Load::Word(addr) => {
                self.pc = pc;
                let value = self.registers[a as usize];
                self.memory[addr as usize] = value;
                Step { status: Status::Running, output: Vec::new() }
            },
            Load::NeedsKey => Step { status: Status::NeedsKey, output: Vec::new() },
            Load::Interrupted => Step { status: Status::Interrupted, output: Vec::new() },
        }
    }

    /// Writes the string of one character per word at `start`, up to a
    /// zero word or the end of memory.
    fn puts(&self, start: u16, key: Option<u8>) -> (r: (Vec<u8>, Status))
        ensures
            r.0@ == puts_spec(self@.mem, start as int, key).0,
            r.1 == puts_spec(self@.mem, start as int, key).1,
    {
        let ghost whole = puts_spec(self@.mem, start as int, key);
        let mut out: Vec<u8> = Vec::new();
        let mut addr: usize = start as usize;
        loop
            invariant
                whole == puts_spec(self@.mem, start as int, key),
                start <= addr <= 0x10000,
                out@ + puts_spec(self@.mem, addr as int, key).0 == whole.0,
                puts_spec(self@.mem, addr as int, key).1 == whole.1,
            decreases 0x10000 - addr,
        {
            if addr >= 0x10000 {
                assert(out@ + seq![] =~= out@);
                return (out, Status::Running);
            }
            match self.read_mem(addr as u16, key) {
                Load::Word(c) => {
                    if c == 0 {
                        assert(out@ + seq![] =~= out@);
                        return (out, Status::Running);
                    }
                    let ghost before = out@;
                    assert(c & 0xFF <= 0xFF) by (bit_vector);
                    let ch = (c & 0xFF) as u8;
                    out.push(ch);
                    proof {
                        let rest = puts_spec(self@.mem, addr + 1, key).0;
                        assert(before + (seq![ch] + rest) =~= out@ + rest);
                    }
                    addr = addr + 1;
                },
                Load::NeedsKey => {
                    assert(out@ + seq![] =~= out@);
                    return (out, Status::NeedsKey);
                },
                Load::Interrupted => {
                    assert(out@ + seq![] =~= out@);
                    return (out, Status::Interrupted);
                },
            }
        }
    }

    /// Writes the string of two characters per word at `start`, low byte
    /// first, up to a zero word or the end of memory.
    fn putsp(&self, start: u16, key: Option<u8>) -> (r: (Vec<u8>, Status))
        ensures
            r.0@ == putsp_spec(self@.mem, start as int, key).0,
            r.1 == putsp_spec(self@.mem, start as int, key).1,
    {
        let ghost whole = putsp_spec(self@.mem, start as int, key);
        let mut out: Vec<u8> = Vec::new();
        let mut addr: usize = start as usize;
        loop
            invariant
                whole == putsp_spec(self@.mem, start as int, key),
                start <= addr <= 0x10000,
                out@ + putsp_spec(self@.mem, addr as int, key).0 == whole.0,
                putsp_spec(self@.mem, addr as int, key).1 == whole.1,
            decreases 0x10000 - addr,
        {
            if addr >= 0x10000 {
                assert(out@ + seq![] =~= out@);
                return (out, Status::Running);
            }
            assert(addr < 0x10000);
            match self.read_mem(addr as u16, key) {
                Load::Word(c) => {
                    let c1 = c & 0xFF;
                    let c2 = c >> 8;
                    assert(c1 <= 0xFF && c2 <= 0xFF) by (bit_vector)
                        requires
                            c1 == c & 0xFF && c2 == c >> 8,
                    ;
                    if c1 == 0 && c2 == 0 {
                        assert(c == 0) by (bit_vector)
                            requires
                                c & 0xFF == 0 && c >> 8 == 0,
                        ;
                        assert(out@ + seq![] =~= out@);
                        return (out, Status::Running);
                    }
                    assert(c != 0) by (bit_vector)
                        requires
                            !(c & 0xFF == 0 && c >> 8 == 0),
                    ;
                    let ghost before = out@;
                    if c1 != 0 {
                        out.push(c1 as u8);
                    }
                    if c2 != 0 {
                        out.push(c2 as u8);
                    }
                    proof {
                        let rest = putsp_spec(self@.mem, addr + 1, key).0;
                        assert(out@ =~= before + packed_chars(c));
                        assert(before + (packed_chars(c) + rest) =~= out@ + rest);
                    }
                    addr = addr + 1;
                },
                Load::NeedsKey => {
                    assert(out@ + seq![] =~= out@);
                    return (out, Status::NeedsKey);
                },
                Load::Interrupted => {
                    assert(out@ + seq![] =~= out@);
                    return (out, Status::Interrupted);
                },
            }
        }
    }

    /// Executes TRAP: links the return address into R7 and performs the
    /// service that the low eight bits select.
    fn exec_trap(&mut self, instr: u16, key: Option<u8>) -> (r: Step)
        requires
            opcode_of(instr) == Opcode::Trap,
            instr == old(self)@.mem[old(self)@.pc as int],
        ensures
            settles(old(self)@, key, final(self)@, &r),
    {
        let pc = self.pc.wrapping_add(1);
        let vector = instr & 0xFF;
        if vector == 0x20 || vector == 0x23 {
            let mut output: Vec<u8> = Vec::new();
            if vector == 0x23 {
                output.push(0x0A);
                output.push(0x3E);
                output.push(0x20);
                assert(output@ =~= prompt());
            }
            match key {
                None => Step { status: Status::NeedsKey, output },
                Some(k) => if k == INTERRUPT_KEY {
                    Step { status: Status::Interrupted, output }
                } else {
                    self.pc = pc;
                    self.registers[7] = pc;
                    self.set_reg(0, k as u16);
                    self.setcc(k as u16);
                    if vector == 0x23 {
                        output.push(k);
                    }
                    Step { status: Status::Running, output }
                },
            }
        } else if vector == 0x22 || vector == 0x24 {
            let start = self.registers[0];
            let (output, status) = if vector == 0x22 {
                self.puts(start, key)
            } else {
                self.putsp(start, key)
            };
            if status == Status::Running {
                self.pc = pc;
                self.registers[7] = pc;
            }
            Step { status, output }
        } else if vector == 0x25 {
            Step { status: Status::Halted, output: Vec::new() }
        } else {
            let mut output: Vec<u8> = Vec::new();
            if vector == 0x21 {
                output.push((self.registers[0] & 0xFF) as u8);
            }
            self.pc = pc;
            self.registers[7] = pc;
            Step { status: Status::Running, output }
        }
    }

    /// Takes one step: fetches the word at the program counter, moves the
    /// program counter past it and executes it. `key` is the keyboard's
    /// next byte, if one has been read for this step; when the instruction
    /// reads the keyboard and none was given, the step ends in `NeedsKey`
    /// and changes nothing. A step that does not end in `Running` leaves
    /// the machine as it was.
    pub fn step(&mut self, key: Option<u8>) -> (r: Step)
        ensures
            settles(old(self)@, key, final(self)@, &r),
    {
        let instr = self.memory[self.pc as usize];
        let op = decode(instr);
        match op {
            Opcode::Add | Opcode::And | Opcode::Not | Opcode::Lea => self.exec_operate(
                instr,
                op,
                key,
            ),
            Opcode::Br | Opcode::Jmp | Opcode::Jsr => self.exec_control(instr, op, key),
            Opcode::Ld | Opcode::Ldi | Opcode::Ldr => self.exec_load(instr, op, key),
            Opcode::St | Opcode::Sti | Opcode::Str => self.exec_store(instr, op, key),
            Opcode::Trap => self.exec_trap(instr, key),
            Opcode::Rti => Step { status: Status::Unsupported, output: Vec::new() },
            Opcode::Invalid => Step { status: Status::IllegalOpcode, output: Vec::new() },
        }
    }
}

} // verus!
