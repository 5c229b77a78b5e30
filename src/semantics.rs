use vstd::prelude::*;
use vstd::wrapping::u16_specs::wrapping_add;
use crate::bits::{low_mask, sext, sign_extend};
use crate::decode::{opcode_of, Opcode};
use crate::machine::{set_result, with_reg, with_word, Machine, KBDR};

verus! {

/// One executed step: how it ended and the characters it wrote.
pub struct Step {
    pub status: Status,
    pub output: Vec<u8>,
}

/// Whether taking a step from `pre` with `key` may give `post` and `r`.
pub open spec fn settles(pre: Machine, key: Option<u8>, post: Machine, r: &Step) -> bool {
    let e = step_spec(pre, key);
    post == e.machine && r.status == e.status && r.output@ == e.out
}

/// The keyboard byte that a raw terminal byte stands for: carriage return
/// reads as line feed, and a failed read as zero.
pub open spec fn key_of(byte: Option<u8>) -> u8 {
    match byte {
        None => 0,
        Some(b) => if b == 0x0D {
            0x0A
        } else {
            b
        },
    }
}

/// Translates a byte read from the terminal into the key the machine sees.
pub fn key_code(byte: Option<u8>) -> (r: u8)
    ensures
        r == key_of(byte),
{
    match byte {
        None => 0,
        Some(b) => if b == 0x0D {
            0x0A
        } else {
            b
        },
    }
}

/// The register fields of every instruction name one of eight registers.
pub proof fn lemma_fields(instr: u16)
    ensures
        field_a(instr) < 8,
        field_b(instr) < 8,
        field_c(instr) < 8,
{
    assert((instr >> 9) & 7 < 8) by (bit_vector);
    assert((instr >> 6) & 7 < 8) by (bit_vector);
    assert(instr & 7 < 8) by (bit_vector);
}

/// The sign-extended offset held in the low `n` bits of `instr`.
pub fn field_offset(instr: u16, n: u16) -> (r: u16)
    requires
        1 <= n < 16,
    ensures
        r == offset(instr, n),
{
    sext(instr & !(0xFFFFu16 << n), n)
}

/// How a step of the machine ended.
#[derive(PartialEq, Eq, Structural, Debug, Clone, Copy)]
pub enum Status {
    /// The instruction completed; the machine runs on.
    Running,
    /// The instruction reads the keyboard and no key was supplied; nothing
    /// changed, and the step is to be taken again with a key.
    NeedsKey,
    /// The HALT service was called.
    Halted,
    /// The interrupt key was read.
    Interrupted,
    /// The instruction's operation is the unassigned pattern.
    IllegalOpcode,
    /// The instruction is RTI, which this machine does not provide.
    Unsupported,
}

/// The key that stops the machine when it is read.
pub const INTERRUPT_KEY: u8 = 0x03;

/// The result of a memory read: a word, or a keyboard read that needs a key
/// or that took the interrupt key.
#[derive(PartialEq, Eq, Structural, Debug, Clone, Copy)]
pub enum Load {
    Word(u16),
    NeedsKey,
    Interrupted,
}

/// What a step does: the machine after it, how it ended, and the characters
/// it wrote.
pub struct Effect {
    pub machine: Machine,
    pub status: Status,
    pub out: Seq<u8>,
}

/// The process exit status that a step's status calls for, if it ends the
/// run: success for HALT and the interrupt key, failure for an illegal
/// opcode, and the status of a panicked program for RTI.
pub open spec fn exit_status(status: Status) -> Option<i32> {
    match status {
        Status::Running => None,
        Status::NeedsKey => None,
        Status::Halted => Some(0),
        Status::Interrupted => Some(0),
        Status::IllegalOpcode => Some(1),
        Status::Unsupported => Some(101),
    }
}

/// The process exit status for a step's status, if the run ends there.
pub fn exit_code(status: Status) -> (r: Option<i32>)
    ensures
        r == exit_status(status),
{
    match status {
        Status::Running => None,
        Status::NeedsKey => None,
        Status::Halted => Some(0),
        Status::Interrupted => Some(0),
        Status::IllegalOpcode => Some(1),
        Status::Unsupported => Some(101),
    }
}

/// Register field `a`: bits 11 to 9.
pub open spec fn field_a(instr: u16) -> u16 {
    (instr >> 9) & 7
}

/// Register field `b`: bits 8 to 6.
pub open spec fn field_b(instr: u16) -> u16 {
    (instr >> 6) & 7
}

/// The second source register: bits 2 to 0.
pub open spec fn field_c(instr: u16) -> u16 {
    instr & 7
}

/// Whether bit `k` of the instruction is set.
pub open spec fn bit_set(instr: u16, k: u16) -> bool {
    (instr >> k) & 1 == 1
}

/// The sign-extended low `n` bits of the instruction.
pub open spec fn offset(instr: u16, n: u16) -> u16 {
    sign_extend(instr & low_mask(n), n)
}

/// Reading memory at `addr`, with `key` the keyboard's next byte if known.
pub open spec fn load_spec(mem: Seq<u16>, addr: u16, key: Option<u8>) -> Load {
    if addr == KBDR {
        match key {
            None => Load::NeedsKey,
            Some(k) => if k == INTERRUPT_KEY {
                Load::Interrupted
            } else {
                Load::Word(k as u16)
            },
        }
    } else {
        Load::Word(mem[addr as int])
    }
}

/// The low byte of a word as a character.
pub open spec fn low_byte(w: u16) -> u8 {
    (w & 0xFF) as u8
}

/// A step that wrote `out` and ended with `status`.
pub open spec fn effect(m: Machine, status: Status, out: Seq<u8>) -> Effect {
    Effect { machine: m, status, out }
}

/// A completed step that wrote nothing.
pub open spec fn done(m: Machine) -> Effect {
    effect(m, Status::Running, seq![])
}

/// A step that ended at a memory read that gave no word.
pub open spec fn stalled(m: Machine, l: Load) -> Effect {
    effect(m, if l == Load::NeedsKey { Status::NeedsKey } else { Status::Interrupted }, seq![])
}

/// The characters of the string of one character per word that starts at
/// `addr` and ends at a zero word or at the end of memory, and how writing
/// it ended.
pub open spec fn puts_spec(mem: Seq<u16>, addr: int, key: Option<u8>) -> (Seq<u8>, Status)
    decreases 0x10000 - addr,
{
    if addr < 0 || addr >= 0x10000 {
        (seq![], Status::Running)
    } else {
        match load_spec(mem, addr as u16, key) {
            Load::Word(c) => if c == 0 {
                (seq![], Status::Running)
            } else {
                let rest = puts_spec(mem, addr + 1, key);
                (seq![low_byte(c)] + rest.0, rest.1)
            },
            Load::NeedsKey => (seq![], Status::NeedsKey),
            Load::Interrupted => (seq![], Status::Interrupted),
        }
    }
}

/// The characters of a word that holds two, low byte first, zeros left out.
pub open spec fn packed_chars(c: u16) -> Seq<u8> {
    let lo: Seq<u8> = if c & 0xFF != 0 { seq![low_byte(c)] } else { seq![] };
    let hi: Seq<u8> = if c >> 8 != 0 { seq![(c >> 8) as u8] } else { seq![] };
    lo + hi
}

/// The characters of the string of two characters per word that starts at
/// `addr` and ends at a zero word or at the end of memory, and how writing
/// it ended.
pub open spec fn putsp_spec(mem: Seq<u16>, addr: int, key: Option<u8>) -> (Seq<u8>, Status)
    decreases 0x10000 - addr,
{
    if addr < 0 || addr >= 0x10000 {
        (seq![], Status::Running)
    } else {
        match load_spec(mem, addr as u16, key) {
            Load::Word(c) => if c == 0 {
                (seq![], Status::Running)
            } else {
                let rest = putsp_spec(mem, addr + 1, key);
                (packed_chars(c) + rest.0, rest.1)
            },
            Load::NeedsKey => (seq![], Status::NeedsKey),
            Load::Interrupted => (seq![], Status::Interrupted),
        }
    }
}

/// The prompt written by the IN service.
pub open spec fn prompt() -> Seq<u8> {
    seq![0x0Au8, 0x3Eu8, 0x20u8]
}

/// A system service, on a machine whose link register already holds the
/// return address.
pub open spec fn trap_spec(m: Machine, vector: u16, key: Option<u8>) -> Effect {
    if vector == 0x20 {
        match key {
            None => effect(m, Status::NeedsKey, seq![]),
            Some(k) => if k == INTERRUPT_KEY {
                effect(m, Status::Interrupted, seq![])
            } else {
                done(set_result(m, 0, k as u16))
            },
        }
    } else if vector == 0x21 {
        effect(m, Status::Running, seq![low_byte(m.reg[0])])
    } else if vector == 0x22 {
        let (out, status) = puts_spec(m.mem, m.reg[0] as int, key);
        effect(m, status, out)
    } else if vector == 0x23 {
        match key {
            None => effect(m, Status::NeedsKey, prompt()),
            Some(k) => if k == INTERRUPT_KEY {
                effect(m, Status::Interrupted, prompt())
            } else {
                effect(set_result(m, 0, k as u16), Status::Running, prompt().push(k))
            },
        }
    } else if vector == 0x24 {
        let (out, status) = putsp_spec(m.mem, m.reg[0] as int, key);
        effect(m, status, out)
    } else if vector == 0x25 {
        effect(m, Status::Halted, seq![])
    } else {
        done(m)
    }
}

/// Whether a branch instruction is taken under status register `psr`.
pub open spec fn branch_taken(instr: u16, psr: u16) -> bool {
    (bit_set(instr, 11) && bit_set(psr, 2)) || (bit_set(instr, 10) && bit_set(psr, 1)) || (
    bit_set(instr, 9) && bit_set(psr, 0))
}

/// The second operand of ADD and AND: a register, or a 5-bit immediate.
pub open spec fn operand2(m: Machine, instr: u16) -> u16 {
    if bit_set(instr, 5) {
        offset(instr, 5)
    } else {
        m.reg[field_c(instr) as int]
    }
}

/// A load into register `a` of the word `l`, if `l` is one.
pub open spec fn load_into(m: Machine, instr: u16, l: Load) -> Effect {
    match l {
        Load::Word(v) => done(set_result(m, field_a(instr) as int, v)),
        _ => stalled(m, l),
    }
}

/// What the instruction `instr` does to machine `m`, whose program counter
/// has already moved past it.
pub open spec fn execute_spec(m: Machine, instr: u16, key: Option<u8>) -> Effect {
    let a = field_a(instr) as int;
    let b = field_b(instr) as int;
    let pc_rel = wrapping_add(m.pc, offset(instr, 9));
    match opcode_of(instr) {
        Opcode::Add => done(set_result(m, a, wrapping_add(m.reg[b], operand2(m, instr)))),
        Opcode::And => done(set_result(m, a, m.reg[b] & operand2(m, instr))),
        Opcode::Not => done(set_result(m, a, !m.reg[b])),
        Opcode::Lea => done(set_result(m, a, pc_rel)),
        Opcode::Br => if branch_taken(instr, m.psr) {
            done(Machine { pc: pc_rel, ..m })
        } else {
            done(m)
        },
        Opcode::Jmp => done(Machine { pc: m.reg[b], ..m }),
        Opcode::Jsr => {
            let linked = with_reg(m, 7, m.pc);
            let target = if bit_set(instr, 11) {
                wrapping_add(m.pc, offset(instr, 11))
            } else {
                linked.reg[b]
            };
            done(Machine { pc: target, ..linked })
        },
        Opcode::Ld => load_into(m, instr, load_spec(m.mem, pc_rel, key)),
        Opcode::Ldr => load_into(
            m,
            instr,
            load_spec(m.mem, wrapping_add(m.reg[b], offset(instr, 6)), key),
        ),
        Opcode::Ldi => match load_spec(m.mem, pc_rel, key) {
            Load::Word(p) => load_into(m, instr, load_spec(m.mem, p, key)),
            l => stalled(m, l),
        },
        Opcode::St => done(with_word(m, pc_rel as int, m.reg[a])),
        Opcode::Str => done(with_word(m, wrapping_add(m.reg[b], offset(instr, 6)) as int, m.reg[a])),
        Opcode::Sti => match load_spec(m.mem, pc_rel, key) {
            Load::Word(p) => done(with_word(m, p as int, m.reg[a])),
            l => stalled(m, l),
        },
        Opcode::Trap => trap_spec(with_reg(m, 7, m.pc), instr & 0xFF, key),
        Opcode::Rti => effect(m, Status::Unsupported, seq![]),
        Opcode::Invalid => effect(m, Status::IllegalOpcode, seq![]),
    }
}

/// One step of the machine: fetch the word at the program counter, move
/// the program counter past it and execute it. A step that does not end in
/// `Running` leaves the machine as it was.
pub open spec fn step_spec(m: Machine, key: Option<u8>) -> Effect {
    let instr = m.mem[m.pc as int];
    let e = execute_spec(Machine { pc: wrapping_add(m.pc, 1), ..m }, instr, key);
    if e.status == Status::Running {
        e
    } else {
        effect(m, e.status, e.out)
    }
}

} // verus!
