use vstd::prelude::*;

verus! {

/// The sixteen operations selected by the top four bits of an instruction.
#[derive(PartialEq, Eq, Structural, Debug, Clone, Copy)]
pub enum Opcode {
    Br,
    Add,
    Ld,
    St,
    Jsr,
    And,
    Ldr,
    Str,
    Rti,
    Not,
    Ldi,
    Sti,
    Jmp,
    Invalid,
    Lea,
    Trap,
}

/// The operation that an instruction word selects.
pub open spec fn opcode_of(instr: u16) -> Opcode {
    let code = instr >> 12;
    if code == 0b0000 {
        Opcode::Br
    } else if code == 0b0001 {
        Opcode::Add
    } else if code == 0b0010 {
        Opcode::Ld
    } else if code == 0b0011 {
        Opcode::St
    } else if code == 0b0100 {
        Opcode::Jsr
    } else if code == 0b0101 {
        Opcode::And
    } else if code == 0b0110 {
        Opcode::Ldr
    } else if code == 0b0111 {
        Opcode::Str
    } else if code == 0b1000 {
        Opcode::Rti
    } else if code == 0b1001 {
        Opcode::Not
    } else if code == 0b1010 {
        Opcode::Ldi
    } else if code == 0b1011 {
        Opcode::Sti
    } else if code == 0b1100 {
        Opcode::Jmp
    } else if code == 0b1101 {
        Opcode::Invalid
    } else if code == 0b1110 {
        Opcode::Lea
    } else {
        Opcode::Trap
    }
}

/// Decodes the operation of an instruction word; every word decodes, and
/// only the pattern `0b1101` in the top four bits gives `Invalid`.
pub fn decode(instr: u16) -> (r: Opcode)
    ensures
        r == opcode_of(instr),
        (r == Opcode::Invalid) == (instr >> 12 == 0b1101),
{
    let code = instr >> 12;
    match code {
        0b0000 => Opcode::Br,
        0b0001 => Opcode::Add,
        0b0010 => Opcode::Ld,
        0b0011 => Opcode::St,
        0b0100 => Opcode::Jsr,
        0b0101 => Opcode::And,
        0b0110 => Opcode::Ldr,
        0b0111 => Opcode::Str,
        0b1000 => Opcode::Rti,
        0b1001 => Opcode::Not,
        0b1010 => Opcode::Ldi,
        0b1011 => Opcode::Sti,
        0b1100 => Opcode::Jmp,
        0b1101 => Opcode::Invalid,
        0b1110 => Opcode::Lea,
        _ => Opcode::Trap,
    }
}

} // verus!
