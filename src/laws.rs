use vstd::prelude::*;
use crate::decode::{opcode_of, Opcode};
use crate::machine::{cc_of, with_cc, well_formed, Machine};
use crate::semantics::{exit_status, putsp_spec, puts_spec, step_spec, Status};

verus! {

/// Setting the condition codes from any value sets exactly one of N (bit 2),
/// Z (bit 1) and P (bit 0): N for a nonzero value with bit 15 set, Z for
/// zero, P for a nonzero value with bit 15 clear. The other bits stay.
pub proof fn lemma_one_condition_code(psr: u16, value: u16)
    ensures
        ((with_cc(psr, value) >> 2) & 1) + ((with_cc(psr, value) >> 1) & 1) + (with_cc(psr, value)
            & 1) == 1,
        ((with_cc(psr, value) >> 2) & 1 == 1) == (value >> 15 == 1 && value != 0),
        ((with_cc(psr, value) >> 1) & 1 == 1) == (value == 0),
        (with_cc(psr, value) & 1 == 1) == (value >> 15 == 0 && value != 0),
        with_cc(psr, value) & 0xFFF8 == psr & 0xFFF8,
{
    let r = with_cc(psr, value);
    let c = cc_of(value);
    assert(r == (psr & 0xFFF8) | c);
    assert((value >> 15 == 1) == (value & 0x8000 != 0)) by (bit_vector);
    assert((value >> 15 == 0) == (value & 0x8000 == 0)) by (bit_vector);
    assert(c == 1 || c == 2 || c == 4 ==> {
        &&& (r >> 2) & 1 == (if c == 4 { 1u16 } else { 0 })
        &&& (r >> 1) & 1 == (if c == 2 { 1u16 } else { 0 })
        &&& r & 1 == (if c == 1 { 1u16 } else { 0 })
        &&& r & 0xFFF8 == psr & 0xFFF8
    }) by (bit_vector)
        requires
            r == (psr & 0xFFF8) | c,
    ;
}

/// The HALT service ends the run with success whatever the registers hold,
/// writing nothing and leaving the machine as it was.
pub proof fn lemma_halt_ends_run(m: Machine, key: Option<u8>)
    requires
        well_formed(m),
        opcode_of(m.mem[m.pc as int]) == Opcode::Trap,
        m.mem[m.pc as int] & 0xFF == 0x25,
    ensures
        step_spec(m, key).status == Status::Halted,
        step_spec(m, key).machine == m,
        step_spec(m, key).out == Seq::<u8>::empty(),
        exit_status(step_spec(m, key).status) == Some(0i32),
{
}

/// An instruction whose top four bits are `0b1101` ends the run with a
/// failure status and changes neither registers nor memory.
pub proof fn lemma_illegal_opcode_ends_run(m: Machine, key: Option<u8>)
    requires
        well_formed(m),
        m.mem[m.pc as int] >> 12 == 0b1101,
    ensures
        step_spec(m, key).status == Status::IllegalOpcode,
        step_spec(m, key).machine == m,
        exit_status(step_spec(m, key).status) matches Some(code) && code != 0,
{
}

/// Writing a string never waits for a key once the key is known.
proof fn lemma_strings_need_no_second_key(mem: Seq<u16>, addr: int, k: u8)
    ensures
        puts_spec(mem, addr, Some(k)).1 != Status::NeedsKey,
        putsp_spec(mem, addr, Some(k)).1 != Status::NeedsKey,
    decreases 0x10000 - addr,
{
    if 0 <= addr < 0x10000 {
        lemma_strings_need_no_second_key(mem, addr + 1, k);
    }
}

/// A step that is given the keyboard's next byte never asks for one, so a
/// run needs at most one key per instruction.
pub proof fn lemma_one_key_per_step(m: Machine, k: u8)
    requires
        well_formed(m),
    ensures
        step_spec(m, Some(k)).status != Status::NeedsKey,
{
    lemma_strings_need_no_second_key(m.mem, m.reg[0] as int, k);
}

} // verus!
