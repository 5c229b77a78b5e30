//! A verified emulator core for a small 16-bit register machine: eight
//! general registers, a program counter, condition codes and a 64K-word
//! memory with a memory-mapped keyboard.
//!
//! The machine advances one instruction per [`Emulator::step`]. A step never
//! blocks: an instruction that reads the keyboard asks for a key by ending in
//! [`Status::NeedsKey`], and the caller takes the step again with the key.
mod bits;
mod decode;
mod image;
mod laws;
mod machine;
mod semantics;

pub use bits::{lemma_sext_masked, low_mask, sext, sign_extend};
pub use decode::{decode, opcode_of, Opcode};
pub use image::{
    body_len, image_cell, image_error, load_image, loaded, origin_of, word_at, ImageError,
};
pub use laws::{
    lemma_halt_ends_run, lemma_illegal_opcode_ends_run, lemma_one_condition_code,
    lemma_one_key_per_step,
};
pub use machine::{
    cc_of, set_result, well_formed, with_cc, with_reg, with_word, Emulator, Machine, KBDR, KBSR,
};
pub use semantics::{
    bit_set, branch_taken, done, effect, execute_spec, exit_code, exit_status, field_a, field_b,
    field_c, field_offset, key_code, key_of, lemma_fields, load_into, load_spec, low_byte, offset,
    operand2, packed_chars, prompt, puts_spec, putsp_spec, settles, stalled, step_spec, trap_spec,
    Effect, Load, Status, Step, INTERRUPT_KEY,
};
