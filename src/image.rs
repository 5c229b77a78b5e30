use vstd::prelude::*;
use crate::machine::{Emulator, Machine};

verus! {

/// Why a byte image cannot be loaded.
#[derive(PartialEq, Eq, Structural, Debug, Clone, Copy)]
pub enum ImageError {
    /// The image has an odd number of bytes.
    OddLength,
    /// The image is empty, so it names no origin.
    MissingOrigin,
    /// The words run past the end of memory from the origin.
    TooLarge,
}

/// The `i`-th big-endian word of `bytes`.
pub open spec fn word_at(bytes: Seq<u8>, i: int) -> u16 {
    (bytes[2 * i] as int * 256 + bytes[2 * i + 1] as int) as u16
}

/// The origin address: the image's first word.
pub open spec fn origin_of(bytes: Seq<u8>) -> u16 {
    word_at(bytes, 0)
}

/// The number of words placed in memory: all words but the origin.
pub open spec fn body_len(bytes: Seq<u8>) -> int {
    bytes.len() / 2 - 1
}

/// The error that loading `bytes` meets, if any.
pub open spec fn image_error(bytes: Seq<u8>) -> Option<ImageError> {
    if bytes.len() % 2 != 0 {
        Some(ImageError::OddLength)
    } else if bytes.len() == 0 {
        Some(ImageError::MissingOrigin)
    } else if origin_of(bytes) + body_len(bytes) > 0x10000 {
        Some(ImageError::TooLarge)
    } else {
        None
    }
}

/// The memory cell at `addr` once `bytes` is loaded: the words after the
/// origin stand at consecutive addresses from the origin, all else is zero.
pub open spec fn image_cell(bytes: Seq<u8>, addr: int) -> u16 {
    let o = origin_of(bytes) as int;
    if o <= addr < o + body_len(bytes) {
        word_at(bytes, addr - o + 1)
    } else {
        0
    }
}

/// The machine that a loaded image starts from.
pub open spec fn loaded(bytes: Seq<u8>, m: Machine) -> bool {
    &&& m.pc == origin_of(bytes)
    &&& m.psr == 0
    &&& m.reg == seq![0u16; 8]
    &&& m.mem.len() == 0x10000
    &&& forall|a: int| 0 <= a < 0x10000 ==> #[trigger] m.mem[a] == image_cell(bytes, a)
}

/// Loads an image of big-endian words: the first is the origin, at which
/// the program counter starts and the following words are placed.
pub fn load_image(bytes: &Vec<u8>) -> (r: Result<Emulator, ImageError>)
    ensures
        match r {
            Ok(e) => image_error(bytes@) is None && loaded(bytes@, e@),
            Err(err) => image_error(bytes@) == Some(err),
        },
{
    let len = bytes.len();
    if len % 2 != 0 {
        return Err(ImageError::OddLength);
    }
    if len == 0 {
        return Err(ImageError::MissingOrigin);
    }
    let origin = (bytes[0] as u16) * 256 + bytes[1] as u16;
    let count = len / 2 - 1;
    if origin as usize + count > 0x10000 {
        return Err(ImageError::TooLarge);
    }
    let mut memory = [0u16; 0x10000];
    let mut i: usize = 0;
    while i < count
        invariant
            bytes@.len() == len,
            len % 2 == 0,
            count == len / 2 - 1,
            origin == origin_of(bytes@),
            origin + count <= 0x10000,
            0 <= i <= count,
            forall|a: int|
                0 <= a < 0x10000 ==> #[trigger] memory@[a] == (if origin <= a < origin + i {
                    word_at(bytes@, a - origin + 1)
                } else {
                    0
                }),
        decreases count - i,
    {
        let word = (bytes[2 * i + 2] as u16) * 256 + bytes[2 * i + 3] as u16;
        assert(word == word_at(bytes@, i + 1));
        memory[origin as usize + i] = word;
        i = i + 1;
    }
    let e = Emulator::new(origin, memory);
    assert(loaded(bytes@, e@));
    Ok(e)
}

} // verus!
