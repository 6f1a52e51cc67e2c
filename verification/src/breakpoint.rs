//! The software breakpoint: the trap opcode and the memory word that carries it.

use vstd::prelude::*;

verus! {

/// The one-byte `int 3` instruction.
pub const TRAP_OPCODE: u64 = 0xcc;

/// The lowest-order byte of a memory word.
pub open spec fn low_byte(word: u64) -> int {
    word as int % 256
}

/// The seven higher-order bytes of a memory word.
pub open spec fn high_bytes(word: u64) -> int {
    word as int / 256
}

/// The word that differs from `word` in its lowest-order byte alone, which
/// holds the trap opcode.
pub open spec fn spec_trap_word(word: u64) -> u64 {
    (high_bytes(word) * 256 + 0xcc) as u64
}

/// Replaces the lowest-order byte of `word` by the trap opcode.
pub fn trap_word(word: u64) -> (patched: u64)
    ensures
        patched == spec_trap_word(word),
        low_byte(patched) == TRAP_OPCODE,
        high_bytes(patched) == high_bytes(word),
{
    let patched: u64 = (word & !0xffu64) | TRAP_OPCODE;
    assert(patched == (word / 256) * 256 + 0xcc) by (bit_vector)
        requires
            patched == (word & !0xffu64) | 0xccu64,
    ;
    patched
}

} // verus!
