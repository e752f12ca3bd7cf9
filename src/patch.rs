use vstd::prelude::*;

verus! {

/// The x86-64 `int3` instruction: one byte that raises a breakpoint trap.
pub const TRAP_OPCODE: u64 = 0xcc;

/// Mask that clears the low byte of a word.
pub const LOW_BYTE_CLEAR: u64 = 0xffff_ffff_ffff_ff00;

/// The word written over `word`: its low byte (the first instruction byte on a
/// little-endian machine) replaced by the trap opcode.
pub open spec fn patched(word: u64) -> u64 {
    (word & LOW_BYTE_CLEAR) | TRAP_OPCODE
}

/// Whether a child stopped with program counter `pc` has just executed the
/// trap planted at `addr`: the trap leaves the counter one byte past it.
pub open spec fn trapped_at(pc: u64, addr: u64) -> bool {
    pc as int - 1 == addr as int
}

/// Computes the patched word for `word`.
pub fn patch_word(word: u64) -> (r: u64)
    ensures
        r == patched(word),
        r & 0xff == TRAP_OPCODE,
        r >> 8u64 == word >> 8u64,
{
    let r = (word & LOW_BYTE_CLEAR) | TRAP_OPCODE;
    assert(r & 0xff == 0xcc && r >> 8u64 == word >> 8u64) by (bit_vector)
        requires
            r == (word & 0xffff_ffff_ffff_ff00u64) | 0xccu64,
    ;
    r
}

/// Whether the stop at `pc` is the hit of a breakpoint at `addr`.
pub fn is_trap_hit(pc: u64, addr: u64) -> (r: bool)
    ensures
        r == trapped_at(pc, addr),
{
    pc >= 1 && pc - 1 == addr
}

} // verus!
