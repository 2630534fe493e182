//! What binds the assembler to the processor: a reference to a label
//! leads the processor to the label.

use vstd::prelude::*;
use crate::assembler::assembly::{absolute, displacement, word_bytes};
use crate::emulator::machine::branch_target;
use crate::emulator::memory::word;

verus! {

/// A branch reaches its label. The branch stands at `offset`, its label at
/// `target`, no more than 128 bytes before the end of the branch and no
/// more than 127 behind it. Then the operand byte that the assembler
/// emits leads the processor, from the address behind the branch, to the
/// address of the label.
pub proof fn lemma_branch_reaches_label(target: u16, offset: u16)
    requires
        -128 <= target as int - (offset as int + 2) <= 127,
    ensures
        branch_target(absolute(((offset as int + 2) % 0x10000) as u16), displacement(target, offset))
            == absolute(target),
{
}

/// A jump reaches its label: the two operand bytes that the assembler
/// emits for a label are, read as a little-endian word, the address of the
/// label.
pub proof fn lemma_jump_reaches_label(target: u16)
    ensures
        word_bytes(absolute(target)).len() == 2,
        word(word_bytes(absolute(target))[0], word_bytes(absolute(target))[1]) == absolute(target),
{
}

} // verus!
