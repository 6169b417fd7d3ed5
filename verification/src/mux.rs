//! The address lines of the multiplexer.
use vstd::prelude::*;

verus! {

/// Address lines that an address byte can drive.
pub const ADDRESS_LINES: usize = 8;

/// Whether address line `line` is high for `addr`: the line carries the bit
/// of that weight. There is no line beyond the eighth.
pub open spec fn spec_line_is_high(addr: u8, line: usize) -> bool {
    line < ADDRESS_LINES && addr & (1u8 << line) != 0
}

/// The level of address line `line` for the address `addr`.
pub fn line_is_high(addr: u8, line: usize) -> (high: bool)
    ensures
        high == spec_line_is_high(addr, line),
{
    if line < ADDRESS_LINES {
        addr & (1u8 << line) != 0
    } else {
        false
    }
}

/// The lines of an address carry its binary digits: the address is the sum
/// of the weights of its high lines.
pub proof fn lemma_lines_spell_address(addr: u8)
    ensures
        addr == (if spec_line_is_high(addr, 0) { 1int } else { 0 })
            + (if spec_line_is_high(addr, 1) { 2int } else { 0 })
            + (if spec_line_is_high(addr, 2) { 4int } else { 0 })
            + (if spec_line_is_high(addr, 3) { 8int } else { 0 })
            + (if spec_line_is_high(addr, 4) { 16int } else { 0 })
            + (if spec_line_is_high(addr, 5) { 32int } else { 0 })
            + (if spec_line_is_high(addr, 6) { 64int } else { 0 })
            + (if spec_line_is_high(addr, 7) { 128int } else { 0 }),
{
    assert(addr == (if addr & (1u8 << 0usize) != 0 { 1u8 } else { 0 })
        + (if addr & (1u8 << 1usize) != 0 { 2u8 } else { 0 })
        + (if addr & (1u8 << 2usize) != 0 { 4u8 } else { 0 })
        + (if addr & (1u8 << 3usize) != 0 { 8u8 } else { 0 })
        + (if addr & (1u8 << 4usize) != 0 { 16u8 } else { 0 })
        + (if addr & (1u8 << 5usize) != 0 { 32u8 } else { 0 })
        + (if addr & (1u8 << 6usize) != 0 { 64u8 } else { 0 })
        + (if addr & (1u8 << 7usize) != 0 { 128u8 } else { 0 })) by (bit_vector);
}

} // verus!
