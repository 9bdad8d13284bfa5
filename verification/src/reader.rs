//! Safe little-endian fetching from a bounded buffer, and the
//! addressing-mode-driven operand fetcher.
//!
//! A read past the end of the buffer never fails: it yields a defined zero
//! value, so a truncated trailing instruction still decodes structurally.

use vstd::prelude::*;

use crate::opcode::{operand_bytes, spec_extra_cycle, AddrMode};

verus! {

/// The byte at `i`, widened to 16 bits, or zero when `i` is out of range.
pub open spec fn byte_at(buf: Seq<u8>, i: int) -> u16 {
    if 0 <= i < buf.len() {
        buf[i] as u16
    } else {
        0
    }
}

/// The little-endian 16-bit word whose low byte sits at `i`, with missing
/// bytes read as zero.
pub open spec fn word_at(buf: Seq<u8>, i: int) -> u16 {
    (byte_at(buf, i) + byte_at(buf, i + 1) * 0x100) as u16
}

/// The operand an addressing mode fetches from operand position `pos`:
/// absent for modes without an operand, one zero-extended byte for the
/// single-byte modes, and a little-endian word for the two-byte modes.
pub open spec fn spec_operand(mode: AddrMode, pos: int, buf: Seq<u8>) -> Option<u16> {
    match mode {
        AddrMode::Implied | AddrMode::Accumulator => None,
        AddrMode::Absolute
        | AddrMode::AbsoluteIndexedX(_)
        | AddrMode::AbsoluteIndexedY(_)
        | AddrMode::Indirect => Some(word_at(buf, pos)),
        _ => Some(byte_at(buf, pos)),
    }
}

/// Read a byte and return it as a `u16` for convenience; zero if the index
/// is past the end of the buffer.
pub fn read_byte(index: usize, buffer: &[u8]) -> (value: u16)
    ensures
        value == byte_at(buffer@, index as int),
        value <= 0xFF,
{
    if index < buffer.len() {
        buffer[index] as u16
    } else {
        0x0000
    }
}

/// Read a little-endian word at `*index`, advancing `*index` by one; the
/// second byte is consumed by the caller's subsequent advance. Missing bytes
/// read as zero.
pub fn read_word_le(index: &mut usize, buffer: &[u8]) -> (value: u16)
    requires
        *old(index) < usize::MAX,
    ensures
        value == word_at(buffer@, *old(index) as int),
        *final(index) == *old(index) + 1,
{
    let lo = read_byte(*index, buffer);
    let hi = read_byte(*index + 1, buffer);
    *index += 1;
    lo + hi * 0x100
}

/// Advance `*index` past the opcode byte and the operand the addressing mode
/// calls for, and return that operand together with the mode's
/// extra-cycle eligibility.
pub fn fetch_operand(addr_mode: &AddrMode, index: &mut usize, buffer: &[u8]) -> (r: (
    Option<u16>,
    bool,
))
    requires
        *old(index) + 1 + operand_bytes(*addr_mode) <= usize::MAX,
    ensures
        r.0 == spec_operand(*addr_mode, *old(index) + 1, buffer@),
        r.1 == spec_extra_cycle(*addr_mode),
        *final(index) == *old(index) + 1 + operand_bytes(*addr_mode),
{
    *index += 1;

    let mut extra_cycle = false;
    let operand = match *addr_mode {
        AddrMode::Absolute => Some(read_word_le(index, buffer)),
        AddrMode::AbsoluteIndexedX(ec) => {
            extra_cycle = ec;
            Some(read_word_le(index, buffer))
        },
        AddrMode::AbsoluteIndexedY(ec) => {
            extra_cycle = ec;
            Some(read_word_le(index, buffer))
        },
        AddrMode::Zeropage => Some(read_byte(*index, buffer)),
        AddrMode::ZeropageIndexedX => Some(read_byte(*index, buffer)),
        AddrMode::ZeropageIndexedY => Some(read_byte(*index, buffer)),
        AddrMode::Relative => {
            extra_cycle = true;
            Some(read_byte(*index, buffer))
        },
        AddrMode::Immediate => Some(read_byte(*index, buffer)),
        AddrMode::Indirect => Some(read_word_le(index, buffer)),
        AddrMode::IndexedIndirectX => Some(read_byte(*index, buffer)),
        AddrMode::IndirectIndexedY(ec) => {
            extra_cycle = ec;
            Some(read_byte(*index, buffer))
        },
        _ => None,
    };

    // move the buffer index past the fetched operand (if there is one)
    if let Some(_) = operand {
        *index += 1;
    }

    (operand, extra_cycle)
}

} // verus!
