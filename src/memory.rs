//! Word-level read-modify-write of a single byte.
//!
//! Traced memory is read and written one machine word at a time. Patching a
//! byte means reading the aligned word that holds it, replacing that one byte,
//! and writing the word back; the computation in between lives here.
use vstd::prelude::*;

verus! {

/// Size in bytes of a machine word of the traced process.
pub const WORD_SIZE: usize = 8;

/// The one-byte trap instruction (`int3`) that implements a software breakpoint.
pub const TRAP_OPCODE: u8 = 0xcc;

/// The address of the word that holds `addr`.
pub open spec fn word_base(addr: int) -> int {
    addr - addr % (WORD_SIZE as int)
}

/// Position of `addr`'s byte within its word (0 is the least significant byte).
pub open spec fn byte_offset(addr: int) -> int {
    addr % (WORD_SIZE as int)
}

/// The byte at position `k` of `word`.
pub open spec fn byte_of(word: u64, k: u64) -> u8 {
    ((word >> (8 * k)) & 0xff) as u8
}

/// `word` with the byte at position `k` replaced by `value`.
pub open spec fn with_byte(word: u64, k: u64, value: u8) -> u64 {
    (word & !(0xffu64 << (8 * k))) | ((value as u64) << (8 * k))
}

/// Rounds `addr` down to the start of its machine word.
pub fn align_addr_to_word(addr: usize) -> (r: usize)
    ensures
        r == word_base(addr as int),
        r % WORD_SIZE == 0,
        r <= addr,
        addr - r < WORD_SIZE,
{
    let r = addr & !(WORD_SIZE - 1);
    assert(addr & !7usize == addr - addr % 8) by (bit_vector);
    r
}

/// Puts `value` at `addr`'s position within `word`, the word read from
/// `align_addr_to_word(addr)`. Returns the updated word, to be written back
/// to the same place, and the byte that was there before.
pub fn patch_word(word: u64, addr: usize, value: u8) -> (r: (u64, u8))
    ensures
        r.0 == with_byte(word, byte_offset(addr as int) as u64, value),
        r.1 == byte_of(word, byte_offset(addr as int) as u64),
{
    let aligned = align_addr_to_word(addr);
    let k = (addr - aligned) as u64;
    let shift = 8 * k;
    let previous = ((word >> shift) & 0xff) as u8;
    let masked = word & !(0xffu64 << shift);
    let updated = masked | ((value as u64) << shift);
    (updated, previous)
}

/// Reading back a patched byte gives the value that was put there, and the
/// other seven bytes of the word are untouched.
pub proof fn lemma_patch_reads_back(word: u64, k: u64, value: u8, j: u64)
    requires
        k < 8,
        j < 8,
    ensures
        byte_of(with_byte(word, k, value), k) == value,
        j != k ==> byte_of(with_byte(word, k, value), j) == byte_of(word, j),
{
    assert(k < 8 && j < 8 ==> ((((word & !(0xffu64 << (8 * k))) | ((value as u64) << (8 * k))) >> (
    8 * k)) & 0xff) as u8 == value) by (bit_vector);
    assert(k < 8 && j < 8 && j != k ==> ((((word & !(0xffu64 << (8 * k))) | ((value as u64) << (8
        * k))) >> (8 * j)) & 0xff) as u8 == ((word >> (8 * j)) & 0xff) as u8) by (bit_vector);
}

/// Patching a byte and then patching it again with the byte that the first
/// patch returned restores the word to its exact prior bit pattern, whatever
/// the address (aligned or not) and the value.
pub proof fn lemma_patch_round_trip(word: u64, addr: usize, value: u8)
    ensures
        ({
            let k = byte_offset(addr as int) as u64;
            with_byte(with_byte(word, k, value), k, byte_of(word, k)) == word
        }),
{
    let k = byte_offset(addr as int) as u64;
    assert(k < 8);
    assert(k < 8 ==> (((word & !(0xffu64 << (8 * k))) | ((value as u64) << (8 * k))) & !(0xffu64
        << (8 * k))) | ((((word >> (8 * k)) & 0xff) as u8 as u64) << (8 * k)) == word)
        by (bit_vector);
}

/// Writing the same byte twice leaves the same word as writing it once: arming
/// an armed breakpoint, or disarming a disarmed one, changes nothing, and the
/// byte found in place the second time is the byte that was written.
pub proof fn lemma_patch_idempotent(word: u64, addr: usize, value: u8)
    ensures
        ({
            let k = byte_offset(addr as int) as u64;
            let once = with_byte(word, k, value);
            &&& with_byte(once, k, value) == once
            &&& byte_of(once, k) == value
        }),
{
    let k = byte_offset(addr as int) as u64;
    assert(k < 8);
    assert(k < 8 ==> (((word & !(0xffu64 << (8 * k))) | ((value as u64) << (8 * k))) & !(0xffu64
        << (8 * k))) | ((value as u64) << (8 * k)) == (word & !(0xffu64 << (8 * k))) | ((
    value as u64) << (8 * k))) by (bit_vector);
    lemma_patch_reads_back(word, k, value, k);
}

/// The byte resident at `addr` after the byte writes `writes`, applied in
/// order, to a memory that held `initial` there. Writes at other addresses do
/// not disturb it, even within the same word (see `lemma_patch_reads_back`).
pub open spec fn resident(writes: Seq<(usize, u8)>, addr: usize, initial: u8) -> u8
    decreases writes.len(),
{
    if writes.len() == 0 {
        initial
    } else if writes.last().0 == addr {
        writes.last().1
    } else {
        resident(writes.drop_last(), addr, initial)
    }
}

} // verus!
