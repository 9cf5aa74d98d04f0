//! Little-endian integers in byte buffers.

use vstd::prelude::*;

verus! {

/// The unsigned value of two bytes, least significant first.
pub open spec fn u16_of(low: u8, high: u8) -> u16 {
    (low + 256 * high) as u16
}

/// The two's complement reading of a 16-bit word.
pub open spec fn signed16(word: u16) -> i16 {
    (if word < 0x8000 {
        word as int
    } else {
        word - 0x1_0000
    }) as i16
}

/// The unsigned value of the two bytes at `at`.
pub open spec fn u16_at(bytes: Seq<u8>, at: int) -> u16 {
    u16_of(bytes[at], bytes[at + 1])
}

/// The signed value of the two bytes at `at`.
pub open spec fn i16_at(bytes: Seq<u8>, at: int) -> i16 {
    signed16(u16_at(bytes, at))
}

/// The unsigned value of the four bytes at `at`.
pub open spec fn u32_at(bytes: Seq<u8>, at: int) -> u32 {
    (u16_at(bytes, at) + 0x1_0000 * u16_at(bytes, at + 2)) as u32
}

/// The two bytes of a 16-bit word, least significant first.
pub open spec fn u16_bytes(word: u16) -> Seq<u8> {
    seq![(word % 256) as u8, (word / 256) as u8]
}

/// The four bytes of a 32-bit word, least significant first.
pub open spec fn u32_bytes(word: u32) -> Seq<u8> {
    u16_bytes((word % 0x1_0000) as u16) + u16_bytes((word / 0x1_0000) as u16)
}

/// The two's complement word of a 16-bit integer.
pub open spec fn word16(value: i16) -> u16 {
    (if value < 0 {
        value + 0x1_0000
    } else {
        value as int
    }) as u16
}

/// The two's complement word of a 32-bit integer.
pub open spec fn word32(value: i32) -> u32 {
    (if value < 0 {
        value + 0x1_0000_0000
    } else {
        value as int
    }) as u32
}

/// The four bytes of a signed 32-bit integer, least significant first.
pub open spec fn i32_bytes(value: i32) -> Seq<u8> {
    u32_bytes(word32(value))
}

/// Reads the unsigned 16-bit integer at `at`.
pub fn read_u16(bytes: &[u8], at: usize) -> (word: u16)
    requires
        at + 2 <= bytes@.len(),
    ensures
        word == u16_at(bytes@, at as int),
{
    bytes[at] as u16 + 256 * (bytes[at + 1] as u16)
}

/// Reads the signed 16-bit integer at `at`.
pub fn read_i16(bytes: &[u8], at: usize) -> (value: i16)
    requires
        at + 2 <= bytes@.len(),
    ensures
        value == i16_at(bytes@, at as int),
{
    let word: u16 = read_u16(bytes, at);
    assert(word < 0x8000 ==> (word as i16) == word) by (bit_vector);
    assert(word >= 0x8000 ==> (word as i16) == word - 0x1_0000) by (bit_vector);
    word as i16
}

/// Reads the unsigned 32-bit integer at `at`.
pub fn read_u32(bytes: &[u8], at: usize) -> (word: u32)
    requires
        at + 4 <= bytes@.len(),
    ensures
        word == u32_at(bytes@, at as int),
{
    assert(bytes@.len() == bytes.len());
    read_u16(bytes, at) as u32 + 0x1_0000 * (read_u16(bytes, at + 2) as u32)
}

/// Appends a 16-bit word.
pub fn write_u16(out: &mut Vec<u8>, word: u16)
    ensures
        final(out)@ == old(out)@ + u16_bytes(word),
{
    out.push((word % 256) as u8);
    out.push((word / 256) as u8);
    assert(out@ =~= old(out)@ + u16_bytes(word));
}

/// Appends a 32-bit word.
pub fn write_u32(out: &mut Vec<u8>, word: u32)
    ensures
        final(out)@ == old(out)@ + u32_bytes(word),
{
    write_u16(out, (word % 0x1_0000) as u16);
    write_u16(out, (word / 0x1_0000) as u16);
    assert(out@ =~= old(out)@ + u32_bytes(word));
}

/// Appends a signed 32-bit integer.
pub fn write_i32(out: &mut Vec<u8>, value: i32)
    ensures
        final(out)@ == old(out)@ + i32_bytes(value),
{
    assert(value >= 0 ==> (value as u32) == value) by (bit_vector);
    assert(value < 0 ==> (value as u32) == value + 0x1_0000_0000) by (bit_vector);
    write_u32(out, value as u32);
}

/// Appends `count` zero bytes.
pub fn write_zeros(out: &mut Vec<u8>, count: usize)
    ensures
        final(out)@ == old(out)@ + Seq::new(count as nat, |i: int| 0u8),
{
    let mut written: usize = 0;
    while written < count
        invariant
            written <= count,
            out@ == old(out)@ + Seq::new(written as nat, |i: int| 0u8),
        decreases count - written,
    {
        out.push(0);
        written += 1;
        assert(out@ =~= old(out)@ + Seq::new(written as nat, |i: int| 0u8));
    }
}

/// Writing a 16-bit word and reading it back gives the word.
pub proof fn law_u16_round_trip(word: u16)
    ensures
        u16_bytes(word).len() == 2,
        u16_at(u16_bytes(word), 0) == word,
{
}

/// Writing a 32-bit word and reading it back gives the word.
pub proof fn law_u32_round_trip(word: u32)
    ensures
        u32_bytes(word).len() == 4,
        u32_at(u32_bytes(word), 0) == word,
{
    let low = (word % 0x1_0000) as u16;
    let high = (word / 0x1_0000) as u16;
    let bytes = u32_bytes(word);
    assert(bytes[0] == u16_bytes(low)[0]);
    assert(bytes[1] == u16_bytes(low)[1]);
    assert(bytes[2] == u16_bytes(high)[0]);
    assert(bytes[3] == u16_bytes(high)[1]);
}

/// A word read from two bytes has the first one as its low eight bits and the
/// second one as its high eight bits.
pub proof fn law_word_holds_its_bytes(bytes: Seq<u8>, at: int)
    ensures
        u16_at(bytes, at) & 0xff == bytes[at],
        u16_at(bytes, at) >> 8 == bytes[at + 1],
{
    let word = u16_at(bytes, at);
    let low = bytes[at];
    let high = bytes[at + 1];
    assert(word & 0xff == low && word >> 8 == high) by (bit_vector)
        requires
            word == low + 256 * high,
    ;
}

/// A double word read from four bytes has them as its eight-bit groups, from the
/// lowest to the highest.
pub proof fn law_double_word_holds_its_bytes(bytes: Seq<u8>, at: int)
    ensures
        u32_at(bytes, at) & 0xff == bytes[at],
        (u32_at(bytes, at) >> 8) & 0xff == bytes[at + 1],
        (u32_at(bytes, at) >> 16) & 0xff == bytes[at + 2],
        u32_at(bytes, at) >> 24 == bytes[at + 3],
{
    let word = u32_at(bytes, at);
    let a = bytes[at];
    let b = bytes[at + 1];
    let c = bytes[at + 2];
    let d = bytes[at + 3];
    assert(word & 0xff == a && (word >> 8) & 0xff == b && (word >> 16) & 0xff == c && word >> 24
        == d) by (bit_vector)
        requires
            word == a + 0x100 * b + 0x1_0000 * c + 0x100_0000 * d,
    ;
}

/// Writing a word out gives its eight-bit groups, from the lowest to the highest.
pub proof fn law_bytes_are_the_groups_of_the_word(word: u16, double: u32)
    ensures
        u16_bytes(word).len() == 2,
        u16_bytes(word)[0] == word & 0xff,
        u16_bytes(word)[1] == word >> 8,
        u32_bytes(double).len() == 4,
        u32_bytes(double)[0] == double & 0xff,
        u32_bytes(double)[1] == (double >> 8) & 0xff,
        u32_bytes(double)[2] == (double >> 16) & 0xff,
        u32_bytes(double)[3] == double >> 24,
{
    law_u16_round_trip(word);
    law_word_holds_its_bytes(u16_bytes(word), 0);
    law_u32_round_trip(double);
    law_double_word_holds_its_bytes(u32_bytes(double), 0);
}

/// Signed and unsigned readings of the same bits differ by a multiple of the
/// number of words there are, so each is fixed by the other.
pub proof fn law_signed_readings_keep_the_bits(word: u16, small: i16, large: i32)
    ensures
        (signed16(word) - word) % 0x1_0000 == 0,
        (word16(small) - small) % 0x1_0000 == 0,
        (word32(large) - large) % 0x1_0000_0000 == 0,
        signed16(word16(small)) == small,
        word16(signed16(word)) == word,
{
}

/// A signed integer that is written out and read back is the same.
pub proof fn law_signed_round_trip(small: i16, large: i32)
    ensures
        i16_at(u16_bytes(word16(small)), 0) == small,
        i32_bytes(large).len() == 4,
        u32_at(i32_bytes(large), 0) == word32(large),
{
    law_u16_round_trip(word16(small));
    law_u32_round_trip(word32(large));
}

} // verus!
