//! What holds of every call that reads and writes integers, floats, texts and
//! requests, whatever it is called with.

use crate::errno::{classify, ErrnoCodes, IoFailure};
use crate::float::{
    clamp_to_unit, exceeds_half, fraction_of, law_above_one_half_by_bits, law_clamping_by_bits,
    law_fractions_lie_in_the_unit_interval, law_fractions_scale, law_upper_fractions_lie_evenly,
};
use crate::ioctl::{granted, io, ioc, iow, iowint, iowr_int, law_long_parameters_are_cut_off};
use crate::le::{
    law_bytes_are_the_groups_of_the_word, law_double_word_holds_its_bytes,
    law_signed_readings_keep_the_bits, law_u32_round_trip, law_word_holds_its_bytes, read_i16,
    read_u16, read_u32, u32_bytes, word32, write_i32, write_u16, write_u32, write_zeros,
};
use crate::sequence::Sequence;
use crate::text::{
    copied, decimal, digit_text, digit_worth, hexadecimal, joined, law_split_is_at_the_first,
    law_written_numbers_read_back, split_once, texts, worth,
};
use vstd::prelude::*;

verus! {

/// Words are read from the two bytes where they stand, least significant byte
/// first, with or without a sign.
pub proof fn law_words_are_read(bytes: &[u8], at: usize, word: u16, value: i16)
    requires
        at + 2 <= bytes@.len(),
        call_ensures(read_u16, (bytes, at), word),
        call_ensures(read_i16, (bytes, at), value),
    ensures
        word & 0xff == bytes@[at as int],
        word >> 8 == bytes@[at + 1],
        (value - word) % 0x1_0000 == 0,
{
    law_word_holds_its_bytes(bytes@, at as int);
    law_signed_readings_keep_the_bits(word, value, 0);
}

/// Double words are read from the four bytes where they stand, least significant
/// byte first.
pub proof fn law_double_words_are_read(bytes: &[u8], at: usize, double: u32)
    requires
        at + 4 <= bytes@.len(),
        call_ensures(read_u32, (bytes, at), double),
    ensures
        double & 0xff == bytes@[at as int],
        (double >> 8) & 0xff == bytes@[at + 1],
        (double >> 16) & 0xff == bytes@[at + 2],
        double >> 24 == bytes@[at + 3],
{
    law_double_word_holds_its_bytes(bytes@, at as int);
}

/// A word is written behind what is there, least significant byte first.
pub proof fn law_words_are_written(out: &mut Vec<u8>, word: u16)
    requires
        call_ensures(write_u16, (out, word), ()),
    ensures
        final(out)@ == old(out)@ + seq![(word & 0xff) as u8, (word >> 8) as u8],
{
    law_bytes_are_the_groups_of_the_word(word, 0);
}

/// A double word is written behind what is there, least significant byte first.
pub proof fn law_double_words_are_written(out: &mut Vec<u8>, double: u32)
    requires
        call_ensures(write_u32, (out, double), ()),
    ensures
        final(out)@ == old(out)@ + seq![
            (double & 0xff) as u8,
            ((double >> 8) & 0xff) as u8,
            ((double >> 16) & 0xff) as u8,
            (double >> 24) as u8,
        ],
{
    law_bytes_are_the_groups_of_the_word(0, double);
}

/// A signed integer is written behind what is there as the bits that it has.
pub proof fn law_signed_integers_are_written(out: &mut Vec<u8>, value: i32)
    requires
        call_ensures(write_i32, (out, value), ()),
    ensures
        final(out)@.len() == old(out)@.len() + 4,
        final(out)@.take(old(out)@.len() as int) == old(out)@,
        ({
            let bytes = final(out)@.skip(old(out)@.len() as int);
            (bytes[0] + 0x100 * bytes[1] + 0x1_0000 * bytes[2] + 0x100_0000 * bytes[3] - value)
                % 0x1_0000_0000 == 0
        }),
{
    let double = word32(value);
    let bytes = final(out)@.skip(old(out)@.len() as int);
    assert(bytes =~= u32_bytes(double));
    law_u32_round_trip(double);
    law_signed_readings_keep_the_bits(0, 0, value);
    assert(final(out)@.take(old(out)@.len() as int) =~= old(out)@);
}

/// Zeros are written behind what is there, as many as were asked for.
pub proof fn law_zeros_are_written(out: &mut Vec<u8>, count: usize)
    requires
        call_ensures(write_zeros, (out, count), ()),
    ensures
        final(out)@.len() == old(out)@.len() + count,
        final(out)@.take(old(out)@.len() as int) == old(out)@,
        forall|i: int| old(out)@.len() <= i < final(out)@.len() ==> final(out)@[i] == 0,
{
    assert(final(out)@.take(old(out)@.len() as int) =~= old(out)@);
}

/// Clamping keeps a number from 0.0 to 1.0, brings a greater one to 1.0 and a
/// negative one to 0.0, and keeps minus zero and what is no number. A number is
/// above one half exactly when its bits lie above those of 0.5.
pub proof fn law_numbers_are_clamped_and_compared(bits: u32, clamped: u32, greater: bool)
    requires
        call_ensures(clamp_to_unit, (bits,), clamped),
        call_ensures(exceeds_half, (bits,), greater),
    ensures
        clamped == (if 0x3f80_0000 < bits <= 0x7f80_0000 {
            0x3f80_0000
        } else if 0x8000_0000 < bits <= 0xff80_0000 {
            0
        } else {
            bits
        }),
        greater <==> 0x3f00_0000 < bits <= 0x7f80_0000,
{
    law_clamping_by_bits(bits);
    law_above_one_half_by_bits(bits);
}

/// Fractions of samples lie evenly from one half up, go down by halves from there,
/// and are mirrored about zero.
pub proof fn law_fractions_are_made(sample: i16, bits: u32, other: i16, other_bits: u32)
    requires
        call_ensures(fraction_of, (sample,), bits),
        call_ensures(fraction_of, (other,), other_bits),
    ensures
        sample == 0 ==> bits == 0,
        sample == i16::MIN ==> bits == 0xbf80_0000,
        sample >= 0x4000 ==> bits == 0x3f00_0000 + 512 * (sample - 0x4000),
        sample != 0 && other == 2 * sample ==> other_bits == bits + 0x80_0000,
        sample > 0 && other == -sample ==> other_bits == bits + 0x8000_0000,
{
    if sample >= 0x4000 {
        law_upper_fractions_lie_evenly(bits, sample);
    }
    if sample != 0 {
        law_fractions_scale(bits, sample, other_bits, other);
    }
    law_fractions_lie_in_the_unit_interval(bits, sample);
}

/// A failed call was interrupted, or found nothing, if the system says so. An
/// answer that is not negative grants a request.
pub proof fn law_answers_are_judged(
    errno: Option<i32>,
    codes: ErrnoCodes,
    failure: IoFailure,
    answer: i32,
    good: bool,
)
    requires
        call_ensures(classify, (errno, &codes), failure),
        call_ensures(granted, (answer,), good),
    ensures
        failure is Interrupted <==> errno is Some && errno->0 == codes.eintr,
        failure is WouldBlock <==> errno is Some && errno->0 == codes.eagain && errno->0
            != codes.eintr,
        failure is Other <==> errno is None || (errno->0 != codes.eintr && errno->0
            != codes.eagain),
        good <==> answer >= 0,
{
}

/// The number of a request holds which way its parameter goes, how long that is,
/// the group and the number in it.
pub proof fn law_requests_are_numbered(
    inout: u64,
    group: u8,
    num: u8,
    len: usize,
    general: u64,
    bare: u64,
    with_integer: u64,
    both_ways: u64,
)
    requires
        inout % 0x2000_0000 == 0,
        call_ensures(ioc, (inout, group, num, len), general),
        call_ensures(io, (group, num), bare),
        call_ensures(iowint, (group, num), with_integer),
        call_ensures(iowr_int, (group, num), both_ways),
    ensures
        general == inout + (len % 0x2000) * 0x1_0000 + group * 0x100 + num,
        bare == 0x2000_0000 + group * 0x100 + num,
        with_integer == 0x2004_0000 + group * 0x100 + num,
        both_ways == 0xc004_0000 + group * 0x100 + num,
{
    law_long_parameters_are_cut_off(inout, group, num, len);
    law_long_parameters_are_cut_off(0x2000_0000, group, num, 0);
    law_long_parameters_are_cut_off(0x2000_0000, group, num, 4);
    law_long_parameters_are_cut_off(0xc000_0000, group, num, 4);
}

/// The number of a request that hands in a record holds the size of the record.
pub proof fn law_records_are_handed_in<T>(group: u8, num: u8, request: u64)
    requires
        call_ensures(iow::<T>, (group, num), request),
        vstd::layout::size_of::<T>() < 0x2000,
    ensures
        request == 0x8000_0000 + vstd::layout::size_of::<T>() * 0x1_0000 + group * 0x100 + num,
{
    law_long_parameters_are_cut_off(
        0x8000_0000,
        group,
        num,
        vstd::layout::size_of::<T>() as usize,
    );
}

/// Numbers are written so that they can be read back from their digits, without
/// leading zeros. A digit is worth what it was made of.
pub proof fn law_numbers_are_written(
    digit: u8,
    one: &'static str,
    number: u64,
    digits: String,
    small: u32,
    hexadecimals: String,
)
    requires
        digit < 16,
        call_ensures(digit_text, (digit,), one),
        call_ensures(decimal, (number,), digits),
        call_ensures(hexadecimal, (small,), hexadecimals),
    ensures
        one@.len() == 1 && digit_worth(one@[0]) == digit,
        digits@.len() > 0 && worth(digits@, 10) == number,
        digits@[0] == '0' ==> digits@.len() == 1,
        forall|i: int| 0 <= i < digits@.len() ==> 0 <= digit_worth(#[trigger] digits@[i]) < 10,
        hexadecimals@.len() > 0 && worth(hexadecimals@, 16) == small,
        hexadecimals@[0] == '0' ==> hexadecimals@.len() == 1,
        forall|i: int|
            0 <= i < hexadecimals@.len() ==> 0 <= digit_worth(#[trigger] hexadecimals@[i]) < 16,
{
    law_written_numbers_read_back(number as nat, 10);
    law_written_numbers_read_back(small as nat, 16);
}

/// Joining puts one text behind the other, and splitting at a character takes a
/// text apart at its first one. Copies are what they are copies of.
pub proof fn law_texts_are_joined_split_and_copied(
    first: &str,
    second: &str,
    text: String,
    whole: &str,
    delimiter: char,
    parts: Option<(&str, &str)>,
    strings: &[String],
    copy: Vec<String>,
)
    requires
        call_ensures(joined, (first, second), text),
        call_ensures(split_once, (whole, delimiter), parts),
        call_ensures(copied, (strings,), copy),
    ensures
        text@ == first@ + second@,
        parts is None <==> !whole@.contains(delimiter),
        parts matches Some((before, after)) ==> whole@ == before@.push(delimiter) + after@
            && !before@.contains(delimiter),
        copy@.len() == strings@.len(),
        forall|i: int| 0 <= i < copy@.len() ==> (#[trigger] copy@[i])@ == strings@[i]@,
{
    law_split_is_at_the_first(whole@, delimiter);
    if let Some((before, after)) = parts {
        assert(whole@[before@.len() as int] == delimiter);
    }
    assert(texts(copy@).len() == copy@.len());
    assert forall|i: int| 0 <= i < copy@.len() implies (#[trigger] copy@[i])@ == strings@[i]@ by {
        assert(texts(copy@)[i] == texts(strings@)[i]);
    }
}

/// Steps are taken one by one: the first that is left is pending, a success leaves
/// the rest, a failure leaves none, and they are complete when all succeeded.
pub proof fn law_steps_are_taken<S>(
    steps: Vec<S>,
    begun: Sequence<S>,
    sequence: &mut Sequence<S>,
    step: Option<&S>,
    complete: bool,
    success: bool,
)
    requires
        call_ensures(Sequence::<S>::new, (steps,), begun),
        call_ensures(Sequence::<S>::pending, (sequence,), step),
        call_ensures(Sequence::<S>::complete, (sequence,), complete),
        call_ensures(Sequence::<S>::report, (sequence, success), ()),
        old(sequence)@.taken <= old(sequence)@.steps.len(),
    ensures
        begun@.steps == steps@ && begun@.left() == steps@ && begun@.taken == 0 && !begun@.failed,
        step is None <==> old(sequence)@.left().len() == 0,
        step matches Some(now) ==> *now == old(sequence)@.left()[0],
        complete <==> !old(sequence)@.failed && old(sequence)@.taken == old(sequence)@.steps.len(),
        final(sequence)@.steps == old(sequence)@.steps,
        step is None ==> final(sequence)@ == old(sequence)@,
        step is Some && success ==> final(sequence)@.left() == old(sequence)@.left().skip(1)
            && final(sequence)@.taken == old(sequence)@.taken + 1 && !final(sequence)@.failed,
        step is Some && !success ==> final(sequence)@.left().len() == 0 && final(sequence)@.failed,
{
    if step is Some && success {
        assert(final(sequence)@.left() =~= old(sequence)@.left().skip(1));
    }
}

} // verus!
