//! Text: numbers written out, strings joined and split.

use vstd::prelude::*;

verus! {

/// The characters of a decimal or hexadecimal digit.
pub open spec fn digit_char(digit: nat) -> char {
    if digit < 10 {
        ('0' as u32 + digit) as char
    } else {
        ('a' as u32 + (digit - 10)) as char
    }
}

/// A number written out in a base, without leading zeros.
pub open spec fn written(number: nat, base: nat) -> Seq<char>
    decreases number,
{
    if base < 2 || number < base {
        seq![digit_char(number)]
    } else {
        proof {
            vstd::arithmetic::div_mod::lemma_div_decreases(number as int, base as int);
        }
        written(number / base, base).push(digit_char(number % base))
    }
}

/// The text of an optional string.
pub open spec fn optional_text(value: Option<String>) -> Option<Seq<char>> {
    match value {
        Some(text) => Some(text@),
        None => None,
    }
}

/// The texts of a list of strings.
pub open spec fn texts(strings: Seq<String>) -> Seq<Seq<char>> {
    strings.map_values(|s: String| s@)
}

/// The texts of a list of lists of strings.
pub open spec fn text_lists(lists: Seq<Vec<String>>) -> Seq<Seq<Seq<char>>> {
    lists.map_values(|list: Vec<String>| texts(list@))
}

/// The digit's text, in lower case.
pub fn digit_text(digit: u8) -> (text: &'static str)
    requires
        digit < 16,
    ensures
        text@ == seq![digit_char(digit as nat)],
{
    let text = match digit {
        0 => "0",
        1 => "1",
        2 => "2",
        3 => "3",
        4 => "4",
        5 => "5",
        6 => "6",
        7 => "7",
        8 => "8",
        9 => "9",
        10 => "a",
        11 => "b",
        12 => "c",
        13 => "d",
        14 => "e",
        _ => "f",
    };
    proof {
        reveal_strlit("0");
        reveal_strlit("1");
        reveal_strlit("2");
        reveal_strlit("3");
        reveal_strlit("4");
        reveal_strlit("5");
        reveal_strlit("6");
        reveal_strlit("7");
        reveal_strlit("8");
        reveal_strlit("9");
        reveal_strlit("a");
        reveal_strlit("b");
        reveal_strlit("c");
        reveal_strlit("d");
        reveal_strlit("e");
        reveal_strlit("f");
        assert(text@ =~= seq![digit_char(digit as nat)]);
    }
    text
}

/// Writes a number out in decimal.
pub fn decimal(number: u64) -> (text: String)
    ensures
        text@ == written(number as nat, 10),
    decreases number,
{
    if number < 10 {
        digit_text(number as u8).to_owned()
    } else {
        let mut text = decimal(number / 10);
        text.append(digit_text((number % 10) as u8));
        assert(text@ =~= written(number as nat, 10));
        text
    }
}

/// Writes a number out in lower-case hexadecimal.
pub fn hexadecimal(number: u32) -> (text: String)
    ensures
        text@ == written(number as nat, 16),
    decreases number,
{
    if number < 16 {
        digit_text(number as u8).to_owned()
    } else {
        let mut text = hexadecimal(number / 16);
        text.append(digit_text((number % 16) as u8));
        assert(text@ =~= written(number as nat, 16));
        text
    }
}

/// One text after another.
pub fn joined(first: &str, second: &str) -> (text: String)
    ensures
        text@ == first@ + second@,
{
    let mut text = first.to_owned();
    text.append(second);
    text
}

/// How many characters stand before the first occurrence of a character, or
/// how many there are when it does not occur.
pub open spec fn first_at(text: Seq<char>, delimiter: char) -> nat
    decreases text.len(),
{
    if text.len() == 0 || text[0] == delimiter {
        0
    } else {
        1 + first_at(text.drop_first(), delimiter)
    }
}

/// What stands before and after the first occurrence of a character.
pub open spec fn split(text: Seq<char>, delimiter: char) -> Option<(Seq<char>, Seq<char>)> {
    let at = first_at(text, delimiter) as int;
    if at < text.len() {
        Some((text.take(at), text.skip(at + 1)))
    } else {
        None
    }
}

/// Splitting finds the first occurrence, and fails only where there is none.
pub proof fn law_split_is_at_the_first(text: Seq<char>, delimiter: char)
    ensures
        match split(text, delimiter) {
            Some((before, after)) => text == before.push(delimiter) + after && !before.contains(
                delimiter,
            ),
            None => !text.contains(delimiter),
        },
{
    lemma_first_at(text, delimiter);
    let at = first_at(text, delimiter) as int;
    if at < text.len() {
        assert(text =~= text.take(at).push(delimiter) + text.skip(at + 1));
    }
}

/// A text without the character, the character, and any other text: splitting
/// that gives back the two.
pub proof fn law_split_undoes_joining(before: Seq<char>, delimiter: char, after: Seq<char>)
    requires
        !before.contains(delimiter),
    ensures
        split(before.push(delimiter) + after, delimiter) == Some((before, after)),
{
    let text = before.push(delimiter) + after;
    lemma_first_at(text, delimiter);
    let at = first_at(text, delimiter) as int;
    assert(text[before.len() as int] == delimiter);
    if at < before.len() {
        assert(text[at] == before[at]);
    }
    assert(at == before.len());
    assert(text.take(at) =~= before);
    assert(text.skip(at + 1) =~= after);
}

proof fn lemma_first_at(text: Seq<char>, delimiter: char)
    ensures
        first_at(text, delimiter) <= text.len(),
        first_at(text, delimiter) < text.len() ==> text[first_at(text, delimiter) as int]
            == delimiter,
        forall|i: int| 0 <= i < first_at(text, delimiter) ==> text[i] != delimiter,
    decreases text.len(),
{
    if text.len() != 0 && text[0] != delimiter {
        let rest = text.drop_first();
        lemma_first_at(rest, delimiter);
        assert forall|i: int| 0 <= i < first_at(text, delimiter) implies text[i] != delimiter by {
            if i > 0 {
                assert(text[i] == rest[i - 1]);
            }
        }
    }
}

/// Splits a text at the first occurrence of a character, which belongs to
/// neither part.
pub fn split_once(text: &str, delimiter: char) -> (parts: Option<(&str, &str)>)
    ensures
        match parts {
            Some((before, after)) => split(text@, delimiter) == Some((before@, after@)),
            None => split(text@, delimiter) is None,
        },
{
    let length: usize = text.unicode_len();
    let mut at: usize = 0;
    let mut found: bool = false;
    for c in chars: text.chars()
        invariant
            chars.seq() == text@,
            length == text@.len(),
            found ==> at < text@.len() && text@[at as int] == delimiter,
            !found ==> at == chars.index(),
            forall|i: int| 0 <= i < at ==> text@[i] != delimiter,
    {
        if !found {
            if c == delimiter {
                found = true;
            } else {
                at += 1;
            }
        }
    }
    proof {
        lemma_first_at(text@, delimiter);
    }
    if found {
        let before = text.substring_char(0, at);
        let after = text.substring_char(at + 1, length);
        assert(before@ =~= text@.take(at as int));
        assert(after@ =~= text@.skip(at + 1));
        Some((before, after))
    } else {
        None
    }
}

/// The strings of a list, copied.
pub fn copied(strings: &[String]) -> (copy: Vec<String>)
    ensures
        texts(copy@) == texts(strings@),
{
    let mut copy: Vec<String> = Vec::new();
    for i in 0..strings.len()
        invariant
            copy@.len() == i,
            forall|j: int| 0 <= j < i ==> (#[trigger] copy@[j])@ == strings@[j]@,
    {
        copy.push(strings[i].clone());
    }
    assert(texts(copy@) =~= texts(strings@));
    copy
}

/// What a character is worth as a digit.
pub open spec fn digit_worth(digit: char) -> int {
    if '0' <= digit && digit <= '9' {
        digit as int - 48
    } else if 'a' <= digit && digit <= 'f' {
        digit as int - 87
    } else {
        -1
    }
}

/// The number that digits are worth together, read from left to right.
pub open spec fn worth(digits: Seq<char>, base: int) -> int
    decreases digits.len(),
{
    if digits.len() == 0 {
        0
    } else {
        base * worth(digits.drop_last(), base) + digit_worth(digits.last())
    }
}

/// A number that is written out can be read back: its digits are worth it, each
/// of them is one of the base, and none is wasted in front.
pub proof fn law_written_numbers_read_back(number: nat, base: nat)
    requires
        2 <= base <= 16,
    ensures
        written(number, base).len() > 0,
        worth(written(number, base), base as int) == number,
        forall|i: int|
            0 <= i < written(number, base).len() ==> 0 <= digit_worth(
                #[trigger] written(number, base)[i],
            ) < base,
        written(number, base)[0] == '0' ==> number == 0 && written(number, base).len() == 1,
    decreases number,
{
    let text = written(number, base);
    if number < base {
        assert(text.drop_last() =~= Seq::<char>::empty());
        assert(worth(text.drop_last(), base as int) == 0);
        assert(base as int * 0 == 0);
    } else {
        vstd::arithmetic::div_mod::lemma_div_decreases(number as int, base as int);
        vstd::arithmetic::div_mod::lemma_fundamental_div_mod(number as int, base as int);
        let rest = written(number / base, base);
        law_written_numbers_read_back(number / base, base);
        assert(text.drop_last() =~= rest);
        vstd::arithmetic::div_mod::lemma_mod_bound(number as int, base as int);
        assert forall|i: int| 0 <= i < text.len() implies 0 <= digit_worth(#[trigger] text[i])
            < base by {
            if i < rest.len() {
                assert(text[i] == rest[i]);
            }
        }
        assert(text[0] == rest[0]);
        assert(number / base > 0) by (nonlinear_arith)
            requires
                number >= base,
                base > 0,
        ;
    }
}

/// Taking strings as texts loses none of them and changes none.
pub proof fn law_texts_are_those_of_the_strings(strings: Seq<String>, lists: Seq<Vec<String>>)
    ensures
        texts(strings).len() == strings.len(),
        forall|i: int| 0 <= i < strings.len() ==> (#[trigger] texts(strings)[i]) == strings[i]@,
        text_lists(lists).len() == lists.len(),
        forall|i: int|
            0 <= i < lists.len() ==> (#[trigger] text_lists(lists)[i]).len() == lists[i]@.len(),
        forall|i: int, j: int|
            0 <= i < lists.len() && 0 <= j < lists[i]@.len() ==> (#[trigger] text_lists(
                lists,
            )[i][j]) == lists[i]@[j]@,
{
}

} // verus!
