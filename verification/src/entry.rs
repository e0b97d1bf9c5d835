//! The address field: a `u16` edited as the decimal string that writes it.
//!
//! Every edit takes the numeral of the current value, changes that string, and
//! reads the string back. An edit whose string no longer reads as a `u16` is
//! dropped, so the field always holds a valid address.

use vstd::prelude::*;
use crate::numeral::{
    all_decimal_digits, decimal, decimal_value, digit_value, is_decimal_digit, lemma_decimal_len,
    lemma_decimal_value_of_decimal,
};

verus! {

/// The widest string the field takes.
pub const ADDRESS_WIDTH: usize = 5;

/// One text event of a frame: a typed character or the backspace key.
#[derive(Clone, Copy, Debug, PartialEq, Eq, Structural)]
pub enum TextChar {
    Char(char),
    Back,
}

/// The field after `c` was typed. A decimal digit is written behind the
/// numeral of `addr` if that numeral has room left, and the longer string is
/// read back; where it does not fit into a `u16`, and for every other
/// character, the field keeps its value.
pub open spec fn append_digit_spec(addr: u16, c: char) -> u16 {
    let text = decimal(addr as nat);
    if is_decimal_digit(c) && text.len() < ADDRESS_WIDTH && decimal_value(text.push(c)) <= u16::MAX {
        decimal_value(text.push(c)) as u16
    } else {
        addr
    }
}

/// Whether the numeral of `addr` without its last character still reads as a
/// number, that is, whether it is not empty.
pub open spec fn backspace_commits(addr: u16) -> bool {
    decimal(addr as nat).drop_last().len() > 0
}

/// The field after a backspace: what the numeral of `addr` without its last
/// character reads as, and zero where nothing is left of it.
pub open spec fn backspace_spec(addr: u16) -> u16 {
    if backspace_commits(addr) {
        decimal_value(decimal(addr as nat).drop_last()) as u16
    } else {
        0
    }
}

/// The field after the text events of one frame, taken in order. A backspace
/// that leaves a readable string ends the frame's editing: the events behind
/// it are dropped.
pub open spec fn type_text(addr: u16, text: Seq<TextChar>) -> u16
    decreases text.len(),
{
    if text.len() == 0 {
        addr
    } else {
        match text[0] {
            TextChar::Char(c) => type_text(append_digit_spec(addr, c), text.drop_first()),
            TextChar::Back => if backspace_commits(addr) {
                backspace_spec(addr)
            } else {
                type_text(backspace_spec(addr), text.drop_first())
            },
        }
    }
}

/// The text event of typing `c`.
pub open spec fn typed_char(c: char) -> TextChar {
    TextChar::Char(c)
}

/// The text events of typing `chars` one after the other.
pub open spec fn typed(chars: Seq<char>) -> Seq<TextChar> {
    Seq::new(chars.len(), |i: int| typed_char(chars[i]))
}

/// Writing a digit behind the numeral of `n` multiplies by ten and adds the
/// digit.
pub proof fn lemma_decimal_push_value(n: nat, c: char)
    requires
        is_decimal_digit(c),
    ensures
        decimal_value(decimal(n).push(c)) == 10 * n + digit_value(c),
{
    let s = decimal(n).push(c);
    assert(s.drop_last() =~= decimal(n));
    lemma_decimal_value_of_decimal(n);
}

/// Typing a character, in numbers: a digit `d` turns `addr` into
/// `10 * addr + d` where `addr` is below 10000 and the result is a `u16`, and
/// nothing else changes the field.
pub proof fn lemma_append_digit(addr: u16, c: char)
    ensures
        append_digit_spec(addr, c) == if is_decimal_digit(c) && addr < 10_000 && 10 * addr
            + digit_value(c) <= u16::MAX {
            (10 * addr + digit_value(c)) as u16
        } else {
            addr
        },
{
    lemma_decimal_len(addr as nat);
    if is_decimal_digit(c) {
        lemma_decimal_push_value(addr as nat, c);
    }
}

/// Backspace, in numbers: the field is divided by ten, and the edit commits
/// exactly when the field had two digits or more.
pub proof fn lemma_backspace(addr: u16)
    ensures
        backspace_spec(addr) == addr / 10,
        backspace_commits(addr) <==> addr >= 10,
{
    lemma_decimal_len(addr as nat);
    if addr >= 10 {
        assert(decimal(addr as nat).drop_last() =~= decimal(addr as nat / 10));
        lemma_decimal_value_of_decimal(addr as nat / 10);
    }
}

/// Typing one more character behind characters is typing it into the field
/// that they left.
pub proof fn lemma_type_one_more(addr: u16, chars: Seq<char>, c: char)
    ensures
        type_text(addr, typed(chars.push(c))) == append_digit_spec(
            type_text(addr, typed(chars)),
            c,
        ),
    decreases chars.len(),
{
    let longer = typed(chars.push(c));
    if chars.len() == 0 {
        assert(longer.drop_first() =~= Seq::<TextChar>::empty());
        assert(type_text(append_digit_spec(addr, c), longer.drop_first()) == append_digit_spec(
            addr,
            c,
        ));
    } else {
        let next = append_digit_spec(addr, chars[0]);
        assert(longer.drop_first() =~= typed(chars.drop_first().push(c)));
        assert(typed(chars).drop_first() =~= typed(chars.drop_first()));
        lemma_type_one_more(next, chars.drop_first(), c);
    }
}

/// Digits typed into an empty field read back as the number they write, as
/// long as that number is a `u16`. Leading zeros count for nothing, so more
/// than five digits may be typed.
pub proof fn lemma_typed_digits_value(digits: Seq<char>)
    requires
        all_decimal_digits(digits),
        decimal_value(digits) <= u16::MAX,
    ensures
        type_text(0, typed(digits)) == decimal_value(digits),
    decreases digits.len(),
{
    if digits.len() == 0 {
        assert(typed(digits) =~= Seq::<TextChar>::empty());
    } else {
        let front = digits.drop_last();
        let c = digits.last();
        assert(digits =~= front.push(c));
        lemma_typed_digits_value(front);
        lemma_type_one_more(0, front, c);
        lemma_append_digit(decimal_value(front) as u16, c);
    }
}

/// Whatever is typed, one character changes the field into the number that
/// its numeral with the character behind it writes, or not at all.
pub proof fn lemma_append_digit_or_nothing(addr: u16, c: char)
    ensures
        append_digit_spec(addr, c) == addr || (is_decimal_digit(c) && append_digit_spec(addr, c)
            == decimal_value(decimal(addr as nat).push(c))),
{
}

/// The field after `c` was typed into it.
pub fn append_digit(addr: u16, c: char) -> (next: u16)
    ensures
        next == append_digit_spec(addr, c),
{
    proof {
        lemma_append_digit(addr, c);
    }
    if '0' <= c && c <= '9' && addr < 10_000 {
        let digit: u32 = c as u32 - '0' as u32;
        let value: u32 = 10 * (addr as u32) + digit;
        if value <= 65_535 {
            return value as u16;
        }
    }
    addr
}

/// The field after a backspace, and whether the edit commits, which ends the
/// frame's editing.
pub fn backspace(addr: u16) -> (edit: (u16, bool))
    ensures
        edit.0 == backspace_spec(addr),
        edit.1 == backspace_commits(addr),
{
    proof {
        lemma_backspace(addr);
    }
    (addr / 10, addr >= 10)
}

/// The field after the text events of one frame.
pub fn edit_address(addr: u16, text: &Vec<TextChar>) -> (next: u16)
    ensures
        next == type_text(addr, text@),
{
    let mut current: u16 = addr;
    let mut i: usize = 0;
    assert(text@.skip(0) =~= text@);
    while i < text.len()
        invariant
            i <= text.len(),
            type_text(addr, text@) == type_text(current, text@.skip(i as int)),
        decreases text.len() - i,
    {
        let rest = Ghost(text@.skip(i as int));
        assert(rest@.drop_first() =~= text@.skip(i as int + 1));
        assert(rest@[0] == text@[i as int]);
        match text[i] {
            TextChar::Char(c) => {
                current = append_digit(current, c);
            },
            TextChar::Back => {
                let (shorter, commits) = backspace(current);
                if commits {
                    return shorter;
                }
                current = shorter;
            },
        }
        i = i + 1;
    }
    current
}

} // verus!

