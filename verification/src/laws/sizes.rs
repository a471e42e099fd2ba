//! How sizes are read.

use vstd::prelude::*;

use crate::backends::{emerge, eopkg};
use crate::form;
use crate::size;
use crate::text::{self, Text};

verus! {

/// A unit stands for a power of two.
pub proof fn units_are_powers_of_two()
    ensures
        emerge::unit_spec("B"@) == Some(0u8) && emerge::unit_spec("bytes"@) == Some(0u8),
        emerge::unit_spec("KiB"@) == Some(10u8) && emerge::unit_spec("KB"@) == Some(10u8)
            && emerge::unit_spec("kB"@) == Some(10u8),
        emerge::unit_spec("MiB"@) == Some(20u8) && emerge::unit_spec("MB"@) == Some(20u8),
        emerge::unit_spec("GiB"@) == Some(30u8) && emerge::unit_spec("GB"@) == Some(30u8),
        eopkg::unit_spec("B"@) == Some(0u8) && eopkg::unit_spec("bytes"@) == Some(0u8),
        eopkg::unit_spec("KiB"@) == Some(10u8) && eopkg::unit_spec("KB"@) == Some(10u8),
        eopkg::unit_spec("MiB"@) == Some(20u8) && eopkg::unit_spec("MB"@) == Some(20u8),
        eopkg::unit_spec("GiB"@) == Some(30u8) && eopkg::unit_spec("GB"@) == Some(30u8),
{
    reveal_strlit("B");
    reveal_strlit("bytes");
    reveal_strlit("KiB");
    reveal_strlit("KB");
    reveal_strlit("kB");
    reveal_strlit("MiB");
    reveal_strlit("MB");
    reveal_strlit("GiB");
    reveal_strlit("GB");
    assert("B"@.len() == 1);
    assert("bytes"@.len() == 5);
    assert("KiB"@.len() == 3);
    assert("KB"@.len() == 2);
    assert("kB"@.len() == 2);
    assert("MiB"@.len() == 3);
    assert("MB"@.len() == 2);
    assert("GiB"@.len() == 3);
    assert("GB"@.len() == 2);
    assert("KiB"@[0] == 'K');
    assert("MiB"@[0] == 'M');
    assert("GiB"@[0] == 'G');
    assert("KB"@[0] == 'K');
    assert("kB"@[0] == 'k');
    assert("MB"@[0] == 'M');
    assert("GB"@[0] == 'G');
}

/// A whole number of units is that many times the unit, where a number of 53
/// bits holds it.
pub proof fn whole_sizes_are_read(
    digits: Seq<char>,
    unit: Seq<char>,
    shift: u8,
    f: spec_fn(Seq<char>) -> Option<u8>,
)
    requires
        digits.len() > 0 && text::all_digits(digits),
        text::is_word(unit),
        f(unit) == Some(shift),
        size::doubled(text::digits_value(digits), shift as nat) < size::doubled(1, 53),
    ensures
        size::size_spec(digits + " "@ + unit, f) == Some(
            size::doubled(text::digits_value(digits), shift as nat) as u64,
        ),
{
    assert(text::is_word(digits)) by {
        assert forall|i: int| 0 <= i < digits.len() implies !text::is_blank(#[trigger] digits[i]) by {
            assert(text::is_digit(digits[i]));
        }
    }
    form::spaced_two(digits, unit);
    form::spaced_words(seq![digits, unit]);
    lemma_nothing_is_replaced(digits, ""@);
    lemma_digits_are_a_number(digits);
    size::whole_sizes_are_exact(size::doubled(text::digits_value(digits), shift as nat));
    reveal_with_fuel(size::pow10, 2);
    let n = text::digits_value(digits);
    assert(n * size::pow10(0) == n) by (nonlinear_arith)
        requires
            size::pow10(0) == 1,
    ;
}

proof fn lemma_nothing_is_replaced(digits: Seq<char>, with: Seq<char>)
    requires
        text::all_digits(digits),
    ensures
        digits.replace(',', with) == digits,
    decreases digits.len(),
{
    if digits.len() > 0 {
        assert(text::is_digit(digits[digits.len() - 1]));
        let front = digits.drop_last();
        assert forall|i: int| 0 <= i < front.len() implies text::is_digit(#[trigger] front[i]) by {
            assert(front[i] == digits[i]);
        }
        lemma_nothing_is_replaced(front, with);
        assert(front.push(digits.last()) =~= digits);
    } else {
        assert(digits =~= seq![]);
    }
}

proof fn lemma_digits_are_a_number(digits: Seq<char>)
    requires
        digits.len() > 0 && text::all_digits(digits),
    ensures
        size::decimal_spec(digits) == Some(
            size::Decimal::Finite { negative: false, digits, exponent: 0 },
        ),
{
    reveal_strlit("nan");
    reveal_strlit("inf");
    reveal_strlit("infinity");
    reveal_strlit("eE");
    reveal_strlit(".");
    assert(text::is_digit(digits[0]));
    let word = digits.lower();
    assert(word[0] == digits[0]);
    assert("nan"@[0] == 'n' && "inf"@[0] == 'i' && "infinity"@[0] == 'i');
    let set = "eE"@;
    text::lemma_find_set(digits, set, true);
    let end = text::find_set(digits, set, true) as int;
    if end < digits.len() {
        assert(text::is_digit(digits[end]));
        assert(set.contains(digits[end]));
    }
    assert(digits.take(end) =~= digits);
    if digits.contains('.') {
        let i = choose|i: int| 0 <= i < digits.len() && digits[i] == '.';
        assert(text::is_digit(digits[i]));
    }
    form::no_cut_is_found(digits, "."@);
    assert(digits + Seq::<char>::empty() =~= digits);
}

} // verus!
