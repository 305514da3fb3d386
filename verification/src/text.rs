use vstd::prelude::*;
use vstd::string::StringExecFns;

verus! {

/// `text` is what `value` displays as.
pub open spec fn displays_as<D: std::fmt::Display>(value: D, text: Seq<char>) -> bool {
    exists|s: String|
        #[trigger] vstd::string::to_string_from_display_ensures(&value, s) && s@ == text
}

/// The character of one decimal digit.
pub open spec fn digit_char(digit: nat) -> char {
    (48 + digit) as char
}

/// `n` in decimal notation, without leading zeros.
pub open spec fn decimal_text(n: nat) -> Seq<char>
    decreases n,
{
    if n < 10 {
        seq![digit_char(n)]
    } else {
        decimal_text(n / 10).push(digit_char(n % 10))
    }
}

/// A string that holds one decimal digit.
fn digit(n: u64) -> (s: &'static str)
    requires
        n < 10,
    ensures
        s@ == seq![digit_char(n as nat)],
{
    proof {
        reveal_strlit("0");
        reveal_strlit("1");
        reveal_strlit("2");
        reveal_strlit("3");
        reveal_strlit("4");
        reveal_strlit("5");
        reveal_strlit("6");
        reveal_strlit("7");
        reveal_strlit("8");
        reveal_strlit("9");
    }
    match n {
        0 => "0",
        1 => "1",
        2 => "2",
        3 => "3",
        4 => "4",
        5 => "5",
        6 => "6",
        7 => "7",
        8 => "8",
        _ => "9",
    }
}

/// Writes `n` in decimal notation.
pub(crate) fn decimal(n: u64) -> (s: String)
    ensures
        s@ == decimal_text(n as nat),
    decreases n,
{
    if n < 10 {
        digit(n).to_string()
    } else {
        let mut s = decimal(n / 10);
        s.append(digit(n % 10));
        s
    }
}

/// Puts two texts one behind the other.
pub(crate) fn join(first: &str, second: &str) -> (s: String)
    ensures
        s@ == first@ + second@,
{
    let mut s = first.to_string();
    s.append(second);
    s
}

/// Numbers are written digit by digit: a digit behind the text of a number is the text of ten times
/// that number plus the digit, and a number of one digit is written as that digit.
pub proof fn lemma_decimal_text_digit_by_digit(n: nat, digit: nat)
    requires
        digit < 10,
    ensures
        decimal_text(digit) == seq![('0' as u32 + digit) as char],
        n > 0 ==> decimal_text(10 * n + digit) == decimal_text(n).push(
            ('0' as u32 + digit) as char,
        ),
{
    assert((10 * n + digit) / 10 == n);
    assert((10 * n + digit) % 10 == digit);
}

/// Different numbers are written differently, and no number is written with a zero in front or
/// without any digit.
pub proof fn lemma_decimal_text_tells_numbers_apart(a: nat, b: nat)
    ensures
        decimal_text(a).len() > 0,
        a > 0 ==> decimal_text(a)[0] != '0',
        decimal_text(a) == decimal_text(b) ==> a == b,
    decreases a + b,
{
    if a >= 10 {
        lemma_decimal_text_tells_numbers_apart(a / 10, b / 10);
    }
    if b >= 10 {
        lemma_decimal_text_tells_numbers_apart(b / 10, a / 10);
    }
    if decimal_text(a) == decimal_text(b) {
        assert(decimal_text(a).last() == digit_char(a % 10));
        assert(decimal_text(b).last() == digit_char(b % 10));
        if a >= 10 && b >= 10 {
            assert(decimal_text(a).drop_last() =~= decimal_text(a / 10));
            assert(decimal_text(b).drop_last() =~= decimal_text(b / 10));
        }
    }
}

/// A value displays as a text exactly if that is the text of a string that its `to_string` can
/// give.
pub proof fn lemma_displayed_text<D: std::fmt::Display>(value: D, text: Seq<char>, shown: String)
    ensures
        vstd::string::to_string_from_display_ensures(&value, shown) ==> displays_as(value, shown@),
        displays_as(value, text) ==> exists|s: String|
            #[trigger] vstd::string::to_string_from_display_ensures(&value, s) && s@ == text,
{
}

} // verus!
