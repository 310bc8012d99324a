//! Decimal rendering of project ids, and the texts that name a missing
//! project.
use vstd::prelude::*;
use vstd::string::*;

verus! {

/// The character of a decimal digit.
pub open spec fn digit_char(d: nat) -> char {
    if d == 0 {
        '0'
    } else if d == 1 {
        '1'
    } else if d == 2 {
        '2'
    } else if d == 3 {
        '3'
    } else if d == 4 {
        '4'
    } else if d == 5 {
        '5'
    } else if d == 6 {
        '6'
    } else if d == 7 {
        '7'
    } else if d == 8 {
        '8'
    } else {
        '9'
    }
}

/// The value of a decimal digit character, and -1 for any other character.
pub open spec fn digit_value(c: char) -> int {
    if c == '0' {
        0
    } else if c == '1' {
        1
    } else if c == '2' {
        2
    } else if c == '3' {
        3
    } else if c == '4' {
        4
    } else if c == '5' {
        5
    } else if c == '6' {
        6
    } else if c == '7' {
        7
    } else if c == '8' {
        8
    } else if c == '9' {
        9
    } else {
        -1
    }
}

/// The decimal digits of a natural number, most significant first, without
/// leading zeros.
pub open spec fn natural_digits(n: nat) -> Seq<char>
    decreases n,
{
    if n < 10 {
        seq![digit_char(n)]
    } else {
        natural_digits(n / 10).push(digit_char(n % 10))
    }
}

/// The decimal form of an integer: a minus sign before negative numbers.
pub open spec fn decimal(i: int) -> Seq<char> {
    if i < 0 {
        seq!['-'] + natural_digits((-i) as nat)
    } else {
        natural_digits(i as nat)
    }
}

/// The number that a sequence of digits spells.
pub open spec fn digits_value(s: Seq<char>) -> int
    decreases s.len(),
{
    if s.len() == 0 {
        0
    } else {
        digits_value(s.drop_last()) * 10 + digit_value(s.last())
    }
}

/// The number that a decimal form spells.
pub open spec fn decimal_value(s: Seq<char>) -> int {
    if s.len() > 0 && s[0] == '-' {
        -digits_value(s.drop_first())
    } else {
        digits_value(s)
    }
}

/// A digit's character reads back as the digit.
pub proof fn lemma_digit_round_trip(d: nat)
    requires
        d < 10,
    ensures
        digit_value(digit_char(d)) == d,
{
}

/// Reading back the digits of `n` gives `n`, and they hold at least one
/// character, all of them digits.
pub proof fn lemma_natural_digits_round_trip(n: nat)
    ensures
        digits_value(natural_digits(n)) == n,
        natural_digits(n).len() >= 1,
        forall|k: int| 0 <= k < natural_digits(n).len() ==> 0 <= #[trigger] digit_value(natural_digits(n)[k]) <= 9,
    decreases n,
{
    let s = natural_digits(n);
    if n < 10 {
        lemma_digit_round_trip(n);
        assert(s.drop_last() =~= Seq::<char>::empty());
        assert(digits_value(s) == digits_value(s.drop_last()) * 10 + digit_value(s.last()));
    } else {
        lemma_natural_digits_round_trip(n / 10);
        assert(s.drop_last() =~= natural_digits(n / 10));
        vstd::arithmetic::div_mod::lemma_fundamental_div_mod(n as int, 10);
        lemma_digit_round_trip(n % 10);
        assert(digits_value(s) == digits_value(s.drop_last()) * 10 + digit_value(s.last()));
        assert forall|k: int| 0 <= k < s.len() implies 0 <= #[trigger] digit_value(s[k]) <= 9 by {
            if k < s.len() - 1 {
                assert(s[k] == natural_digits(n / 10)[k]);
            }
        }
    }
}

/// Reading back the decimal form of any integer gives that integer.
pub proof fn lemma_decimal_round_trip(i: int)
    ensures
        decimal_value(decimal(i)) == i,
{
    if i < 0 {
        let m = (-i) as nat;
        lemma_natural_digits_round_trip(m);
        assert((seq!['-'] + natural_digits(m)).drop_first() =~= natural_digits(m));
    } else {
        lemma_natural_digits_round_trip(i as nat);
        assert(digit_value(natural_digits(i as nat)[0]) >= 0);
    }
}

/// Two integers with the same decimal form are equal.
pub proof fn lemma_decimal_injective(a: int, b: int)
    ensures
        decimal(a) == decimal(b) ==> a == b,
{
    lemma_decimal_round_trip(a);
    lemma_decimal_round_trip(b);
}

/// The text of one decimal digit.
fn digit_text(d: u64) -> (text: &'static str)
    requires
        d < 10,
    ensures
        text@ == seq![digit_char(d as nat)],
{
    if d == 0 {
        proof { reveal_strlit("0"); }
        "0"
    } else if d == 1 {
        proof { reveal_strlit("1"); }
        "1"
    } else if d == 2 {
        proof { reveal_strlit("2"); }
        "2"
    } else if d == 3 {
        proof { reveal_strlit("3"); }
        "3"
    } else if d == 4 {
        proof { reveal_strlit("4"); }
        "4"
    } else if d == 5 {
        proof { reveal_strlit("5"); }
        "5"
    } else if d == 6 {
        proof { reveal_strlit("6"); }
        "6"
    } else if d == 7 {
        proof { reveal_strlit("7"); }
        "7"
    } else if d == 8 {
        proof { reveal_strlit("8"); }
        "8"
    } else {
        proof { reveal_strlit("9"); }
        "9"
    }
}

/// Appends the decimal digits of `n` to `text`.
fn append_natural(text: &mut String, n: u64)
    ensures
        final(text)@ == old(text)@ + natural_digits(n as nat),
    decreases n,
{
    if n >= 10 {
        append_natural(text, n / 10);
    }
    let ghost before = text@;
    text.append(digit_text(n % 10));
    proof {
        if n >= 10 {
            assert(natural_digits(n as nat) == natural_digits((n / 10) as nat).push(digit_char((n % 10) as nat)));
        }
        assert(text@ =~= old(text)@ + natural_digits(n as nat));
    }
}

/// Appends the decimal form of `i` to `text`.
pub fn append_decimal(text: &mut String, i: i32)
    ensures
        final(text)@ == old(text)@ + decimal(i as int),
{
    if i < 0 {
        proof { reveal_strlit("-"); }
        text.append("-");
        let magnitude: i64 = 0i64 - (i as i64);
        append_natural(text, magnitude as u64);
        assert(text@ =~= old(text)@ + decimal(i as int));
    } else {
        append_natural(text, i as u64);
    }
}

/// The decimal form of `i`.
pub fn decimal_text(i: i32) -> (text: String)
    ensures
        text@ == decimal(i as int),
{
    let mut text = String::new();
    append_decimal(&mut text, i);
    assert(text@ =~= decimal(i as int));
    text
}

/// The three requests that can find no project with the id they name.
#[derive(Debug, PartialEq, Eq, Clone, Copy)]
pub enum MissingProject {
    Lookup,
    Update,
    Delete,
}

/// What follows the id in the text that answers a request for a missing
/// project.
pub open spec fn missing_suffix(kind: MissingProject) -> Seq<char> {
    match kind {
        MissingProject::Lookup => " not found"@,
        MissingProject::Update => " not found to update"@,
        MissingProject::Delete => " not found to delete"@,
    }
}

/// The text that answers a request for the missing project `project_id`.
pub open spec fn not_found_text(project_id: i32, kind: MissingProject) -> Seq<char> {
    "Project with ID "@ + decimal(project_id as int) + missing_suffix(kind)
}

/// Renders the text that answers a request for the missing project
/// `project_id`.
pub fn not_found_message(project_id: i32, kind: MissingProject) -> (message: String)
    ensures
        message@ == not_found_text(project_id, kind),
{
    let mut message = String::from_str("Project with ID ");
    append_decimal(&mut message, project_id);
    match kind {
        MissingProject::Lookup => message.append(" not found"),
        MissingProject::Update => message.append(" not found to update"),
        MissingProject::Delete => message.append(" not found to delete"),
    }
    assert(message@ =~= not_found_text(project_id, kind));
    message
}

} // verus!
