//! Text as the relay reads it: ASCII case folding, prefixes, and the decimal
//! notation of an identifier.

use vstd::prelude::*;

verus! {

/// The ASCII lower-case form of a character: `A` to `Z` become `a` to `z`,
/// every other character is itself.
pub open spec fn ascii_lower(c: char) -> char {
    if 'A' as u32 <= c as u32 && c as u32 <= 'Z' as u32 {
        ((c as u32 + 32) as u8) as char
    } else {
        c
    }
}

/// A text with every character in its ASCII lower-case form.
pub open spec fn ascii_lowercase(text: Seq<char>) -> Seq<char> {
    Seq::new(text.len(), |i: int| ascii_lower(text[i]))
}

/// Whether two texts are the same once ASCII letters are folded to lower
/// case.
pub open spec fn same_ignoring_ascii_case(a: Seq<char>, b: Seq<char>) -> bool {
    ascii_lowercase(a) == ascii_lowercase(b)
}

/// `str::eq_ignore_ascii_case` of std. Its documentation calls it the same
/// as comparing the two `to_ascii_lowercase` copies, which map `A` to `Z` to
/// `a` to `z` and leave every other character alone; the contract says that
/// over the characters of both texts.
#[verifier::external_body]
pub(crate) fn eq_ignore_ascii_case(a: &str, b: &str) -> (same: bool)
    ensures
        same == same_ignoring_ascii_case(a@, b@),
{
    a.eq_ignore_ascii_case(b)
}

/// `str::starts_with` of std, with a string as the pattern: whether the
/// pattern matches at the start of the text, that is, whether the text
/// begins with the characters of `prefix`.
#[verifier::external_body]
pub(crate) fn starts_with(text: &str, prefix: &str) -> (found: bool)
    ensures
        found == prefix@.is_prefix_of(text@),
{
    text.starts_with(prefix)
}

/// The character that writes a digit, `0` to `9`.
pub open spec fn digit(d: nat) -> char {
    ((48 + d) as u8) as char
}

/// A number in decimal notation, without sign or leading zeros: `0` is
/// `"0"`.
pub open spec fn decimal(n: nat) -> Seq<char>
    decreases n,
{
    if n < 10 {
        seq![digit(n)]
    } else {
        decimal(n / 10).push(digit(n % 10))
    }
}

/// The decimal notation of a number has one character for a number below
/// ten and more than one for any other.
pub proof fn decimal_length(n: nat)
    ensures
        decimal(n).len() >= 1,
        n >= 10 ==> decimal(n).len() >= 2,
    decreases n,
{
    if n >= 10 {
        decimal_length(n / 10);
    }
}

/// Different numbers are written differently: the decimal notation tells
/// which number it stands for.
pub proof fn decimal_is_one_to_one(a: nat, b: nat)
    ensures
        decimal(a) == decimal(b) <==> a == b,
    decreases a,
{
    if decimal(a) == decimal(b) {
        decimal_length(a);
        decimal_length(b);
        if a < 10 && b < 10 {
            assert(decimal(a)[0] == decimal(b)[0]);
        } else if a >= 10 && b >= 10 {
            let front_a = decimal(a / 10);
            let front_b = decimal(b / 10);
            assert(front_a == front_a.push(digit(a % 10)).drop_last());
            assert(front_b == front_b.push(digit(b % 10)).drop_last());
            assert(digit(a % 10) == front_a.push(digit(a % 10)).last());
            assert(digit(b % 10) == front_b.push(digit(b % 10)).last());
            decimal_is_one_to_one(a / 10, b / 10);
        }
    }
}

fn digit_text(d: u64) -> (text: &'static str)
    requires
        d < 10,
    ensures
        text@ == seq![digit(d as nat)],
{
    proof {
        reveal_strlit("0");
        reveal_strlit("1");
        reveal_strlit("2");
        reveal_strlit("3");
        reveal_strlit("4");
        reveal_strlit("5");
        reveal_strlit("6");
        reveal_strlit("7");
        reveal_strlit("8");
        reveal_strlit("9");
    }
    let text = if d == 0 {
        "0"
    } else if d == 1 {
        "1"
    } else if d == 2 {
        "2"
    } else if d == 3 {
        "3"
    } else if d == 4 {
        "4"
    } else if d == 5 {
        "5"
    } else if d == 6 {
        "6"
    } else if d == 7 {
        "7"
    } else if d == 8 {
        "8"
    } else {
        "9"
    };
    assert(text@ =~= seq![digit(d as nat)]);
    text
}

fn push_decimal(n: u64, out: &mut String)
    ensures
        final(out)@ == old(out)@ + decimal(n as nat),
    decreases n,
{
    if n >= 10 {
        push_decimal(n / 10, out);
    }
    out.append(digit_text(n % 10));
}

/// Writes a number in decimal notation.
pub fn decimal_text(n: u64) -> (text: String)
    ensures
        text@ == decimal(n as nat),
{
    let mut text = String::new();
    push_decimal(n, &mut text);
    text
}

} // verus!
