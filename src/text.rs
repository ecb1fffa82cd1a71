//! Text helpers: conversions between `String` and character vectors, and
//! the textual renderings of integers used by views.
use vstd::prelude::*;
use vstd::string::StrSliceExecFns;

verus! {

/// The characters of the string in order.
pub(crate) fn chars_of(s: &str) -> (r: Vec<char>)
    ensures
        r@ == s@,
{
    let n = s.unicode_len();
    let mut r: Vec<char> = Vec::new();
    let mut i: usize = 0;
    while i < n
        invariant
            n == s@.len(),
            i <= n,
            r@ == s@.subrange(0, i as int),
        decreases n - i,
    {
        r.push(s.get_char(i));
        i = i + 1;
        assert(r@ =~= s@.subrange(0, i as int));
    }
    assert(r@ =~= s@);
    r
}

/// Relies on `String::push`: the character is appended.
#[verifier::external_body]
fn push_char(s: &mut String, c: char)
    ensures
        final(s)@ == old(s)@.push(c),
{
    s.push(c)
}

/// The string made of the given characters in order.
pub(crate) fn string_of(chars: &Vec<char>) -> (r: String)
    ensures
        r@ == chars@,
{
    let mut r = String::new();
    let mut i: usize = 0;
    while i < chars.len()
        invariant
            i <= chars@.len(),
            r@ == chars@.subrange(0, i as int),
        decreases chars@.len() - i,
    {
        push_char(&mut r, chars[i]);
        i = i + 1;
        assert(r@ =~= chars@.subrange(0, i as int));
    }
    assert(r@ =~= chars@);
    r
}

/// Concatenation of two strings.
pub fn concat(a: &str, b: &str) -> (r: String)
    ensures
        r@ == a@ + b@,
{
    let mut v = chars_of(a);
    let w = chars_of(b);
    let ghost start = v@;
    let mut i: usize = 0;
    while i < w.len()
        invariant
            i <= w@.len(),
            v@ == start + w@.subrange(0, i as int),
        decreases w@.len() - i,
    {
        v.push(w[i]);
        i = i + 1;
        proof {
            assert(w@.subrange(0, i as int) == w@.subrange(0, i - 1 as int).push(w@[i - 1]));
        }
    }
    proof {
        assert(w@.subrange(0, w@.len() as int) == w@);
    }
    string_of(&v)
}

/// The digit character for `d` (upper-case letters above nine).
pub open spec fn digit_char(d: nat) -> char {
    if d < 10 {
        seq!['0', '1', '2', '3', '4', '5', '6', '7', '8', '9'][d as int]
    } else {
        seq!['A', 'B', 'C', 'D', 'E', 'F'][d - 10]
    }
}

/// The digits of `n` in base `radix`, most significant first, without leading zeros
/// (zero is written as a single `0`).
pub open spec fn radix_text(n: nat, radix: nat) -> Seq<char>
    recommends
        2 <= radix <= 16,
    decreases n,
    via radix_text_decreases
{
    if radix < 2 || n < radix {
        seq![digit_char(n)]
    } else {
        radix_text(n / radix, radix).push(digit_char(n % radix))
    }
}

#[via_fn]
proof fn radix_text_decreases(n: nat, radix: nat) {
    if !(radix < 2 || n < radix) {
        assert(n / radix < n) by (nonlinear_arith)
            requires
                radix >= 2,
                n >= radix,
        ;
    }
}

/// The decimal text of a signed integer, with a leading `-` when it is negative.
pub open spec fn decimal_text(n: int) -> Seq<char> {
    if n < 0 {
        seq!['-'] + radix_text((-n) as nat, 10)
    } else {
        radix_text(n as nat, 10)
    }
}

fn digit(d: u8) -> (c: char)
    requires
        d < 16,
    ensures
        c == digit_char(d as nat),
{
    match d {
        0 => '0',
        1 => '1',
        2 => '2',
        3 => '3',
        4 => '4',
        5 => '5',
        6 => '6',
        7 => '7',
        8 => '8',
        9 => '9',
        10 => 'A',
        11 => 'B',
        12 => 'C',
        13 => 'D',
        14 => 'E',
        _ => 'F',
    }
}

/// The digits of `n` in base `radix` as characters.
pub fn radix_chars(n: u128, radix: u8) -> (r: Vec<char>)
    requires
        2 <= radix <= 16,
    ensures
        r@ == radix_text(n as nat, radix as nat),
    decreases n,
{
    if n < radix as u128 {
        let mut r: Vec<char> = Vec::new();
        r.push(digit(n as u8));
        r
    } else {
        assert(n / (radix as u128) < n) by (nonlinear_arith)
            requires
                radix >= 2,
                n >= radix,
        ;
        let mut r = radix_chars(n / (radix as u128), radix);
        r.push(digit((n % (radix as u128)) as u8));
        r
    }
}

/// The digits of `n` in base `radix`.
pub fn radix_string(n: u128, radix: u8) -> (r: String)
    requires
        2 <= radix <= 16,
    ensures
        r@ == radix_text(n as nat, radix as nat),
{
    string_of(&radix_chars(n, radix))
}

/// The decimal text of `n`.
pub fn decimal_string(n: i128) -> (r: String)
    ensures
        r@ == decimal_text(n as int),
{
    if n < 0 {
        let magnitude: u128 = ((-(n + 1)) as u128) + 1;
        let mut v: Vec<char> = Vec::new();
        v.push('-');
        let mut digits = radix_chars(magnitude, 10);
        v.append(&mut digits);
        string_of(&v)
    } else {
        radix_string(n as u128, 10)
    }
}

} // verus!
