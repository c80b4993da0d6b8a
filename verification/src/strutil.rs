//! Small executable helpers over `String` and `&str` that the rest of the
//! crate builds on: equality of string slices and pushing a single character.

use vstd::prelude::*;
use vstd::string::{StrSliceExecFns, StringExecFns};

verus! {

/// Equality of two string slices, stated over their character views.
pub fn str_eq(a: &str, b: &str) -> (r: bool)
    ensures
        r == (a@ == b@),
{
    let x: String = String::from_str(a);
    let y: String = String::from_str(b);
    x == y
}

/// Relies on `String::push`: appends exactly one character.
#[verifier::external_body]
pub fn push_char(s: &mut String, c: char)
    ensures
        final(s)@ == old(s)@.push(c),
{
    s.push(c);
}

/// The decimal digit character of a value below 10.
pub open spec fn spec_dec_char(n: int) -> char {
    if n == 0 {
        '0'
    } else if n == 1 {
        '1'
    } else if n == 2 {
        '2'
    } else if n == 3 {
        '3'
    } else if n == 4 {
        '4'
    } else if n == 5 {
        '5'
    } else if n == 6 {
        '6'
    } else if n == 7 {
        '7'
    } else if n == 8 {
        '8'
    } else {
        '9'
    }
}

/// The decimal digits of a nonnegative value, without leading zeros.
pub open spec fn spec_dec_str(n: int) -> Seq<char>
    decreases n,
    when n >= 0
{
    if n < 10 {
        seq![spec_dec_char(n)]
    } else {
        spec_dec_str(n / 10).push(spec_dec_char(n % 10))
    }
}

fn dec_char(n: u64) -> (c: char)
    requires
        n < 10,
    ensures
        c == spec_dec_char(n as int),
{
    match n {
        0 => '0',
        1 => '1',
        2 => '2',
        3 => '3',
        4 => '4',
        5 => '5',
        6 => '6',
        7 => '7',
        8 => '8',
        _ => '9',
    }
}

/// A value written out in decimal.
pub fn u64_to_dec_string(n: u64) -> (r: String)
    ensures
        r@ == spec_dec_str(n as int),
{
    let mut le: Vec<u64> = Vec::new();
    let ghost mut be: Seq<int> = Seq::empty();
    let mut rem: u64 = n;
    while rem >= 10
        invariant
            le@.len() == be.len(),
            forall|i: int| 0 <= i < be.len() ==> be[i] == le@[le@.len() - 1 - i] as int,
            forall|i: int| 0 <= i < le@.len() ==> le@[i] < 10,
            spec_dec_str(n as int) == spec_dec_str(rem as int) + be.map_values(
                |d: int| spec_dec_char(d),
            ),
        decreases rem,
    {
        let d = rem % 10;
        proof {
            assert(spec_dec_str(rem as int) == spec_dec_str(rem as int / 10).push(
                spec_dec_char(rem as int % 10),
            ));
            assert(spec_dec_str(rem as int / 10) + (seq![d as int] + be).map_values(
                |x: int| spec_dec_char(x),
            ) =~= spec_dec_str(rem as int) + be.map_values(|x: int| spec_dec_char(x)));
            be = seq![d as int] + be;
        }
        le.push(d);
        rem = rem / 10;
    }
    let mut s = String::new();
    push_char(&mut s, dec_char(rem));
    proof {
        assert(spec_dec_str(rem as int) =~= seq![spec_dec_char(rem as int)]);
        assert(s@ =~= seq![spec_dec_char(rem as int)] + be.map_values(
            |x: int| spec_dec_char(x),
        ).subrange(0, 0));
    }
    let k = le.len();
    let mut i: usize = 0;
    while i < k
        invariant
            i <= k,
            k == le@.len(),
            be.len() == k,
            forall|j: int| 0 <= j < be.len() ==> be[j] == le@[le@.len() - 1 - j] as int,
            forall|j: int| 0 <= j < le@.len() ==> le@[j] < 10,
            s@ == seq![spec_dec_char(rem as int)] + be.map_values(
                |x: int| spec_dec_char(x),
            ).subrange(0, i as int),
        decreases k - i,
    {
        push_char(&mut s, dec_char(le[k - 1 - i]));
        proof {
            assert(be[i as int] == le@[k - 1 - i as int] as int);
            assert(s@ =~= seq![spec_dec_char(rem as int)] + be.map_values(
                |x: int| spec_dec_char(x),
            ).subrange(0, i + 1));
        }
        i += 1;
    }
    proof {
        assert(be.map_values(|x: int| spec_dec_char(x)).subrange(0, be.len() as int) =~= be.map_values(
            |x: int| spec_dec_char(x),
        ));
        assert(s@ =~= spec_dec_str(rem as int) + be.map_values(|x: int| spec_dec_char(x)));
    }
    s
}

/// The ASCII-lowercase counterpart of a character; anything outside `A`-`Z`
/// is left as it is.
pub open spec fn spec_ascii_lower(c: char) -> char {
    if c == 'A' {
        'a'
    } else if c == 'B' {
        'b'
    } else if c == 'C' {
        'c'
    } else if c == 'D' {
        'd'
    } else if c == 'E' {
        'e'
    } else if c == 'F' {
        'f'
    } else if c == 'G' {
        'g'
    } else if c == 'H' {
        'h'
    } else if c == 'I' {
        'i'
    } else if c == 'J' {
        'j'
    } else if c == 'K' {
        'k'
    } else if c == 'L' {
        'l'
    } else if c == 'M' {
        'm'
    } else if c == 'N' {
        'n'
    } else if c == 'O' {
        'o'
    } else if c == 'P' {
        'p'
    } else if c == 'Q' {
        'q'
    } else if c == 'R' {
        'r'
    } else if c == 'S' {
        's'
    } else if c == 'T' {
        't'
    } else if c == 'U' {
        'u'
    } else if c == 'V' {
        'v'
    } else if c == 'W' {
        'w'
    } else if c == 'X' {
        'x'
    } else if c == 'Y' {
        'y'
    } else if c == 'Z' {
        'z'
    } else {
        c
    }
}

/// A character sequence with every ASCII capital lowered.
pub open spec fn spec_ascii_lowercase(s: Seq<char>) -> Seq<char> {
    s.map_values(|c: char| spec_ascii_lower(c))
}

fn ascii_lower(c: char) -> (r: char)
    ensures
        r == spec_ascii_lower(c),
{
    match c {
        'A' => 'a',
        'B' => 'b',
        'C' => 'c',
        'D' => 'd',
        'E' => 'e',
        'F' => 'f',
        'G' => 'g',
        'H' => 'h',
        'I' => 'i',
        'J' => 'j',
        'K' => 'k',
        'L' => 'l',
        'M' => 'm',
        'N' => 'n',
        'O' => 'o',
        'P' => 'p',
        'Q' => 'q',
        'R' => 'r',
        'S' => 's',
        'T' => 't',
        'U' => 'u',
        'V' => 'v',
        'W' => 'w',
        'X' => 'x',
        'Y' => 'y',
        'Z' => 'z',
        _ => c,
    }
}

/// A string with every ASCII capital lowered.
pub fn ascii_lowercase(s: &str) -> (r: String)
    ensures
        r@ == spec_ascii_lowercase(s@),
{
    let n = s.unicode_len();
    let mut out = String::new();
    let mut i: usize = 0;
    while i < n
        invariant
            i <= n,
            n == s@.len(),
            out@ == spec_ascii_lowercase(s@).subrange(0, i as int),
        decreases n - i,
    {
        push_char(&mut out, ascii_lower(s.get_char(i)));
        proof {
            assert(out@ =~= spec_ascii_lowercase(s@).subrange(0, i + 1));
        }
        i += 1;
    }
    proof {
        assert(out@ =~= spec_ascii_lowercase(s@));
    }
    out
}

} // verus!
