//! Subject identifiers.
//!
//! An identity is named by a 128-bit id. Inside token claims it travels in
//! its canonical printed form: 32 lowercase hexadecimal digits in five
//! hyphen-separated groups of 8, 4, 4, 4 and 12, 36 characters in all. This
//! module defines the identifier, its canonical string, and the printing and
//! parsing functions, which are exact inverses of each other.

use vstd::prelude::*;
use vstd::arithmetic::div_mod::{lemma_fundamental_div_mod, lemma_fundamental_div_mod_converse};
use vstd::string::{StrSliceExecFns, StringExecFns};

use crate::strutil::push_char;

verus! {

/// A 128-bit identity identifier.
#[derive(Clone, Copy, Debug, PartialEq, Eq, Structural)]
pub struct SubjectId {
    pub value: u128,
}

/// Sixteen to the given power.
pub open spec fn pow16(n: nat) -> int
    decreases n,
{
    if n == 0 {
        1
    } else {
        16 * pow16((n - 1) as nat)
    }
}

/// The `n` base-16 digits of `v`, most significant first; digits above the
/// `n`-th are dropped.
pub open spec fn spec_digits_of(v: int, n: nat) -> Seq<u8>
    decreases n,
{
    if n == 0 {
        Seq::empty()
    } else {
        spec_digits_of(v / 16, (n - 1) as nat).push((v % 16) as u8)
    }
}

/// The value of a big-endian sequence of base-16 digits.
pub open spec fn spec_digits_value(d: Seq<u8>) -> int
    decreases d.len(),
{
    if d.len() == 0 {
        0
    } else {
        spec_digits_value(d.drop_last()) * 16 + d.last()
    }
}

/// The lowercase hexadecimal character of a digit below 16.
pub open spec fn spec_hex_char(n: u8) -> char {
    if n == 0 {
        '0'
    } else if n == 1 {
        '1'
    } else if n == 2 {
        '2'
    } else if n == 3 {
        '3'
    } else if n == 4 {
        '4'
    } else if n == 5 {
        '5'
    } else if n == 6 {
        '6'
    } else if n == 7 {
        '7'
    } else if n == 8 {
        '8'
    } else if n == 9 {
        '9'
    } else if n == 10 {
        'a'
    } else if n == 11 {
        'b'
    } else if n == 12 {
        'c'
    } else if n == 13 {
        'd'
    } else if n == 14 {
        'e'
    } else {
        'f'
    }
}

/// The digit value of a lowercase hexadecimal character, or -1 for any other
/// character.
pub open spec fn spec_hex_val(c: char) -> int {
    if c == '0' {
        0
    } else if c == '1' {
        1
    } else if c == '2' {
        2
    } else if c == '3' {
        3
    } else if c == '4' {
        4
    } else if c == '5' {
        5
    } else if c == '6' {
        6
    } else if c == '7' {
        7
    } else if c == '8' {
        8
    } else if c == '9' {
        9
    } else if c == 'a' {
        10
    } else if c == 'b' {
        11
    } else if c == 'c' {
        12
    } else if c == 'd' {
        13
    } else if c == 'e' {
        14
    } else if c == 'f' {
        15
    } else {
        -1
    }
}

/// The hexadecimal characters of a digit sequence.
pub open spec fn spec_hex_str(d: Seq<u8>) -> Seq<char> {
    d.map_values(|x: u8| spec_hex_char(x))
}

/// A 32-character sequence regrouped as 8-4-4-4-12 with hyphens in between.
pub open spec fn spec_with_hyphens(h: Seq<char>) -> Seq<char> {
    h.subrange(0, 8) + seq!['-'] + h.subrange(8, 12) + seq!['-'] + h.subrange(12, 16) + seq!['-']
        + h.subrange(16, 20) + seq!['-'] + h.subrange(20, 32)
}

/// The canonical printed form of a 128-bit identifier.
pub open spec fn spec_subject_string(v: u128) -> Seq<char> {
    spec_with_hyphens(spec_hex_str(spec_digits_of(v as int, 32)))
}

/// The positions that hold a hyphen in the canonical form.
pub open spec fn spec_hyphen_pos(p: int) -> bool {
    p == 8 || p == 13 || p == 18 || p == 23
}

/// How many digit positions lie strictly before position `p` of the
/// canonical form.
pub open spec fn spec_digit_count(p: int) -> int {
    if p <= 8 {
        p
    } else if p <= 13 {
        p - 1
    } else if p <= 18 {
        p - 2
    } else if p <= 23 {
        p - 3
    } else {
        p - 4
    }
}

proof fn lemma_pow16_pos(n: nat)
    ensures
        pow16(n) >= 1,
    decreases n,
{
    if n > 0 {
        lemma_pow16_pos((n - 1) as nat);
    }
}

proof fn lemma_pow16_mono(a: nat, b: nat)
    requires
        a <= b,
    ensures
        pow16(a) <= pow16(b),
    decreases b,
{
    if a < b {
        lemma_pow16_mono(a, (b - 1) as nat);
        lemma_pow16_pos((b - 1) as nat);
    }
}

proof fn lemma_pow16_32()
    ensures
        pow16(32) == 0x1_0000_0000_0000_0000_0000_0000_0000_0000,
{
    reveal_with_fuel(pow16, 33);
}

proof fn lemma_digits_of_wf(v: int, n: nat)
    requires
        v >= 0,
    ensures
        spec_digits_of(v, n).len() == n,
        forall|i: int| 0 <= i < n ==> #[trigger] spec_digits_of(v, n)[i] < 16,
    decreases n,
{
    if n > 0 {
        lemma_digits_of_wf(v / 16, (n - 1) as nat);
        assert forall|i: int| 0 <= i < n implies #[trigger] spec_digits_of(v, n)[i] < 16 by {
            if i < n - 1 {
                assert(spec_digits_of(v, n)[i] == spec_digits_of(v / 16, (n - 1) as nat)[i]);
            }
        }
    }
}

/// Every value below `16^n` is recovered from its own digit sequence.
proof fn lemma_value_of_digits_of(v: int, n: nat)
    requires
        0 <= v < pow16(n),
    ensures
        spec_digits_value(spec_digits_of(v, n)) == v,
    decreases n,
{
    if n == 0 {
        assert(v == 0);
    } else {
        lemma_fundamental_div_mod(v, 16);
        assert(v / 16 < pow16((n - 1) as nat));
        lemma_value_of_digits_of(v / 16, (n - 1) as nat);
        lemma_digits_of_wf(v / 16, (n - 1) as nat);
        let d = spec_digits_of(v, n);
        assert(d.drop_last() =~= spec_digits_of(v / 16, (n - 1) as nat));
    }
}

/// Every digit sequence is recovered from its own value, which lies below
/// `16^len`.
proof fn lemma_digits_of_value(d: Seq<u8>)
    requires
        forall|i: int| 0 <= i < d.len() ==> d[i] < 16,
    ensures
        0 <= spec_digits_value(d) < pow16(d.len()),
        spec_digits_of(spec_digits_value(d), d.len()) == d,
    decreases d.len(),
{
    if d.len() == 0 {
        assert(spec_digits_of(spec_digits_value(d), d.len()) =~= d);
    } else {
        let front = d.drop_last();
        assert(forall|i: int| 0 <= i < front.len() ==> front[i] < 16);
        lemma_digits_of_value(front);
        let v = spec_digits_value(d);
        assert(v == spec_digits_value(front) * 16 + d.last());
        lemma_fundamental_div_mod_converse(v, 16, spec_digits_value(front), d.last() as int);
        assert(spec_digits_of(v, d.len()) =~= spec_digits_of(spec_digits_value(front), (d.len()
            - 1) as nat).push((v % 16) as u8));
        assert(spec_digits_of(v, d.len()) =~= d);
    }
}

proof fn lemma_hex_char_val(n: u8)
    requires
        n < 16,
    ensures
        spec_hex_val(spec_hex_char(n)) == n as int,
{
}

proof fn lemma_hex_val_char(c: char)
    requires
        spec_hex_val(c) >= 0,
    ensures
        spec_hex_char(spec_hex_val(c) as u8) == c,
{
}

/// Shape of the canonical form: 36 characters, hyphens at the four group
/// boundaries, the hexadecimal characters everywhere else.
proof fn lemma_with_hyphens_index(h: Seq<char>)
    requires
        h.len() == 32,
    ensures
        spec_with_hyphens(h).len() == 36,
        forall|p: int| 0 <= p < 36 && spec_hyphen_pos(p) ==> #[trigger] spec_with_hyphens(h)[p]
            == '-',
        forall|p: int| 0 <= p < 36 && !spec_hyphen_pos(p) ==> #[trigger] spec_with_hyphens(h)[p]
            == h[spec_digit_count(p)],
{
}

/// The lowercase hexadecimal character of a digit below 16.
pub fn hex_char(n: u8) -> (c: char)
    requires
        n < 16,
    ensures
        c == spec_hex_char(n),
{
    match n {
        0 => '0',
        1 => '1',
        2 => '2',
        3 => '3',
        4 => '4',
        5 => '5',
        6 => '6',
        7 => '7',
        8 => '8',
        9 => '9',
        10 => 'a',
        11 => 'b',
        12 => 'c',
        13 => 'd',
        14 => 'e',
        _ => 'f',
    }
}

/// The digit value of a lowercase hexadecimal character, if it is one.
pub fn hex_val(c: char) -> (r: Option<u8>)
    ensures
        spec_hex_val(c) >= 0 ==> r == Some(spec_hex_val(c) as u8),
        spec_hex_val(c) < 0 ==> r is None,
{
    match c {
        '0' => Some(0),
        '1' => Some(1),
        '2' => Some(2),
        '3' => Some(3),
        '4' => Some(4),
        '5' => Some(5),
        '6' => Some(6),
        '7' => Some(7),
        '8' => Some(8),
        '9' => Some(9),
        'a' => Some(10),
        'b' => Some(11),
        'c' => Some(12),
        'd' => Some(13),
        'e' => Some(14),
        'f' => Some(15),
        _ => None,
    }
}

impl SubjectId {
    /// Wrap a raw 128-bit value.
    pub fn new(value: u128) -> (s: SubjectId)
        ensures
            s.value == value,
    {
        SubjectId { value }
    }
}

/// Print an identifier in its canonical hyphenated form.
pub fn format_subject(id: &SubjectId) -> (r: String)
    ensures
        r@ == spec_subject_string(id.value),
        r@.len() == 36,
{
    let v = id.value;
    proof {
        lemma_digits_of_wf(v as int, 32);
    }
    let ghost target: Seq<u8> = spec_digits_of(v as int, 32);

    // Extract the 32 digits, least significant first.
    let mut le: Vec<u8> = Vec::new();
    let mut rem: u128 = v;
    let mut k: usize = 0;
    while k < 32
        invariant
            k <= 32,
            le@.len() == k,
            forall|i: int| 0 <= i < k ==> le@[i] < 16,
            target == spec_digits_of(rem as int, (32 - k) as nat) + le@.reverse(),
            target == spec_digits_of(v as int, 32),
        decreases 32 - k,
    {
        let d: u8 = (rem % 16) as u8;
        proof {
            assert(spec_digits_of(rem as int, (32 - k) as nat) == spec_digits_of(
                rem as int / 16,
                (31 - k) as nat,
            ).push(d));
            assert(spec_digits_of(rem as int, (32 - k) as nat) + le@.reverse() =~= spec_digits_of(
                rem as int / 16,
                (31 - k) as nat,
            ) + le@.push(d).reverse());
        }
        le.push(d);
        rem = rem / 16;
        k += 1;
    }
    proof {
        assert(target =~= le@.reverse());
    }

    // Write the digits out, most significant first.
    let mut h = String::new();
    let mut i: usize = 0;
    while i < 32
        invariant
            i <= 32,
            le@.len() == 32,
            forall|j: int| 0 <= j < 32 ==> le@[j] < 16,
            target == le@.reverse(),
            target.len() == 32,
            h@ == spec_hex_str(target).subrange(0, i as int),
        decreases 32 - i,
    {
        let c = hex_char(le[31 - i]);
        proof {
            assert(target[i as int] == le@[31 - i as int]);
        }
        push_char(&mut h, c);
        proof {
            assert(h@ =~= spec_hex_str(target).subrange(0, i + 1));
        }
        i += 1;
    }
    proof {
        assert(h@ =~= spec_hex_str(target));
    }

    // Regroup as 8-4-4-4-12.
    let mut out = String::new();
    let hs: &str = h.as_str();
    out.append(hs.substring_char(0, 8));
    push_char(&mut out, '-');
    out.append(hs.substring_char(8, 12));
    push_char(&mut out, '-');
    out.append(hs.substring_char(12, 16));
    push_char(&mut out, '-');
    out.append(hs.substring_char(16, 20));
    push_char(&mut out, '-');
    out.append(hs.substring_char(20, 32));
    proof {
        assert(out@ =~= spec_with_hyphens(spec_hex_str(target)));
        lemma_with_hyphens_index(spec_hex_str(target));
    }
    out
}

/// Parse the canonical hyphenated form back into an identifier. Exactly the
/// canonical strings parse: the result is `Some` if and only if the input is
/// the canonical form of some identifier, which it then returns.
pub fn parse_subject(s: &str) -> (r: Option<SubjectId>)
    ensures
        r matches Some(id) ==> s@ == spec_subject_string(id.value),
        forall|v: u128| s@ == spec_subject_string(v) ==> r == (Some(SubjectId { value: v })),
{
    proof {
        assert forall|v: u128| spec_subject_string(v).len() == 36 by {
            lemma_digits_of_wf(v as int, 32);
            lemma_with_hyphens_index(spec_hex_str(spec_digits_of(v as int, 32)));
        }
    }
    let n = s.unicode_len();
    if n != 36 {
        return None;
    }

    let mut acc: u128 = 0;
    let ghost mut digits: Seq<u8> = Seq::empty();
    let mut j: usize = 0;
    while j < 36
        invariant
            j <= 36,
            s@.len() == 36,
            digits.len() == spec_digit_count(j as int),
            digits.len() <= 32,
            forall|i: int| 0 <= i < digits.len() ==> digits[i] < 16,
            acc as int == spec_digits_value(digits),
            (acc as int) < pow16(digits.len() as nat),
            forall|p: int| 0 <= p < j && spec_hyphen_pos(p) ==> s@[p] == '-',
            forall|p: int| 0 <= p < j && !spec_hyphen_pos(p) ==> s@[p] == spec_hex_char(
                digits[spec_digit_count(p)],
            ),
        decreases 36 - j,
    {
        let c = s.get_char(j);
        if j == 8 || j == 13 || j == 18 || j == 23 {
            if c != '-' {
                proof {
                    lemma_canonical_mismatch(s@, j as int);
                }
                return None;
            }
        } else {
            match hex_val(c) {
                Some(x) => {
                    proof {
                        lemma_pow16_mono((digits.len() + 1) as nat, 32);
                        lemma_pow16_32();
                        assert(pow16((digits.len() + 1) as nat) == 16 * pow16(digits.len() as nat));
                        lemma_hex_val_char(c);
                    }
                    acc = acc * 16 + (x as u128);
                    proof {
                        let new_digits = digits.push(x);
                        assert(new_digits.drop_last() =~= digits);
                        digits = new_digits;
                    }
                },
                None => {
                    proof {
                        lemma_canonical_mismatch(s@, j as int);
                    }
                    return None;
                },
            }
        }
        j += 1;
    }

    proof {
        assert(digits.len() == 32);
        lemma_digits_of_value(digits);
        lemma_with_hyphens_index(spec_hex_str(digits));
        assert(s@ =~= spec_with_hyphens(spec_hex_str(digits)));
        assert(s@ == spec_subject_string(acc));
        assert forall|v: u128| s@ == spec_subject_string(v) implies acc == v by {
            lemma_canonical_injective_value(s@, v, acc);
        }
    }
    Some(SubjectId { value: acc })
}

/// If position `p` of a 36-character string breaks the canonical shape - a
/// group boundary without a hyphen, or a digit position without a lowercase
/// hexadecimal character - then the string is canonical for no identifier.
proof fn lemma_canonical_mismatch(s: Seq<char>, p: int)
    requires
        s.len() == 36,
        0 <= p < 36,
        spec_hyphen_pos(p) ==> s[p] != '-',
        !spec_hyphen_pos(p) ==> spec_hex_val(s[p]) < 0,
    ensures
        forall|v: u128| s != spec_subject_string(v),
{
    assert forall|v: u128| s != spec_subject_string(v) by {
        lemma_digits_of_wf(v as int, 32);
        let h = spec_hex_str(spec_digits_of(v as int, 32));
        lemma_with_hyphens_index(h);
        if s == spec_subject_string(v) {
            if spec_hyphen_pos(p) {
                assert(s[p] == '-');
            } else {
                let d = spec_digits_of(v as int, 32)[spec_digit_count(p)];
                assert(s[p] == spec_hex_char(d));
                lemma_hex_char_val(d);
            }
        }
    }
}

/// A string is the canonical form of at most one identifier: the printed
/// form determines the subject.
pub proof fn lemma_canonical_injective_value(s: Seq<char>, v: u128, w: u128)
    requires
        s == spec_subject_string(v),
        s == spec_subject_string(w),
    ensures
        v == w,
{
    lemma_digits_of_wf(v as int, 32);
    lemma_digits_of_wf(w as int, 32);
    let dv = spec_digits_of(v as int, 32);
    let dw = spec_digits_of(w as int, 32);
    lemma_with_hyphens_index(spec_hex_str(dv));
    lemma_with_hyphens_index(spec_hex_str(dw));
    assert forall|i: int| 0 <= i < 32 implies dv[i] == dw[i] by {
        let p = if i < 8 {
            i
        } else if i < 12 {
            i + 1
        } else if i < 16 {
            i + 2
        } else if i < 20 {
            i + 3
        } else {
            i + 4
        };
        assert(spec_digit_count(p) == i && !spec_hyphen_pos(p));
        assert(spec_hex_char(dv[i]) == s[p] && spec_hex_char(dw[i]) == s[p]);
        lemma_hex_char_val(dv[i]);
        lemma_hex_char_val(dw[i]);
    }
    assert(dv =~= dw);
    lemma_pow16_32();
    lemma_value_of_digits_of(v as int, 32);
    lemma_value_of_digits_of(w as int, 32);
}

} // verus!
