//! The Pnar alphabet and conversion between Pnar text and its
//! keyboard-friendly spelling.
//!
//! Most letters coincide in both spellings; the six special letters are
//! written as two-character sequences on a plain keyboard. Conversion is a
//! chain of sequential replacements, each a leftmost-match,
//! non-overlapping rewrite of the whole text, with the two-character
//! patterns applied first so that longer matches win.

use vstd::prelude::*;

use crate::strutil::push_char;
use vstd::string::StrSliceExecFns;

verus! {

/// One leftmost-match, non-overlapping rewrite pass: every occurrence of
/// `pat`, scanning from the left, is replaced by `rep`.
pub open spec fn spec_replace(s: Seq<char>, pat: Seq<char>, rep: Seq<char>) -> Seq<char>
    decreases s.len(),
    when pat.len() >= 1
{
    if s.len() < pat.len() {
        s
    } else if s.subrange(0, pat.len() as int) == pat {
        rep + spec_replace(s.skip(pat.len() as int), pat, rep)
    } else {
        seq![s[0]] + spec_replace(s.skip(1), pat, rep)
    }
}

/// Keyboard-friendly text rewritten into Pnar letters: the six two-character
/// spellings become their single letters, longest patterns first.
pub open spec fn spec_kbf_to_pnar(s: Seq<char>) -> Seq<char> {
    let s1 = spec_replace(s, seq!['s', 'e'], seq!['\u{e6}']);
    let s2 = spec_replace(s1, seq!['A', 'e'], seq!['\u{c6}']);
    let s3 = spec_replace(s2, seq!['i', 'i'], seq!['\u{ef}']);
    let s4 = spec_replace(s3, seq!['I', 'i'], seq!['\u{cf}']);
    let s5 = spec_replace(s4, seq!['g', 'n'], seq!['\u{f1}']);
    spec_replace(s5, seq!['N', 'g'], seq!['\u{d1}'])
}

/// Pnar text rewritten into its keyboard-friendly spelling: each special
/// letter becomes its two-character sequence, in alphabet order, lowercase
/// before capital.
pub open spec fn spec_pnar_to_kbf(s: Seq<char>) -> Seq<char> {
    let s1 = spec_replace(s, seq!['\u{e6}'], seq!['s', 'e']);
    let s2 = spec_replace(s1, seq!['\u{c6}'], seq!['A', 'e']);
    let s3 = spec_replace(s2, seq!['\u{ef}'], seq!['i', 'i']);
    let s4 = spec_replace(s3, seq!['\u{cf}'], seq!['I', 'i']);
    let s5 = spec_replace(s4, seq!['\u{f1}'], seq!['g', 'n']);
    spec_replace(s5, seq!['\u{d1}'], seq!['N', 'g'])
}

/// The characters of a string slice, in order.
fn chars_of_str(s: &str) -> (r: Vec<char>)
    ensures
        r@ == s@,
{
    let n = s.unicode_len();
    let mut v: Vec<char> = Vec::new();
    let mut i: usize = 0;
    while i < n
        invariant
            i <= n,
            n == s@.len(),
            v@ == s@.subrange(0, i as int),
        decreases n - i,
    {
        v.push(s.get_char(i));
        proof {
            assert(v@ =~= s@.subrange(0, i + 1));
        }
        i += 1;
    }
    proof {
        assert(v@ =~= s@);
    }
    v
}

/// A string holding exactly the given characters, in order.
fn string_of_chars(v: &Vec<char>) -> (r: String)
    ensures
        r@ == v@,
{
    let mut s = String::new();
    let mut i: usize = 0;
    while i < v.len()
        invariant
            i <= v@.len(),
            s@ == v@.subrange(0, i as int),
        decreases v@.len() - i,
    {
        push_char(&mut s, v[i]);
        proof {
            assert(s@ =~= v@.subrange(0, i + 1));
        }
        i += 1;
    }
    proof {
        assert(s@ =~= v@);
    }
    s
}

/// Whether `pat` occurs in `s` starting at position `i`.
fn matches_at(s: &Vec<char>, i: usize, pat: &Vec<char>) -> (r: bool)
    requires
        i + pat@.len() <= s@.len(),
    ensures
        r == (s@.subrange(i as int, i + pat@.len()) == pat@),
{
    let n = s.len();
    let mut j: usize = 0;
    while j < pat.len()
        invariant
            j <= pat@.len(),
            i + pat@.len() <= s@.len(),
            n == s@.len(),
            forall|k: int| 0 <= k < j ==> s@[i + k] == pat@[k],
        decreases pat@.len() - j,
    {
        if s[i + j] != pat[j] {
            proof {
                assert(s@.subrange(i as int, i + pat@.len())[j as int] == s@[i + j]);
            }
            return false;
        }
        j += 1;
    }
    proof {
        assert(s@.subrange(i as int, i + pat@.len()) =~= pat@);
    }
    true
}

/// One leftmost-match, non-overlapping rewrite pass over a character vector.
fn replace_chars(s: &Vec<char>, pat: &Vec<char>, rep: &Vec<char>) -> (r: Vec<char>)
    requires
        pat@.len() >= 1,
    ensures
        r@ == spec_replace(s@, pat@, rep@),
{
    let mut out: Vec<char> = Vec::new();
    let mut i: usize = 0;
    proof {
        assert(s@.skip(0) =~= s@);
        assert(out@ + spec_replace(s@.skip(0), pat@, rep@) =~= spec_replace(s@, pat@, rep@));
    }
    while i < s.len()
        invariant
            i <= s@.len(),
            pat@.len() >= 1,
            spec_replace(s@, pat@, rep@) == out@ + spec_replace(s@.skip(i as int), pat@, rep@),
        decreases s@.len() - i,
    {
        if pat.len() <= s.len() - i && matches_at(s, i, pat) {
            proof {
                assert(s@.skip(i as int).subrange(0, pat@.len() as int) =~= s@.subrange(
                    i as int,
                    i + pat@.len(),
                ));
                assert(s@.skip(i as int).skip(pat@.len() as int) =~= s@.skip(i + pat@.len()));
                assert(spec_replace(s@.skip(i as int), pat@, rep@) == rep@ + spec_replace(
                    s@.skip(i + pat@.len()),
                    pat@,
                    rep@,
                ));
            }
            let ghost out0 = out@;
            let mut j: usize = 0;
            while j < rep.len()
                invariant
                    j <= rep@.len(),
                    out@ == out0 + rep@.subrange(0, j as int),
                decreases rep@.len() - j,
            {
                out.push(rep[j]);
                proof {
                    assert(out@ =~= out0 + rep@.subrange(0, j + 1));
                }
                j += 1;
            }
            proof {
                assert(out@ =~= out0 + rep@);
                assert(out0 + (rep@ + spec_replace(s@.skip(i + pat@.len()), pat@, rep@)) =~= (out0
                    + rep@) + spec_replace(s@.skip(i + pat@.len()), pat@, rep@));
            }
            i += pat.len();
        } else {
            proof {
                if i + pat@.len() <= s@.len() {
                    assert(s@.skip(i as int).subrange(0, pat@.len() as int) =~= s@.subrange(
                        i as int,
                        i + pat@.len(),
                    ));
                }
                assert(s@.skip(i as int).skip(1) =~= s@.skip(i + 1));
                assert(spec_replace(s@.skip(i as int), pat@, rep@) == seq![s@[i as int]]
                    + spec_replace(s@.skip(i + 1), pat@, rep@));
            }
            let ghost out0 = out@;
            out.push(s[i]);
            proof {
                assert(out@ =~= out0 + seq![s@[i as int]]);
                assert(out0 + (seq![s@[i as int]] + spec_replace(s@.skip(i + 1), pat@, rep@)) =~= (
                out0 + seq![s@[i as int]]) + spec_replace(s@.skip(i + 1), pat@, rep@));
            }
            i += 1;
        }
    }
    proof {
        assert(s@.skip(i as int) =~= Seq::<char>::empty());
        assert(out@ =~= spec_replace(s@, pat@, rep@));
    }
    out
}

/// One rewrite pass with a two-character pattern and a single-letter
/// replacement.
fn replace_pair(v: Vec<char>, p0: char, p1: char, rep: char) -> (r: Vec<char>)
    ensures
        r@ == spec_replace(v@, seq![p0, p1], seq![rep]),
{
    let mut pat: Vec<char> = Vec::new();
    pat.push(p0);
    pat.push(p1);
    let mut rp: Vec<char> = Vec::new();
    rp.push(rep);
    proof {
        assert(pat@ =~= seq![p0, p1]);
        assert(rp@ =~= seq![rep]);
    }
    replace_chars(&v, &pat, &rp)
}

/// One rewrite pass with a single-letter pattern and a two-character
/// replacement.
fn replace_single(v: Vec<char>, p: char, r0: char, r1: char) -> (r: Vec<char>)
    ensures
        r@ == spec_replace(v@, seq![p], seq![r0, r1]),
{
    let mut pat: Vec<char> = Vec::new();
    pat.push(p);
    let mut rp: Vec<char> = Vec::new();
    rp.push(r0);
    rp.push(r1);
    proof {
        assert(pat@ =~= seq![p]);
        assert(rp@ =~= seq![r0, r1]);
    }
    replace_chars(&v, &pat, &rp)
}

/// Convert keyboard-friendly text to Pnar characters.
pub fn convert_kbf_to_pnar(text: &str) -> (r: String)
    ensures
        r@ == spec_kbf_to_pnar(text@),
{
    let v = chars_of_str(text);
    let v = replace_pair(v, 's', 'e', '\u{e6}');
    let v = replace_pair(v, 'A', 'e', '\u{c6}');
    let v = replace_pair(v, 'i', 'i', '\u{ef}');
    let v = replace_pair(v, 'I', 'i', '\u{cf}');
    let v = replace_pair(v, 'g', 'n', '\u{f1}');
    let v = replace_pair(v, 'N', 'g', '\u{d1}');
    string_of_chars(&v)
}

/// Convert Pnar characters to keyboard-friendly text.
pub fn convert_pnar_to_kbf(text: &str) -> (r: String)
    ensures
        r@ == spec_pnar_to_kbf(text@),
{
    let v = chars_of_str(text);
    let v = replace_single(v, '\u{e6}', 's', 'e');
    let v = replace_single(v, '\u{c6}', 'A', 'e');
    let v = replace_single(v, '\u{ef}', 'i', 'i');
    let v = replace_single(v, '\u{cf}', 'I', 'i');
    let v = replace_single(v, '\u{f1}', 'g', 'n');
    let v = replace_single(v, '\u{d1}', 'N', 'g');
    string_of_chars(&v)
}

/// Pnar alphabet character mapping.
#[derive(Clone, Debug)]
pub struct PnarCharacter {
    pub small: &'static str,
    pub capital: &'static str,
    pub kbf_small: &'static str,
    pub kbf_capital: &'static str,
    pub sort_order: u8,
}

/// The lowercase letter at a given position of the alphabet table.
pub open spec fn spec_alphabet_small(i: int) -> Seq<char> {
    if i == 0 {
        "a"@
    } else if i == 1 {
        "b"@
    } else if i == 2 {
        "c"@
    } else if i == 3 {
        "d"@
    } else if i == 4 {
        "e"@
    } else if i == 5 {
        "\u{e6}"@
    } else if i == 6 {
        "f"@
    } else if i == 7 {
        "g"@
    } else if i == 8 {
        "h"@
    } else if i == 9 {
        "i"@
    } else if i == 10 {
        "\u{ef}"@
    } else if i == 11 {
        "j"@
    } else if i == 12 {
        "k"@
    } else if i == 13 {
        "l"@
    } else if i == 14 {
        "m"@
    } else if i == 15 {
        "n"@
    } else if i == 16 {
        "\u{f1}"@
    } else if i == 17 {
        "o"@
    } else if i == 18 {
        "p"@
    } else if i == 19 {
        "r"@
    } else if i == 20 {
        "s"@
    } else if i == 21 {
        "t"@
    } else if i == 22 {
        "u"@
    } else if i == 23 {
        "w"@
    } else {
        "y"@
    }
}

/// The capital letter at a given position of the alphabet table.
pub open spec fn spec_alphabet_capital(i: int) -> Seq<char> {
    if i == 0 {
        "A"@
    } else if i == 1 {
        "B"@
    } else if i == 2 {
        "C"@
    } else if i == 3 {
        "D"@
    } else if i == 4 {
        "E"@
    } else if i == 5 {
        "\u{c6}"@
    } else if i == 6 {
        "F"@
    } else if i == 7 {
        "G"@
    } else if i == 8 {
        "H"@
    } else if i == 9 {
        "I"@
    } else if i == 10 {
        "\u{cf}"@
    } else if i == 11 {
        "J"@
    } else if i == 12 {
        "K"@
    } else if i == 13 {
        "L"@
    } else if i == 14 {
        "M"@
    } else if i == 15 {
        "N"@
    } else if i == 16 {
        "\u{d1}"@
    } else if i == 17 {
        "O"@
    } else if i == 18 {
        "P"@
    } else if i == 19 {
        "R"@
    } else if i == 20 {
        "S"@
    } else if i == 21 {
        "T"@
    } else if i == 22 {
        "U"@
    } else if i == 23 {
        "W"@
    } else {
        "Y"@
    }
}

/// The fixed Pnar alphabet, in sort order: each row holds its letter pair,
/// every row outside the three special letters spells the same in both
/// forms, and the three special rows carry the two-character spellings the
/// conversion functions use.
pub fn pnar_alphabet() -> (r: Vec<PnarCharacter>)
    ensures
        r@.len() == 25,
        forall|i: int| 0 <= i < 25 ==> (#[trigger] r@[i]).sort_order == i + 1,
        forall|i: int| 0 <= i < 25 ==> (#[trigger] r@[i]).small@ == spec_alphabet_small(i)
            && r@[i].capital@ == spec_alphabet_capital(i),
        forall|i: int| 0 <= i < 25 && i != 5 && i != 10 && i != 16 ==> (#[trigger] r@[i]).small@
            == r@[i].kbf_small@ && r@[i].capital@ == r@[i].kbf_capital@,
        r@[5].small@ == "\u{e6}"@ && r@[5].kbf_small@ == "se"@ && r@[5].capital@ == "\u{c6}"@
            && r@[5].kbf_capital@ == "Ae"@,
        r@[10].small@ == "\u{ef}"@ && r@[10].kbf_small@ == "ii"@ && r@[10].capital@ == "\u{cf}"@
            && r@[10].kbf_capital@ == "Ii"@,
        r@[16].small@ == "\u{f1}"@ && r@[16].kbf_small@ == "gn"@ && r@[16].capital@
            == "\u{d1}"@ && r@[16].kbf_capital@ == "Ng"@,
{
    let mut t: Vec<PnarCharacter> = Vec::new();
    t.push(PnarCharacter { small: "a", capital: "A", kbf_small: "a", kbf_capital: "A", sort_order: 1 });
    t.push(PnarCharacter { small: "b", capital: "B", kbf_small: "b", kbf_capital: "B", sort_order: 2 });
    t.push(PnarCharacter { small: "c", capital: "C", kbf_small: "c", kbf_capital: "C", sort_order: 3 });
    t.push(PnarCharacter { small: "d", capital: "D", kbf_small: "d", kbf_capital: "D", sort_order: 4 });
    t.push(PnarCharacter { small: "e", capital: "E", kbf_small: "e", kbf_capital: "E", sort_order: 5 });
    t.push(PnarCharacter { small: "\u{e6}", capital: "\u{c6}", kbf_small: "se", kbf_capital: "Ae", sort_order: 6 });
    t.push(PnarCharacter { small: "f", capital: "F", kbf_small: "f", kbf_capital: "F", sort_order: 7 });
    t.push(PnarCharacter { small: "g", capital: "G", kbf_small: "g", kbf_capital: "G", sort_order: 8 });
    t.push(PnarCharacter { small: "h", capital: "H", kbf_small: "h", kbf_capital: "H", sort_order: 9 });
    t.push(PnarCharacter { small: "i", capital: "I", kbf_small: "i", kbf_capital: "I", sort_order: 10 });
    t.push(PnarCharacter { small: "\u{ef}", capital: "\u{cf}", kbf_small: "ii", kbf_capital: "Ii", sort_order: 11 });
    t.push(PnarCharacter { small: "j", capital: "J", kbf_small: "j", kbf_capital: "J", sort_order: 12 });
    t.push(PnarCharacter { small: "k", capital: "K", kbf_small: "k", kbf_capital: "K", sort_order: 13 });
    t.push(PnarCharacter { small: "l", capital: "L", kbf_small: "l", kbf_capital: "L", sort_order: 14 });
    t.push(PnarCharacter { small: "m", capital: "M", kbf_small: "m", kbf_capital: "M", sort_order: 15 });
    t.push(PnarCharacter { small: "n", capital: "N", kbf_small: "n", kbf_capital: "N", sort_order: 16 });
    t.push(PnarCharacter { small: "\u{f1}", capital: "\u{d1}", kbf_small: "gn", kbf_capital: "Ng", sort_order: 17 });
    t.push(PnarCharacter { small: "o", capital: "O", kbf_small: "o", kbf_capital: "O", sort_order: 18 });
    t.push(PnarCharacter { small: "p", capital: "P", kbf_small: "p", kbf_capital: "P", sort_order: 19 });
    t.push(PnarCharacter { small: "r", capital: "R", kbf_small: "r", kbf_capital: "R", sort_order: 20 });
    t.push(PnarCharacter { small: "s", capital: "S", kbf_small: "s", kbf_capital: "S", sort_order: 21 });
    t.push(PnarCharacter { small: "t", capital: "T", kbf_small: "t", kbf_capital: "T", sort_order: 22 });
    t.push(PnarCharacter { small: "u", capital: "U", kbf_small: "u", kbf_capital: "U", sort_order: 23 });
    t.push(PnarCharacter { small: "w", capital: "W", kbf_small: "w", kbf_capital: "W", sort_order: 24 });
    t.push(PnarCharacter { small: "y", capital: "Y", kbf_small: "y", kbf_capital: "Y", sort_order: 25 });
    t
}

/// Which way to convert a text.
#[derive(Clone, Copy, Debug, PartialEq, Eq, Structural)]
pub enum ConversionDirection {
    KbfToPnar,
    PnarToKbf,
}

/// A request to convert a text between the two spellings.
#[derive(Clone, Debug)]
pub struct ConvertTextRequest {
    pub text: String,
    pub direction: ConversionDirection,
}

/// The outcome of a conversion: the rewritten text beside the original.
#[derive(Clone, Debug)]
pub struct ConvertTextResponse {
    pub converted_text: String,
    pub original_text: String,
    pub direction: ConversionDirection,
}

/// Convert text between Pnar and keyboard-friendly format.
pub fn convert_text(request: ConvertTextRequest) -> (r: ConvertTextResponse)
    ensures
        r.direction == request.direction,
        r.original_text@ == request.text@,
        request.direction == ConversionDirection::KbfToPnar ==> r.converted_text@
            == spec_kbf_to_pnar(request.text@),
        request.direction == ConversionDirection::PnarToKbf ==> r.converted_text@
            == spec_pnar_to_kbf(request.text@),
{
    let converted_text = match request.direction {
        ConversionDirection::KbfToPnar => convert_kbf_to_pnar(request.text.as_str()),
        ConversionDirection::PnarToKbf => convert_pnar_to_kbf(request.text.as_str()),
    };
    ConvertTextResponse { converted_text, original_text: request.text, direction: request.direction }
}

} // verus!
