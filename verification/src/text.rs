//! Small text helpers: character-exact string equality, decimal
//! rendering of counters, and the conversions the engine needs between
//! character buffers, byte buffers and owned strings.

use vstd::prelude::*;
use vstd::string::StrSliceExecFns;

verus! {

/// Character-by-character equality of two string slices.
pub fn str_eq_str(a: &str, b: &str) -> (r: bool)
    ensures
        r == (a@ == b@),
{
    let na = a.unicode_len();
    let nb = b.unicode_len();
    if na != nb {
        return false;
    }
    let mut i: usize = 0;
    while i < na
        invariant
            i <= na,
            na == a@.len(),
            nb == b@.len(),
            na == nb,
            forall|k: int| 0 <= k < i ==> a@[k] == b@[k],
        decreases na - i,
    {
        if a.get_char(i) != b.get_char(i) {
            return false;
        }
        i = i + 1;
    }
    proof {
        assert(a@ =~= b@);
    }
    true
}

/// Whether a string slice equals an owned string, character for
/// character.
pub fn string_is(tok: &String, kw: &str) -> (r: bool)
    ensures
        r == (tok@ == kw@),
{
    str_eq_str(tok.as_str(), kw)
}

/// The decimal digit for one value below ten.
pub open spec fn dec_digit(n: nat) -> char
    recommends
        n < 10,
{
    if n == 0 { '0' }
    else if n == 1 { '1' }
    else if n == 2 { '2' }
    else if n == 3 { '3' }
    else if n == 4 { '4' }
    else if n == 5 { '5' }
    else if n == 6 { '6' }
    else if n == 7 { '7' }
    else if n == 8 { '8' }
    else { '9' }
}

/// The decimal rendering of a natural number, most significant digit
/// first and without leading zeros (zero itself is "0").
pub open spec fn dec_rep(n: nat) -> Seq<char>
    decreases n,
{
    if n < 10 {
        seq![dec_digit(n)]
    } else {
        dec_rep(n / 10) + seq![dec_digit(n % 10)]
    }
}

fn dec_digit_char(n: u64) -> (c: char)
    requires
        n < 10,
    ensures
        c == dec_digit(n as nat),
{
    if n == 0 { '0' }
    else if n == 1 { '1' }
    else if n == 2 { '2' }
    else if n == 3 { '3' }
    else if n == 4 { '4' }
    else if n == 5 { '5' }
    else if n == 6 { '6' }
    else if n == 7 { '7' }
    else if n == 8 { '8' }
    else { '9' }
}

/// Render a counter in decimal.
pub fn u64_to_string(n: u64) -> (r: String)
    ensures
        r@ == dec_rep(n as nat),
{
    let mut digits: Vec<char> = Vec::new();
    proof {
        assert(digits@.reverse() =~= Seq::<char>::empty());
        assert(dec_rep(n as nat) =~= dec_rep(n as nat) + digits@.reverse());
    }
    let mut m = n;
    while m >= 10
        invariant
            dec_rep(n as nat) == dec_rep(m as nat) + digits@.reverse(),
        decreases m,
    {
        let ghost before = digits@;
        let d = dec_digit_char(m % 10);
        digits.push(d);
        proof {
            assert(digits@.reverse() =~= seq![dec_digit((m % 10) as nat)] + before.reverse());
            assert(dec_rep(m as nat) =~= dec_rep((m / 10) as nat)
                + seq![dec_digit((m % 10) as nat)]);
            assert(dec_rep((m / 10) as nat) + digits@.reverse()
                =~= dec_rep(m as nat) + before.reverse());
        }
        m = m / 10;
    }
    let mut out: Vec<char> = Vec::new();
    out.push(dec_digit_char(m));
    proof {
        assert(digits@.skip(digits@.len() as int).reverse() =~= Seq::<char>::empty());
        assert(out@ =~= seq![dec_digit(m as nat)]
            + digits@.skip(digits@.len() as int).reverse());
    }
    let mut i = digits.len();
    while i > 0
        invariant
            i <= digits.len(),
            m < 10,
            dec_rep(n as nat) == dec_rep(m as nat) + digits@.reverse(),
            out@ == seq![dec_digit(m as nat)] + digits@.skip(i as int).reverse(),
        decreases i,
    {
        i = i - 1;
        let ghost before = out@;
        out.push(digits[i]);
        proof {
            assert(digits@.skip(i as int) =~= seq![digits@[i as int]]
                + digits@.skip(i + 1));
            assert(digits@.skip(i as int).reverse() =~= digits@.skip(i + 1).reverse()
                + seq![digits@[i as int]]);
            assert(out@ =~= seq![dec_digit(m as nat)] + digits@.skip(i as int).reverse());
        }
    }
    proof {
        assert(digits@.skip(0).reverse() =~= digits@.reverse());
        assert(out@ =~= dec_rep(n as nat));
    }
    chars_to_string(&out)
}

/// Relies on `core::iter::Iterator::collect` building a `String`: the
/// collected string holds exactly the given characters in order.
#[verifier::external_body]
pub fn chars_to_string(v: &Vec<char>) -> (r: String)
    ensures
        r@ == v@,
{
    v.iter().collect()
}

/// What lossy UTF-8 decoding makes of a byte sequence; it depends on the
/// bytes alone.
pub uninterp spec fn utf8_lossy(bytes: Seq<u8>) -> Seq<char>;

/// Relies on `String::from_utf8_lossy`: decodes the bytes as UTF-8,
/// mapping each invalid sequence to the replacement character; the
/// result depends on the bytes alone, and no bytes yield no characters.
#[verifier::external_body]
pub fn bytes_to_text(bytes: &Vec<u8>) -> (r: String)
    ensures
        r@ == utf8_lossy(bytes@),
        bytes@.len() == 0 ==> r@.len() == 0,
{
    String::from_utf8_lossy(bytes).into_owned()
}

} // verus!
