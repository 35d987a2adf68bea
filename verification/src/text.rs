//! Character and string helpers: ASCII lower-casing, substring search, and
//! decimal rendering of integers. All formatting in the crate is built from
//! these, so the exact text of every message is pinned by a spec function.

use vstd::prelude::*;
use vstd::string::*;

verus! {

/// Lower-case an ASCII letter; every other character is returned unchanged.
pub open spec fn lower_char(c: char) -> char {
    if 'A' <= c && c <= 'Z' {
        (((c as u8) + 32) as char)
    } else {
        c
    }
}

/// Character-wise ASCII lower-casing of a character sequence.
pub open spec fn lower_seq(s: Seq<char>) -> Seq<char> {
    s.map_values(|c: char| lower_char(c))
}

/// `needle` occurs as a contiguous run inside `hay`.
pub open spec fn has_substring(hay: Seq<char>, needle: Seq<char>) -> bool {
    exists|i: int|
        0 <= i && i + needle.len() <= hay.len() && #[trigger] hay.subrange(i, i + needle.len())
            == needle
}

/// The ASCII digit for `d` (meaningful for `d < 10`).
pub open spec fn digit_char(d: nat) -> char {
    (((48 + d) as u8) as char)
}

/// Decimal rendering of a natural number, most significant digit first.
pub open spec fn dec_str(n: nat) -> Seq<char>
    decreases n,
{
    if n < 10 {
        seq![digit_char(n)]
    } else {
        dec_str(n / 10).push(digit_char(n % 10))
    }
}

/// Decimal rendering padded with a leading zero to at least two digits.
pub open spec fn dec2_str(n: nat) -> Seq<char> {
    if n < 10 {
        seq!['0', digit_char(n)]
    } else {
        dec_str(n)
    }
}

fn lower_char_exec(c: char) -> (r: char)
    ensures
        r == lower_char(c),
{
    if 'A' <= c && c <= 'Z' {
        ((c as u8) + 32) as char
    } else {
        c
    }
}

/// Relies on String::push: appends the given character to the end of the string.
#[verifier::external_body]
fn push_char(s: &mut String, c: char)
    ensures
        final(s)@ == old(s)@.push(c),
{
    s.push(c)
}

/// The characters of `s`, in order, as a vector.
pub fn chars_of(s: &str) -> (r: Vec<char>)
    ensures
        r@ == s@,
{
    let n: usize = s.unicode_len();
    let mut r: Vec<char> = Vec::new();
    let mut i: usize = 0;
    while i < n
        invariant
            n == s@.len(),
            i <= n,
            r@ == s@.take(i as int),
        decreases n - i,
    {
        r.push(s.get_char(i));
        proof {
            assert(r@ =~= s@.take(i + 1));
        }
        i = i + 1;
    }
    proof {
        assert(r@ =~= s@);
    }
    r
}

/// ASCII lower-casing of `s`, as a vector of characters.
pub fn to_lower_chars(s: &str) -> (r: Vec<char>)
    ensures
        r@ == lower_seq(s@),
{
    let n: usize = s.unicode_len();
    let mut r: Vec<char> = Vec::new();
    let mut i: usize = 0;
    while i < n
        invariant
            n == s@.len(),
            i <= n,
            r@ == lower_seq(s@.take(i as int)),
        decreases n - i,
    {
        r.push(lower_char_exec(s.get_char(i)));
        proof {
            assert(r@ =~= lower_seq(s@.take(i + 1)));
        }
        i = i + 1;
    }
    proof {
        assert(r@ =~= lower_seq(s@));
    }
    r
}

/// ASCII lower-casing of `s`, as a fresh `String`.
pub fn to_lower_string(s: &str) -> (r: String)
    ensures
        r@ == lower_seq(s@),
{
    let n: usize = s.unicode_len();
    let mut r: String = String::new();
    let mut i: usize = 0;
    while i < n
        invariant
            n == s@.len(),
            i <= n,
            r@ == lower_seq(s@.take(i as int)),
        decreases n - i,
    {
        push_char(&mut r, lower_char_exec(s.get_char(i)));
        proof {
            assert(r@ =~= lower_seq(s@.take(i + 1)));
        }
        i = i + 1;
    }
    proof {
        assert(r@ =~= lower_seq(s@));
    }
    r
}

/// Whether `needle` occurs as a contiguous run inside `hay`.
pub fn find_substring(hay: &Vec<char>, needle: &Vec<char>) -> (r: bool)
    ensures
        r == has_substring(hay@, needle@),
{
    let nlen: usize = needle.len();
    let hlen: usize = hay.len();
    if nlen > hlen {
        return false;
    }
    if nlen == 0 {
        proof {
            assert(hay@.subrange(0, 0 + needle@.len() as int) =~= needle@);
        }
        return true;
    }
    let mut i: usize = 0;
    while i <= hlen - nlen
        invariant
            0 < nlen <= hlen,
            nlen == needle@.len(),
            hlen == hay@.len(),
            i <= hlen - nlen + 1,
            forall|ii: int|
                0 <= ii < i ==> #[trigger] hay@.subrange(ii, ii + nlen as int) != needle@,
        decreases hlen - nlen + 1 - i,
    {
        let mut j: usize = 0;
        let mut mismatch: bool = false;
        while j < nlen
            invariant
                nlen <= hlen,
                nlen == needle@.len(),
                hlen == hay@.len(),
                i + nlen <= hlen,
                j <= nlen,
                !mismatch ==> forall|k: int| 0 <= k < j ==> hay@[i + k] == needle@[k],
                mismatch ==> hay@.subrange(i as int, i + nlen as int) != needle@,
            decreases nlen - j,
        {
            if hay[i + j] != needle[j] {
                proof {
                    let sub = hay@.subrange(i as int, i + nlen as int);
                    assert(sub[j as int] == hay@[i + j]);
                }
                mismatch = true;
                j = nlen;
            } else {
                j = j + 1;
            }
        }
        if !mismatch {
            proof {
                assert(hay@.subrange(i as int, i + nlen as int) =~= needle@);
            }
            return true;
        }
        i = i + 1;
    }
    proof {
        assert forall|ii: int| !(0 <= ii && ii + needle@.len() <= hay@.len()
            && #[trigger] hay@.subrange(ii, ii + needle@.len() as int) == needle@) by {
            if 0 <= ii && ii + needle@.len() <= hay@.len() {
                assert(ii < i);
            }
        }
    }
    false
}

/// Appends the decimal rendering of `n` to `s`.
pub fn append_dec(s: &mut String, n: u64)
    ensures
        final(s)@ == old(s)@ + dec_str(n as nat),
    decreases n,
{
    if n < 10 {
        push_char(s, (48 + n as u8) as char);
        proof {
            assert(final(s)@ =~= old(s)@ + dec_str(n as nat));
        }
    } else {
        append_dec(s, n / 10);
        push_char(s, (48 + (n % 10) as u8) as char);
        proof {
            assert((48 + (n % 10) as u8) as char == digit_char((n % 10) as nat));
            assert(final(s)@ =~= old(s)@ + dec_str(n as nat));
        }
    }
}

/// Appends the decimal rendering of `n`, zero-padded to at least two digits.
pub fn append_dec2(s: &mut String, n: u64)
    ensures
        final(s)@ == old(s)@ + dec2_str(n as nat),
{
    if n < 10 {
        push_char(s, '0');
        push_char(s, (48 + n as u8) as char);
        proof {
            assert(final(s)@ =~= old(s)@ + dec2_str(n as nat));
        }
    } else {
        append_dec(s, n);
    }
}

pub const KB: u64 = 1024;

pub const MB: u64 = KB * 1024;

pub const GB: u64 = MB * 1024;

/// `bytes / unit` rendered with two decimal places, the hundredths rounded
/// to nearest (halves away from zero).
pub open spec fn spec_scaled(bytes: u64, unit: u64) -> Seq<char> {
    let h = (bytes as int * 100 + unit as int / 2) / unit as int;
    dec_str((h / 100) as nat) + seq!['.'] + dec2_str((h % 100) as nat)
}

/// The text `format_memory` produces: a size with two (rounded) decimal
/// places in the largest fitting binary unit, whole kibibytes below one
/// mebibyte.
pub open spec fn spec_format_memory(bytes: u64) -> Seq<char> {
    if bytes >= GB {
        spec_scaled(bytes, GB) + " GB"@
    } else if bytes >= MB {
        spec_scaled(bytes, MB) + " MB"@
    } else {
        dec_str((bytes / KB) as nat) + " KB"@
    }
}

/// The text `format_duration` produces: `hours:minutes:seconds`, each field
/// zero-padded to at least two digits.
pub open spec fn spec_format_duration(secs: u64) -> Seq<char> {
    dec2_str((secs / 3600) as nat) + seq![':'] + dec2_str((secs % 3600 / 60) as nat) + seq![':']
        + dec2_str((secs % 60) as nat)
}

/// Appends `bytes / unit` with two decimal places, hundredths rounded to
/// nearest.
fn append_scaled(r: &mut String, bytes: u64, unit: u64)
    requires
        unit == MB || unit == GB,
    ensures
        final(r)@ == old(r)@ + spec_scaled(bytes, unit),
{
    let h: u128 = (bytes as u128 * 100 + unit as u128 / 2) / unit as u128;
    let whole: u64 = (h / 100) as u64;
    let frac: u64 = (h % 100) as u64;
    append_dec(r, whole);
    push_char(r, '.');
    append_dec2(r, frac);
}

/// Renders a byte count in a human-readable binary unit.
pub fn format_memory(bytes: u64) -> (r: String)
    ensures
        r@ == spec_format_memory(bytes),
{
    let mut r: String = String::new();
    if bytes >= GB {
        append_scaled(&mut r, bytes, GB);
        r.append(" GB");
    } else if bytes >= MB {
        append_scaled(&mut r, bytes, MB);
        r.append(" MB");
    } else {
        append_dec(&mut r, bytes / KB);
        r.append(" KB");
    }
    r
}

/// Renders a duration in seconds as `hh:mm:ss` (hours may exceed two digits).
pub fn format_duration(secs: u64) -> (r: String)
    ensures
        r@ == spec_format_duration(secs),
{
    let mut r: String = String::new();
    append_dec2(&mut r, secs / 3600);
    push_char(&mut r, ':');
    append_dec2(&mut r, secs % 3600 / 60);
    push_char(&mut r, ':');
    append_dec2(&mut r, secs % 60);
    r
}

} // verus!
