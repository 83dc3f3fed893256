//! Secure password generation: an alphabet assembled from the enabled
//! character classes, and rejection sampling over a cryptographically
//! secure byte source, so that every position is drawn uniformly from the
//! alphabet with no modulo bias.

use vstd::prelude::*;
use crate::strconv::{chars_of, string_of};

verus! {

/// The lowercase character class.
pub open spec fn lowercase_chars() -> Seq<char> {
    "qwertyuiopasdfghjklzxcvbnm"@
}

/// The uppercase character class.
pub open spec fn uppercase_chars() -> Seq<char> {
    "QWERTYUIOPASDFGHJKLZXCVBNM"@
}

/// The digit character class.
pub open spec fn number_chars() -> Seq<char> {
    "1234567890"@
}

/// The punctuation character class.
pub open spec fn symbol_chars() -> Seq<char> {
    "!@#$%^&*()_+=-[]{};:'\"\\|,./~"@
}

/// The alphabet a password is sampled from: the enabled classes
/// concatenated in a fixed order.
pub open spec fn alphabet(lowercase: bool, uppercase: bool, numbers: bool, symbols: bool) -> Seq<
    char,
> {
    (if lowercase {
        lowercase_chars()
    } else {
        Seq::empty()
    }) + (if uppercase {
        uppercase_chars()
    } else {
        Seq::empty()
    }) + (if numbers {
        number_chars()
    } else {
        Seq::empty()
    }) + (if symbols {
        symbol_chars()
    } else {
        Seq::empty()
    })
}

/// The four class sizes, as the literals above have them.
pub proof fn lemma_class_sizes()
    ensures
        lowercase_chars().len() == 26,
        uppercase_chars().len() == 26,
        number_chars().len() == 10,
        symbol_chars().len() == 28,
{
    reveal_strlit("qwertyuiopasdfghjklzxcvbnm");
    reveal_strlit("QWERTYUIOPASDFGHJKLZXCVBNM");
    reveal_strlit("1234567890");
    reveal_strlit("!@#$%^&*()_+=-[]{};:'\"\\|,./~");
}

/// The alphabet is never larger than 90 characters, and it is non-empty as
/// soon as one class is enabled.
pub proof fn lemma_alphabet_size(lowercase: bool, uppercase: bool, numbers: bool, symbols: bool)
    ensures
        alphabet(lowercase, uppercase, numbers, symbols).len() <= 90,
        (lowercase || uppercase || numbers || symbols) ==> alphabet(
            lowercase,
            uppercase,
            numbers,
            symbols,
        ).len() >= 10,
{
    lemma_class_sizes();
}

/// The mask applied to a random byte before the rejection test: the
/// smallest value of the form `2^k - 1` out of 15, 31, 63 and 127 that
/// covers the index range `[0, max - 1]`.
pub open spec fn spec_and_value(max: int) -> int {
    if max <= 16 {
        15
    } else if max <= 32 {
        31
    } else if max <= 64 {
        63
    } else {
        127
    }
}

/// For every alphabet size, the derived mask is the smallest of 15, 31, 63
/// and 127 that is at least `max - 1`.
pub proof fn lemma_and_value_smallest(max: int)
    requires
        1 <= max <= 91,
    ensures
        spec_and_value(max) == 15 || spec_and_value(max) == 31 || spec_and_value(max) == 63
            || spec_and_value(max) == 127,
        max - 1 <= spec_and_value(max),
        max - 1 <= 15 ==> spec_and_value(max) <= 15,
        max - 1 <= 31 ==> spec_and_value(max) <= 31,
        max - 1 <= 63 ==> spec_and_value(max) <= 63,
        spec_and_value(max) <= 127,
{
}

/// Computes the mask for an alphabet of `max` characters.
pub fn and_value_for(max: u8) -> (r: u8)
    ensures
        r as int == spec_and_value(max as int),
{
    if max <= 16 {
        15
    } else if max <= 32 {
        31
    } else if max <= 64 {
        63
    } else {
        127
    }
}

/// Relies on `getrandom::getrandom` to fill the buffer from the operating
/// system's secure entropy source. Aborts the process if the source fails,
/// since no safe fallback exists. Nothing is assumed about the value that
/// comes back.
#[verifier::external_body]
fn random_byte() -> u8 {
    let mut buf = [0u8; 1];
    getrandom::getrandom(&mut buf).expect("cannot read from the system entropy source");
    buf[0]
}

/// Draws random bytes, masks them, and keeps the first masked value that
/// falls inside the index range: an unbiased uniform index in `[0, max)`.
/// Since the mask covers the range, each draw is accepted with probability
/// above one half, so the retry budget is exhausted only if ten thousand
/// independent draws in a row are rejected; in that practically
/// unreachable case the last draw is folded into range instead of
/// spinning forever.
fn sample_index(max: u8) -> (i: u8)
    requires
        1 <= max <= 91,
    ensures
        i < max,
{
    let and_value = and_value_for(max);
    let mut tries: u32 = 0;
    while tries < 10000
        invariant
            1 <= max,
        decreases 10000 - tries,
    {
        let b = random_byte();
        let masked = b & and_value;
        if masked < max {
            return masked;
        }
        tries += 1;
    }
    let b = random_byte();
    (b & and_value) % max
}

/// The outcome of a generation request: a password, or the report that no
/// character class was enabled.
#[derive(Debug)]
pub enum Generated {
    /// A freshly sampled password, wrapped in the fixed delimiter pair.
    Password(String),
    /// No class was enabled, so there was nothing to sample from.
    NoClasses,
}

/// Shape of a well-formed generated password text: delimiters around
/// exactly `length` characters, every one taken from the alphabet of the
/// enabled classes.
pub open spec fn password_text_ok(
    s: Seq<char>,
    length: int,
    lowercase: bool,
    uppercase: bool,
    numbers: bool,
    symbols: bool,
) -> bool {
    &&& s.len() == length + 2
    &&& s[0] == '`'
    &&& s[s.len() - 1] == '`'
    &&& forall|i: int|
        1 <= i < s.len() - 1 ==> alphabet(lowercase, uppercase, numbers, symbols).contains(s[i])
}

/// Generates a password of exactly `length` characters drawn independently
/// and uniformly from the union of the enabled character classes, or
/// reports that every class was disabled.
pub fn generate_password(
    length: u8,
    lowercase: bool,
    uppercase: bool,
    numbers: bool,
    symbols: bool,
) -> (r: Generated)
    requires
        1 <= length,
    ensures
        match r {
            Generated::NoClasses => !lowercase && !uppercase && !numbers && !symbols,
            Generated::Password(s) => (lowercase || uppercase || numbers || symbols)
                && password_text_ok(s@, length as int, lowercase, uppercase, numbers, symbols),
        },
{
    if !lowercase && !uppercase && !numbers && !symbols {
        return Generated::NoClasses;
    }
    let master = build_alphabet(lowercase, uppercase, numbers, symbols);
    proof {
        lemma_alphabet_size(lowercase, uppercase, numbers, symbols);
    }
    let max = master.len() as u8;
    let mut out: Vec<char> = Vec::new();
    out.push('`');
    let mut k: u8 = 0;
    while k < length
        invariant
            1 <= max <= 91,
            master@ == alphabet(lowercase, uppercase, numbers, symbols),
            max as int == master@.len(),
            0 <= k <= length,
            out@.len() == k + 1,
            out@[0] == '`',
            forall|i: int|
                1 <= i < out@.len() ==> alphabet(lowercase, uppercase, numbers, symbols).contains(
                    out@[i],
                ),
        decreases length - k,
    {
        let idx = sample_index(max);
        let c = master[idx as usize];
        proof {
            assert(alphabet(lowercase, uppercase, numbers, symbols).contains(master@[idx as int]));
        }
        out.push(c);
        k += 1;
    }
    out.push('`');
    Generated::Password(string_of(out))
}

/// Builds the concatenated alphabet of the enabled classes, in the fixed
/// class order.
fn build_alphabet(lowercase: bool, uppercase: bool, numbers: bool, symbols: bool) -> (v: Vec<char>)
    ensures
        v@ == alphabet(lowercase, uppercase, numbers, symbols),
{
    let mut v: Vec<char> = Vec::new();
    if lowercase {
        let mut c = chars_of("qwertyuiopasdfghjklzxcvbnm");
        v.append(&mut c);
    }
    if uppercase {
        let mut c = chars_of("QWERTYUIOPASDFGHJKLZXCVBNM");
        v.append(&mut c);
    }
    if numbers {
        let mut c = chars_of("1234567890");
        v.append(&mut c);
    }
    if symbols {
        let mut c = chars_of("!@#$%^&*()_+=-[]{};:'\"\\|,./~");
        v.append(&mut c);
    }
    proof {
        assert(v@ =~= alphabet(lowercase, uppercase, numbers, symbols));
    }
    v
}

} // verus!
