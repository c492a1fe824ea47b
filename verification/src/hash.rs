//! Hashes by which a stored value is told from a changed one.
use crate::json::{json_text_of, Json};
use crate::text::{is_white_space, kept, lemma_trim_both_fixed, trimmed};
use std::collections::hash_map::DefaultHasher;
use std::hash::Hash;
use std::hash::Hasher;
use vstd::prelude::*;
use vstd::std_specs::hash::DefaultHasherAdditionalSpecFns;

verus! {

broadcast use vstd::seq::group_seq_axioms;

/// What a hasher was given once a text was hashed with it.
pub uninterp spec fn hashed_with(before: Seq<Seq<u8>>, s: Seq<char>) -> Seq<Seq<u8>>;

/// `<str as std::hash::Hash>::hash`: gives the text to the hasher. What the hasher was given
/// afterwards depends on what it was given before and on the text alone.
#[verifier::external_body]
fn hash_text(s: &str, hasher: &mut DefaultHasher)
    ensures
        final(hasher)@ == hashed_with(old(hasher)@, s@),
{
    s.hash(hasher)
}

/// The hash of a text.
pub open spec fn text_hash(s: Seq<char>) -> u64 {
    DefaultHasher::spec_finish(hashed_with(Seq::empty(), s))
}

/// A digit of a number to the base of sixteen.
pub open spec fn hex_digit(n: nat) -> char {
    if n < 10 {
        ('0' as u32 + n) as char
    } else {
        ('a' as u32 + n - 10) as char
    }
}

/// The last digits of a number to the base of sixteen.
pub open spec fn hex(n: nat, width: nat) -> Seq<char>
    decreases width,
{
    if width == 0 {
        Seq::empty()
    } else {
        hex(n / 16, (width - 1) as nat).push(hex_digit(n % 16))
    }
}

fn hex_char(n: u8) -> (r: char)
    requires
        n < 16,
    ensures
        r == hex_digit(n as nat),
{
    if n < 10 {
        (48 + n) as char
    } else {
        (87 + n) as char
    }
}

/// The last digits of a number to the base of sixteen.
pub fn hex_text(n: u64, width: u8) -> (r: String)
    ensures
        r@ == hex(n as nat, width as nat),
    decreases width,
{
    if width == 0 {
        return String::new();
    }
    let mut out = hex_text(n / 16, width - 1);
    out.push(hex_char((n % 16) as u8));
    out
}

/// The hash of a value, in words: sixteen digits.
pub open spec fn hash_words(text: Seq<char>) -> Seq<char> {
    hex(text_hash(text) as nat, 16)
}

/// The hash of a value: that of its text.
pub fn stable_value_hash(value: &Json) -> (r: String)
    ensures
        r@ == hash_words(json_text_of(value@)),
{
    let mut hasher = DefaultHasher::new();
    hash_text(value.to_text().as_str(), &mut hasher);
    hex_text(hasher.finish(), 16)
}

proof fn lemma_hex(n: nat, width: nat)
    ensures
        hex(n, width).len() == width,
        forall|i: int| 0 <= i < width ==> !is_white_space(#[trigger] hex(n, width)[i]),
    decreases width,
{
    if width > 0 {
        lemma_hex(n / 16, (width - 1) as nat);
    }
}

/// There is nothing to trim of a hash.
pub proof fn lemma_hash_words_are_trimmed(text: Seq<char>)
    ensures
        trimmed(hash_words(text)) == hash_words(text),
        kept(hash_words(text)) == Some(hash_words(text)),
{
    let words = hash_words(text);
    lemma_hex(text_hash(text) as nat, 16);
    assert(!is_white_space(words[0]) && !is_white_space(words[15]));
    lemma_trim_both_fixed(words, |c: char| is_white_space(c));
}

} // verus!
