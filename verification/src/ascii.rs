//! ASCII case normalization for symbol identifiers.
//!
//! Symbols are normalized with a locale-independent, ASCII-only lowering:
//! the letters `'A'` through `'Z'` map to `'a'` through `'z'`, and every
//! other character (including non-ASCII ones) is left unchanged.

use vstd::prelude::*;

verus! {

/// True when `c` is an ASCII uppercase letter (`'A'` through `'Z'`).
pub open spec fn is_ascii_upper(c: char) -> bool {
    65 <= c as u32 && c as u32 <= 90
}

/// The ASCII-lowered form of one character: an uppercase ASCII letter is
/// shifted to its lowercase counterpart, every other character is kept.
pub open spec fn lower_char(c: char) -> char {
    if is_ascii_upper(c) {
        ((c as u32 + 32) as u32) as char
    } else {
        c
    }
}

/// The ASCII-lowered form of a character sequence, one character at a time.
pub open spec fn lower_seq(s: Seq<char>) -> Seq<char> {
    Seq::new(s.len(), |i: int| lower_char(s[i]))
}

/// True when no character of `s` is an ASCII uppercase letter, that is,
/// when `s` is already in its normalized form.
pub open spec fn is_lower_seq(s: Seq<char>) -> bool {
    forall|i: int| 0 <= i < s.len() ==> !is_ascii_upper(#[trigger] s[i])
}

/// Lowering a single character never yields an ASCII uppercase letter.
pub proof fn lemma_lower_char_is_lower(c: char)
    ensures
        !is_ascii_upper(lower_char(c)),
{
}

/// Lowering a character twice is the same as lowering it once.
pub proof fn lemma_lower_char_idempotent(c: char)
    ensures
        lower_char(lower_char(c)) == lower_char(c),
{
    lemma_lower_char_is_lower(c);
}

/// A sequence with no uppercase ASCII letters is unchanged by lowering:
/// normalizing an already-normalized symbol is a no-op.
pub proof fn lemma_lower_seq_noop(s: Seq<char>)
    requires
        is_lower_seq(s),
    ensures
        lower_seq(s) == s,
{
    assert(lower_seq(s) =~= s);
}

/// A lowered sequence contains no uppercase ASCII letters.
pub proof fn lemma_lower_seq_is_lower(s: Seq<char>)
    ensures
        is_lower_seq(lower_seq(s)),
{
    assert forall|i: int| 0 <= i < lower_seq(s).len() implies !is_ascii_upper(
        #[trigger] lower_seq(s)[i],
    ) by {
        lemma_lower_char_is_lower(s[i]);
    }
}

/// Lowering a sequence twice is the same as lowering it once.
pub proof fn lemma_lower_seq_idempotent(s: Seq<char>)
    ensures
        lower_seq(lower_seq(s)) == lower_seq(s),
{
    lemma_lower_seq_is_lower(s);
    lemma_lower_seq_noop(lower_seq(s));
}

/// Relies on `String::push`, which appends the given character to the
/// end of the string.
#[verifier::external_body]
fn push_char(s: &mut String, c: char)
    ensures
        final(s)@ == old(s)@.push(c),
{
    s.push(c);
}

/// Lowers one character, matching `lower_char`.
fn lower_char_exec(c: char) -> (r: char)
    ensures
        r == lower_char(c),
{
    let u = c as u32;
    if 65 <= u && u <= 90 {
        ((u + 32) as u8) as char
    } else {
        c
    }
}

/// Returns the ASCII-lowered copy of `s`: uppercase ASCII letters become
/// lowercase, all other characters are kept as they are.
pub fn to_lowercase(s: &str) -> (r: String)
    ensures
        r@ == lower_seq(s@),
{
    let n = s.unicode_len();
    let mut r = String::new();
    let mut i: usize = 0;
    while i < n
        invariant
            n == s@.len(),
            i <= n,
            r@.len() == i,
            forall|j: int| 0 <= j < i ==> r@[j] == lower_char(s@[j]),
        decreases n - i,
    {
        let c = s.get_char(i);
        let l = lower_char_exec(c);
        push_char(&mut r, l);
        i = i + 1;
    }
    assert(r@ =~= lower_seq(s@));
    r
}

} // verus!
