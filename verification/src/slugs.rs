//! Slug derivation for recipe titles.
//!
//! A slug is the lowercase, hyphen-separated form of a title: alphanumeric
//! characters are kept (uppercase folded to lowercase), every other run of
//! characters collapses to a single hyphen, and no hyphen leads or trails.
//! The derivation itself is done by the `slug` crate; for ASCII titles its
//! result is pinned here, character for character, by [`ascii_slug_of`].

use vstd::prelude::*;
use vstd::utf8::is_ascii_chars;

verus! {

/// An ASCII character that a slug keeps as it is: a lowercase letter or a
/// digit.
pub open spec fn slug_keeps(c: char) -> bool {
    ('a' <= c && c <= 'z') || ('0' <= c && c <= '9')
}

/// An uppercase ASCII letter, which a slug folds to lowercase.
pub open spec fn slug_folds(c: char) -> bool {
    'A' <= c && c <= 'Z'
}

/// The lowercase form of an uppercase ASCII letter.
pub open spec fn lower_ascii(c: char) -> char {
    ((c as u32) + 32) as char
}

/// The state of the folding pass over a title's characters: the slug built
/// so far, and whether the next separator must be suppressed (true at the
/// start and right after a hyphen).
pub struct SlugState {
    pub acc: Seq<char>,
    pub sep_pending: bool,
}

/// Folds one character into the slug being built: alphanumerics are kept
/// (lowercased), anything else becomes a single hyphen unless one was just
/// written or nothing was written yet.
pub open spec fn slug_step(st: SlugState, c: char) -> SlugState {
    if slug_keeps(c) {
        SlugState { acc: st.acc.push(c), sep_pending: false }
    } else if slug_folds(c) {
        SlugState { acc: st.acc.push(lower_ascii(c)), sep_pending: false }
    } else if st.sep_pending {
        st
    } else {
        SlugState { acc: st.acc.push('-'), sep_pending: true }
    }
}

/// The folding state after the whole character sequence has been processed.
pub open spec fn slug_fold(s: Seq<char>) -> SlugState
    decreases s.len(),
{
    if s.len() == 0 {
        SlugState { acc: Seq::empty(), sep_pending: true }
    } else {
        slug_step(slug_fold(s.drop_last()), s.last())
    }
}

/// The slug of an ASCII character sequence: the folding pass over its
/// characters, with the single trailing hyphen (if any) removed.
pub open spec fn ascii_slug_of(s: Seq<char>) -> Seq<char> {
    let acc = slug_fold(s).acc;
    if acc.len() > 0 && acc.last() == '-' {
        acc.drop_last()
    } else {
        acc
    }
}

/// The slug that the `slug` crate derives from a character sequence. It
/// depends on the characters alone; on ASCII input it equals
/// [`ascii_slug_of`], and on other input it first transliterates each
/// character to ASCII, which is not restated here.
pub uninterp spec fn slug_of(s: Seq<char>) -> Seq<char>;

/// Relies on slug::slugify: the result is a function of the input's
/// characters alone, and on ASCII input it is exactly the folding rule of
/// [`ascii_slug_of`] — keep alphanumerics, lowercase the uppercase ones,
/// collapse every other run to one hyphen, write no leading hyphen and
/// trim a trailing one.
#[verifier::external_body]
fn slugify_str(s: &str) -> (r: String)
    ensures
        r@ == slug_of(s@),
        is_ascii_chars(s@) ==> r@ == ascii_slug_of(s@),
{
    slug::slugify(s)
}

/// Derives the slug stored with a recipe from its title.
pub fn derive_slug(title: &str) -> (r: String)
    ensures
        r@ == slug_of(title@),
        is_ascii_chars(title@) ==> r@ == ascii_slug_of(title@),
{
    slugify_str(title)
}

} // verus!
