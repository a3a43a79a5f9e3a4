//! Verified string helpers: equality, substring search, decimal parsing,
//! and splitting a path into segments.

use vstd::prelude::*;

verus! {

/// Whether `hay` has `needle` as a contiguous subsequence. This is the
/// semantics of the title filter (a `LIKE '%needle%'` match, with the
/// store's collation taken as exact character equality).
pub open spec fn contains_seq(hay: Seq<char>, needle: Seq<char>) -> bool {
    exists|k: int|
        0 <= k && k + needle.len() <= hay.len() && #[trigger] hay.subrange(k, k + needle.len())
            == needle
}

/// Compares two string slices character by character.
pub fn str_eq(a: &str, b: &str) -> (r: bool)
    ensures
        r == (a@ == b@),
{
    let na = a.unicode_len();
    let nb = b.unicode_len();
    if na != nb {
        return false;
    }
    let mut i: usize = 0;
    while i < na
        invariant
            i <= na,
            na == a@.len(),
            na == b@.len(),
            forall|j: int| 0 <= j < i ==> a@[j] == b@[j],
        decreases na - i,
    {
        if a.get_char(i) != b.get_char(i) {
            return false;
        }
        i += 1;
    }
    proof {
        assert(a@ =~= b@);
    }
    true
}

/// Whether the `needle@.len()` characters of `hay` starting at `k` are
/// exactly `needle`.
fn match_at(hay: &str, k: usize, needle: &str) -> (r: bool)
    requires
        k + needle@.len() <= hay@.len(),
        k + needle@.len() <= usize::MAX,
    ensures
        r == (hay@.subrange(k as int, k as int + needle@.len() as int) == needle@),
{
    let m = needle.unicode_len();
    let mut j: usize = 0;
    while j < m
        invariant
            j <= m,
            m == needle@.len(),
            k + m <= hay@.len(),
            k + m <= usize::MAX,
            forall|t: int| 0 <= t < j ==> hay@[k + t] == needle@[t],
        decreases m - j,
    {
        if hay.get_char(k + j) != needle.get_char(j) {
            proof {
                let sub = hay@.subrange(k as int, k as int + needle@.len() as int);
                assert(sub[j as int] == hay@[k + j]);
            }
            return false;
        }
        j += 1;
    }
    proof {
        assert(hay@.subrange(k as int, k as int + needle@.len() as int) =~= needle@);
    }
    true
}

/// Substring search: whether `needle` occurs anywhere in `hay`.
pub fn contains_str(hay: &str, needle: &str) -> (r: bool)
    ensures
        r == contains_seq(hay@, needle@),
{
    let n = hay.unicode_len();
    let m = needle.unicode_len();
    if m > n {
        return false;
    }
    if m == 0 {
        proof {
            assert(hay@.subrange(0, 0 + needle@.len() as int) =~= needle@);
        }
        return true;
    }
    let mut k: usize = 0;
    while k <= n - m
        invariant
            0 < m <= n,
            n == hay@.len(),
            m == needle@.len(),
            k <= n - m + 1,
            forall|t: int|
                0 <= t < k ==> #[trigger] hay@.subrange(t, t + needle@.len() as int) != needle@,
        decreases n - k,
    {
        if match_at(hay, k, needle) {
            return true;
        }
        k += 1;
    }
    false
}

/// A decimal digit.
pub open spec fn is_digit(c: char) -> bool {
    48 <= c as u32 && c as u32 <= 57
}

/// The numeric value of one decimal digit.
pub open spec fn digit_val(c: char) -> int {
    (c as u32) - 48
}

/// Whether every character of `s` is a decimal digit.
pub open spec fn all_digits(s: Seq<char>) -> bool {
    forall|i: int| 0 <= i < s.len() ==> is_digit(#[trigger] s[i])
}

/// The value of a digit string, most significant digit first.
pub open spec fn digits_val(s: Seq<char>) -> int
    decreases s.len(),
{
    if s.len() == 0 {
        0
    } else {
        10 * digits_val(s.drop_last()) + digit_val(s.last())
    }
}

/// The digits of an optionally signed decimal string.
pub open spec fn int_body(s: Seq<char>) -> Seq<char> {
    if s.len() > 0 && (s[0] == '-' || s[0] == '+') {
        s.drop_first()
    } else {
        s
    }
}

/// The sign of an optionally signed decimal string.
pub open spec fn int_sign(s: Seq<char>) -> int {
    if s.len() > 0 && s[0] == '-' {
        -1
    } else {
        1
    }
}

/// The integer a decimal string denotes.
pub open spec fn int_of_str(s: Seq<char>) -> int {
    int_sign(s) * digits_val(int_body(s))
}

/// Whether `s` is a decimal string that an `i32` path parameter accepts: an
/// optional sign, at least one digit, and a value within `i32`'s range.
pub open spec fn is_i32_str(s: Seq<char>) -> bool {
    let b = int_body(s);
    b.len() > 0 && all_digits(b) && -0x8000_0000 <= int_of_str(s) <= 0x7fff_ffff
}

proof fn lemma_digits_val_nonneg(s: Seq<char>)
    requires
        all_digits(s),
    ensures
        digits_val(s) >= 0,
    decreases s.len(),
{
    if s.len() > 0 {
        lemma_digits_val_nonneg(s.drop_last());
    }
}

/// Appending digits never shrinks the value of a digit string.
proof fn lemma_digits_val_prefix_le(s: Seq<char>, k: int)
    requires
        all_digits(s),
        0 <= k <= s.len(),
    ensures
        digits_val(s.take(k)) <= digits_val(s),
    decreases s.len() - k,
{
    if k == s.len() {
        assert(s.take(k) =~= s);
    } else {
        let p = s.take(k);
        let q = s.take(k + 1);
        assert(q.drop_last() =~= p);
        lemma_digits_val_nonneg(p);
        assert(digits_val(q) == 10 * digits_val(p) + digit_val(s[k]));
        lemma_digits_val_prefix_le(s, k + 1);
    }
}

/// Parses an optionally signed decimal string as the store's ids are
/// parsed: `Some` exactly on the strings [`is_i32_str`] admits, with the
/// value they denote.
pub fn parse_i32(s: &str) -> (r: Option<i32>)
    ensures
        match r {
            Some(v) => is_i32_str(s@) && v as int == int_of_str(s@),
            None => !is_i32_str(s@),
        },
{
    let n = s.unicode_len();
    if n == 0 {
        return None;
    }
    let c0 = s.get_char(0);
    let neg = c0 == '-';
    let start: usize = if c0 == '-' || c0 == '+' {
        1
    } else {
        0
    };
    if start == n {
        return None;
    }
    let ghost body = int_body(s@);
    proof {
        assert(body =~= s@.subrange(start as int, n as int));
    }
    let mut acc: i64 = 0;
    let mut i: usize = start;
    while i < n
        invariant
            start <= i <= n,
            n == s@.len(),
            start < n,
            body == s@.subrange(start as int, n as int),
            body == int_body(s@),
            all_digits(s@.subrange(start as int, i as int)),
            acc == digits_val(s@.subrange(start as int, i as int)),
            0 <= acc <= 0x8000_0000,
        decreases n - i,
    {
        let ghost pre = s@.subrange(start as int, i as int);
        let c = s.get_char(i);
        let u = c as u32;
        if u < 48 || u > 57 {
            proof {
                assert(body[i - start] == s@[i as int]);
                assert(!is_digit(s@[i as int]));
            }
            return None;
        }
        let d = u - 48;
        proof {
            let cur = s@.subrange(start as int, i as int + 1);
            assert(cur.drop_last() =~= pre);
            assert(cur.last() == s@[i as int]);
        }
        acc = acc * 10 + (d as i64);
        i += 1;
        if acc > 2147483648 {
            proof {
                let cur = s@.subrange(start as int, i as int);
                if all_digits(body) {
                    assert(cur =~= body.take(i - start));
                    lemma_digits_val_prefix_le(body, i - start);
                    assert(digits_val(body) >= acc);
                    assert(int_of_str(s@) == int_sign(s@) * digits_val(body));
                    if int_sign(s@) == 1 {
                        assert(int_of_str(s@) > 0x7fff_ffff);
                    } else {
                        assert(int_of_str(s@) == -digits_val(body));
                        assert(int_of_str(s@) < -0x8000_0000);
                    }
                }
                assert(!is_i32_str(s@));
            }
            return None;
        }
    }
    proof {
        assert(s@.subrange(start as int, i as int) =~= body);
        assert(acc == digits_val(body));
        assert(body.len() > 0);
        lemma_digits_val_nonneg(body);
    }
    if neg {
        let v = -acc;
        proof {
            assert(int_sign(s@) == -1);
            assert(int_of_str(s@) == -digits_val(body));
        }
        return Some(v as i32);
    }
    proof {
        assert(int_sign(s@) == 1);
        assert(int_of_str(s@) == digits_val(body));
    }
    if acc > 2147483647 {
        return None;
    }
    Some(acc as i32)
}

/// The segments of `s` between its `/` characters; a string without `/` is
/// one segment, and every `/` separates two (possibly empty) segments.
pub open spec fn split_slash(s: Seq<char>) -> Seq<Seq<char>>
    decreases s.len(),
{
    if s.len() == 0 {
        seq![Seq::empty()]
    } else {
        let rest = split_slash(s.drop_last());
        if s.last() == '/' {
            rest.push(Seq::empty())
        } else {
            rest.update(rest.len() - 1, rest.last().push(s.last()))
        }
    }
}

/// Splitting yields at least one segment.
pub proof fn lemma_split_slash_len(s: Seq<char>)
    ensures
        split_slash(s).len() >= 1,
    decreases s.len(),
{
    if s.len() > 0 {
        lemma_split_slash_len(s.drop_last());
    }
}

/// Splits a path on `/` into its segments.
pub fn split_path(s: &str) -> (segs: Vec<String>)
    ensures
        segs.deep_view() == split_slash(s@),
{
    let n = s.unicode_len();
    let mut segs: Vec<String> = Vec::new();
    let mut start: usize = 0;
    let mut i: usize = 0;
    proof {
        assert(s@.take(0) =~= Seq::<char>::empty());
        assert(s@.subrange(0, 0) =~= Seq::<char>::empty());
        assert(split_slash(s@.take(0)) == seq![Seq::<char>::empty()]);
        assert(segs.deep_view().push(s@.subrange(0, 0)) =~= seq![Seq::<char>::empty()]);
    }
    while i < n
        invariant
            start <= i <= n,
            n == s@.len(),
            split_slash(s@.take(i as int)) == segs.deep_view().push(
                s@.subrange(start as int, i as int),
            ),
        decreases n - i,
    {
        let ghost pre = s@.take(i as int);
        let ghost cur = s@.subrange(start as int, i as int);
        let ghost dv0 = segs.deep_view();
        let c = s.get_char(i);
        proof {
            assert(s@.take(i as int + 1).drop_last() =~= pre);
            assert(s@.take(i as int + 1).last() == s@[i as int]);
            lemma_split_slash_len(pre);
        }
        if c == '/' {
            let seg = s.substring_char(start, i).to_owned();
            segs.push(seg);
            start = i + 1;
            proof {
                assert(segs.deep_view() =~= dv0.push(cur));
                assert(split_slash(s@.take(i as int + 1)) == split_slash(pre).push(
                    Seq::<char>::empty(),
                ));
                assert(s@.subrange(i as int + 1, i as int + 1) =~= Seq::<char>::empty());
                assert(split_slash(s@.take(i as int + 1)) == segs.deep_view().push(
                    s@.subrange(i as int + 1, i as int + 1),
                ));
            }
        } else {
            proof {
                let parts = dv0.push(cur);
                assert(split_slash(s@.take(i as int + 1)) == parts.update(
                    parts.len() - 1,
                    parts.last().push(s@[i as int]),
                ));
                assert(parts.last() == cur);
                assert(cur.push(s@[i as int]) =~= s@.subrange(start as int, i as int + 1));
                assert(parts.update(parts.len() - 1, parts.last().push(s@[i as int])) =~= dv0.push(
                    s@.subrange(start as int, i as int + 1),
                ));
            }
        }
        i += 1;
    }
    let ghost dv0 = segs.deep_view();
    let seg = s.substring_char(start, n).to_owned();
    segs.push(seg);
    proof {
        assert(segs.deep_view() =~= dv0.push(s@.subrange(start as int, n as int)));
        assert(s@.take(n as int) =~= s@);
    }
    segs
}

} // verus!
