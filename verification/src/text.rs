//! Character-sequence helpers the download worker's decisions rest on:
//! substring search for the content-type filter, the subtype of a
//! content-type (the part after the last `/`, stripped of any `;`-delimited
//! parameter), and whether a filename's last path component carries an
//! extension.

use vstd::prelude::*;

verus! {

/// Whether `needle` occurs contiguously inside `hay`.
pub open spec fn contains_seq(hay: Seq<char>, needle: Seq<char>) -> bool {
    exists|i: int|
        0 <= i <= hay.len() - needle.len() && #[trigger] hay.subrange(i, i + needle.len())
            == needle
}

/// Whether the character `c` occurs in `s`.
pub open spec fn seq_has_char(s: Seq<char>, c: char) -> bool {
    exists|j: int| 0 <= j < s.len() && s[j] == c
}

/// The suffix of `s` after the last occurrence of `c`; all of `s` when `c`
/// does not occur.
pub open spec fn after_last(s: Seq<char>, c: char) -> Seq<char>
    decreases s.len(),
{
    if s.len() == 0 {
        s
    } else if s.last() == c {
        Seq::empty()
    } else {
        after_last(s.drop_last(), c).push(s.last())
    }
}

/// The prefix of `s` before the first occurrence of `c`; all of `s` when `c`
/// does not occur.
pub open spec fn before_first(s: Seq<char>, c: char) -> Seq<char>
    decreases s.len(),
{
    if s.len() == 0 {
        s
    } else if s[0] == c {
        Seq::empty()
    } else {
        seq![s[0]] + before_first(s.skip(1), c)
    }
}

/// `after_last` is the subrange that starts right after the last occurrence
/// of `c` (at the start when there is none).
proof fn lemma_after_last_subrange(s: Seq<char>, c: char, p: int)
    requires
        0 <= p <= s.len(),
        forall|j: int| p <= j < s.len() ==> s[j] != c,
        p > 0 ==> s[p - 1] == c,
    ensures
        after_last(s, c) == s.subrange(p, s.len() as int),
    decreases s.len(),
{
    if p == s.len() {
        if p == 0 {
            assert(after_last(s, c) =~= s.subrange(p, s.len() as int));
        } else {
            assert(s.last() == c);
            assert(after_last(s, c) =~= s.subrange(p, s.len() as int));
        }
    } else {
        assert(s.last() != c);
        let s0 = s.drop_last();
        lemma_after_last_subrange(s0, c, p);
        assert(after_last(s, c) =~= s.subrange(p, s.len() as int));
    }
}

/// `before_first` is the subrange that ends at the first occurrence of `c`
/// (all of `s` when there is none).
proof fn lemma_before_first_subrange(s: Seq<char>, c: char, q: int)
    requires
        0 <= q <= s.len(),
        forall|j: int| 0 <= j < q ==> s[j] != c,
        q < s.len() ==> s[q] == c,
    ensures
        before_first(s, c) == s.subrange(0, q),
    decreases s.len(),
{
    if q == 0 {
        if s.len() == 0 {
            assert(before_first(s, c) =~= s.subrange(0, 0));
        } else {
            assert(s[0] == c);
            assert(before_first(s, c) =~= s.subrange(0, 0));
        }
    } else {
        assert(s[0] != c);
        let s1 = s.skip(1);
        assert(forall|j: int| 0 <= j < q - 1 ==> s1[j] != c);
        lemma_before_first_subrange(s1, c, q - 1);
        assert(before_first(s, c) =~= s.subrange(0, q));
    }
}

/// Whether `needle` occurs at position `i` of `hay`.
fn match_at(hay: &str, needle: &str, i: usize) -> (r: bool)
    requires
        i + needle@.len() <= hay@.len(),
    ensures
        r == (hay@.subrange(i as int, i as int + needle@.len() as int) == needle@),
{
    let hl = hay.unicode_len();
    let nl = needle.unicode_len();
    let mut k: usize = 0;
    while k < nl
        invariant
            hl == hay@.len(),
            nl == needle@.len(),
            i + nl <= hl,
            0 <= k <= nl,
            forall|m: int| 0 <= m < k ==> hay@[i + m] == needle@[m],
        decreases nl - k,
    {
        if hay.get_char(i + k) != needle.get_char(k) {
            proof {
                let sub = hay@.subrange(i as int, i as int + nl as int);
                assert(sub[k as int] == hay@[i + k]);
                assert(sub != needle@);
            }
            return false;
        }
        k += 1;
    }
    proof {
        assert(hay@.subrange(i as int, i as int + nl as int) =~= needle@);
    }
    true
}

/// Whether `needle` occurs contiguously inside `hay`.
pub fn str_contains(hay: &str, needle: &str) -> (r: bool)
    ensures
        r == contains_seq(hay@, needle@),
{
    let hl = hay.unicode_len();
    let nl = needle.unicode_len();
    if nl > hl {
        return false;
    }
    if nl == 0 {
        proof {
            assert(hay@.subrange(0, 0 + needle@.len() as int) =~= needle@);
        }
        return true;
    }
    let mut i: usize = 0;
    while i <= hl - nl
        invariant
            hl == hay@.len(),
            nl == needle@.len(),
            0 < nl <= hl,
            0 <= i <= hl - nl + 1,
            forall|k: int|
                0 <= k < i ==> #[trigger] hay@.subrange(k, k + nl as int) != needle@,
        decreases hl - nl + 1 - i,
    {
        if match_at(hay, needle, i) {
            return true;
        }
        i += 1;
    }
    false
}

/// The index right after the last occurrence of `c` in `s`; 0 when `c` does
/// not occur.
fn cut_after_last(s: &str, c: char) -> (p: usize)
    ensures
        0 <= p <= s@.len(),
        forall|j: int| p <= j < s@.len() ==> s@[j] != c,
        p > 0 ==> s@[p - 1] == c,
{
    let len = s.unicode_len();
    let mut p: usize = 0;
    let mut i: usize = 0;
    while i < len
        invariant
            len == s@.len(),
            0 <= p <= i <= len,
            forall|j: int| p <= j < i ==> s@[j] != c,
            p > 0 ==> s@[p - 1] == c,
        decreases len - i,
    {
        if s.get_char(i) == c {
            p = i + 1;
        }
        i += 1;
    }
    p
}

/// The index of the first occurrence of `c` in `s` at or after `from`;
/// `s.len()` when there is none.
fn find_first_from(s: &str, c: char, from: usize) -> (q: usize)
    requires
        from <= s@.len(),
    ensures
        from <= q <= s@.len(),
        forall|j: int| from <= j < q ==> s@[j] != c,
        q < s@.len() ==> s@[q as int] == c,
{
    let len = s.unicode_len();
    let mut i: usize = from;
    while i < len
        invariant
            len == s@.len(),
            from <= i <= len,
            forall|j: int| from <= j < i ==> s@[j] != c,
        decreases len - i,
    {
        if s.get_char(i) == c {
            return i;
        }
        i += 1;
    }
    len
}

/// The subtype of a content-type: what follows the last `/`, cut at the first
/// `;`. For `image/png` this is `png`; for `text/html; charset=utf-8` it is
/// `html`; for a string without `/` it is the part before any `;`.
pub open spec fn ext_of(ct: Seq<char>) -> Seq<char> {
    before_first(after_last(ct, '/'), ';')
}

/// Computes `ext_of`: the extension a content-type suggests.
pub fn content_subtype(ct: &str) -> (r: String)
    ensures
        r@ == ext_of(ct@),
{
    let len = ct.unicode_len();
    let p = cut_after_last(ct, '/');
    let q = find_first_from(ct, ';', p);
    proof {
        lemma_after_last_subrange(ct@, '/', p as int);
        let tail = ct@.subrange(p as int, len as int);
        assert(forall|j: int| 0 <= j < q - p ==> tail[j] != ';');
        lemma_before_first_subrange(tail, ';', q - p);
        assert(tail.subrange(0, q - p) =~= ct@.subrange(p as int, q as int));
    }
    let sub = ct.substring_char(p, q);
    sub.to_owned()
}

/// Whether the last path component of `name` contains a `.`, i.e. whether the
/// filename already carries an extension.
pub open spec fn tail_has_dot(name: Seq<char>) -> bool {
    seq_has_char(after_last(name, '/'), '.')
}

/// Computes `tail_has_dot`: whether the filename's last path component
/// already carries an extension.
pub fn filename_tail_has_dot(name: &str) -> (r: bool)
    ensures
        r == tail_has_dot(name@),
{
    let len = name.unicode_len();
    let p = cut_after_last(name, '/');
    proof {
        lemma_after_last_subrange(name@, '/', p as int);
    }
    let ghost tail = after_last(name@, '/');
    let mut i: usize = p;
    while i < len
        invariant
            len == name@.len(),
            0 <= p <= i <= len,
            tail == after_last(name@, '/'),
            tail == name@.subrange(p as int, len as int),
            forall|j: int| p <= j < i ==> name@[j] != '.',
        decreases len - i,
    {
        if name.get_char(i) == '.' {
            proof {
                assert(tail[i - p] == name@[i as int]);
            }
            return true;
        }
        i += 1;
    }
    proof {
        assert(forall|j: int| 0 <= j < tail.len() ==> tail[j] == name@[p + j] && tail[j] != '.');
    }
    false
}

} // verus!
