//! Character-level text utilities: searching for a literal pattern,
//! splitting on it, joining with a separator, trimming whitespace, and
//! converting between `&str`, `Vec<char>` and `String`.
//!
//! All executable functions work on `Vec<char>` so that every character,
//! including multi-byte glyphs, is one element; the specs speak of
//! `Seq<char>`.

use vstd::prelude::*;

verus! {

/// The characters the lexer treats as whitespace.
pub open spec fn is_space_char(c: char) -> bool {
    c == ' ' || c == '\t' || c == '\r' || c == '\n'
}

/// Executable whitespace test, equal to `is_space_char`.
pub fn is_space(c: char) -> (r: bool)
    ensures
        r == is_space_char(c),
{
    c == ' ' || c == '\t' || c == '\r' || c == '\n'
}

/// The pattern `p` occurs in `s` starting at index `i`.
pub open spec fn match_at(s: Seq<char>, p: Seq<char>, i: int) -> bool {
    &&& 0 <= i
    &&& i + p.len() <= s.len()
    &&& s.subrange(i, i + p.len() as int) == p
}

/// The least index `j >= i` at which `p` occurs in `s`, if any.
pub open spec fn find_from(s: Seq<char>, p: Seq<char>, i: int) -> Option<int>
    decreases s.len() + 1 - i,
{
    if i < 0 || i + p.len() > s.len() {
        None
    } else if match_at(s, p, i) {
        Some(i)
    } else {
        find_from(s, p, i + 1)
    }
}

/// `p` occurs somewhere in `s`.
pub open spec fn contains_sub(s: Seq<char>, p: Seq<char>) -> bool {
    find_from(s, p, 0) is Some
}

/// A found index is a real match, and no smaller index from the start
/// of the search matches.
pub proof fn lemma_find_from_some(s: Seq<char>, p: Seq<char>, i: int)
    requires
        find_from(s, p, i) is Some,
    ensures
        match_at(s, p, find_from(s, p, i)->Some_0),
        find_from(s, p, i)->Some_0 >= i,
        forall|j: int| i <= j < find_from(s, p, i)->Some_0 ==> !match_at(s, p, j),
    decreases s.len() + 1 - i,
{
    if !(i < 0 || i + p.len() > s.len()) && !match_at(s, p, i) {
        lemma_find_from_some(s, p, i + 1);
    }
}

/// The segments of `s` between non-overlapping, leftmost occurrences of
/// the separator `p`; a string without the separator is one segment.
pub open spec fn split_on(s: Seq<char>, p: Seq<char>) -> Seq<Seq<char>>
    decreases s.len(),
{
    match find_from(s, p, 0) {
        Some(i) => if 0 <= i && 1 <= p.len() && i + p.len() <= s.len() {
            seq![s.take(i)] + split_on(s.skip(i + p.len() as int), p)
        } else {
            seq![s]
        },
        None => seq![s],
    }
}

/// How one splitting step unfolds once the found index is known sound.
pub proof fn lemma_split_on_step(s: Seq<char>, p: Seq<char>)
    requires
        p.len() >= 1,
    ensures
        match find_from(s, p, 0) {
            Some(i) => split_on(s, p) == seq![s.take(i)] + split_on(s.skip(i + p.len() as int), p),
            None => split_on(s, p) == seq![s],
        },
{
    if find_from(s, p, 0) is Some {
        lemma_find_from_some(s, p, 0);
    }
}

/// `parts` glued together with `sep` between consecutive parts.
pub open spec fn join_with(parts: Seq<Seq<char>>, sep: Seq<char>) -> Seq<char>
    decreases parts.len(),
{
    if parts.len() == 0 {
        Seq::<char>::empty()
    } else if parts.len() == 1 {
        parts[0]
    } else {
        parts[0] + sep + join_with(parts.skip(1), sep)
    }
}

/// Appending one more part appends one separator and that part.
pub proof fn lemma_join_push(parts: Seq<Seq<char>>, sep: Seq<char>, x: Seq<char>)
    ensures
        join_with(parts.push(x), sep) == if parts.len() == 0 {
            x
        } else {
            join_with(parts, sep) + sep + x
        },
    decreases parts.len(),
{
    if parts.len() == 0 {
        assert(parts.push(x) =~= seq![x]);
        assert(join_with(parts.push(x), sep) == x);
    } else if parts.len() == 1 {
        assert(parts.push(x).skip(1) =~= seq![x]);
        assert(join_with(seq![x], sep) == x);
        assert(join_with(parts.push(x), sep) == parts.push(x)[0] + sep + join_with(
            parts.push(x).skip(1),
            sep,
        ));
        assert(join_with(parts.push(x), sep) == parts[0] + sep + x);
    } else {
        assert(parts.push(x).skip(1) =~= parts.skip(1).push(x));
        lemma_join_push(parts.skip(1), sep, x);
        assert(join_with(parts.push(x), sep) == parts[0] + sep + join_with(
            parts.skip(1).push(x),
            sep,
        ));
        assert(join_with(parts, sep) + sep + x == parts[0] + sep + (join_with(parts.skip(1), sep)
            + sep + x));
    }
}

/// Every occurrence of `pat` replaced by `rep`, left to right.
pub open spec fn replace_all(s: Seq<char>, pat: Seq<char>, rep: Seq<char>) -> Seq<char> {
    join_with(split_on(s, pat), rep)
}

/// `s` without its leading whitespace.
pub open spec fn trim_left(s: Seq<char>) -> Seq<char>
    decreases s.len(),
{
    if s.len() > 0 && is_space_char(s[0]) {
        trim_left(s.drop_first())
    } else {
        s
    }
}

/// `s` without its trailing whitespace.
pub open spec fn trim_right(s: Seq<char>) -> Seq<char>
    decreases s.len(),
{
    if s.len() > 0 && is_space_char(s.last()) {
        trim_right(s.drop_last())
    } else {
        s
    }
}

/// `s` without leading and trailing whitespace.
pub open spec fn trim(s: Seq<char>) -> Seq<char> {
    trim_right(trim_left(s))
}

/// Relies on `String::push` from std: appends exactly one character.
#[verifier::external_body]
pub(crate) fn push_char(s: &mut String, c: char)
    ensures
        final(s)@ == old(s)@.push(c),
{
    s.push(c)
}

/// The characters of `s`, one element each.
pub fn str_to_chars(s: &str) -> (r: Vec<char>)
    ensures
        r@ == s@,
{
    let n: usize = s.unicode_len();
    let mut r: Vec<char> = Vec::new();
    let mut i: usize = 0;
    while i < n
        invariant
            n == s@.len(),
            i <= n,
            r@ == s@.take(i as int),
        decreases n - i,
    {
        r.push(s.get_char(i));
        assert(s@.take(i + 1 as int) =~= s@.take(i as int).push(s@[i as int]));
        i = i + 1;
    }
    assert(s@.take(n as int) =~= s@);
    r
}

/// A `String` holding exactly the characters of `v`.
pub fn chars_to_string(v: &Vec<char>) -> (r: String)
    ensures
        r@ == v@,
{
    let mut r: String = String::new();
    let mut i: usize = 0;
    while i < v.len()
        invariant
            i <= v@.len(),
            r@ == v@.take(i as int),
        decreases v@.len() - i,
    {
        push_char(&mut r, v[i]);
        assert(v@.take(i + 1 as int) =~= v@.take(i as int).push(v@[i as int]));
        i = i + 1;
    }
    assert(v@.take(v@.len() as int) =~= v@);
    r
}

/// The characters of `v` from `a` (inclusive) to `b` (exclusive).
pub fn subvec(v: &Vec<char>, a: usize, b: usize) -> (r: Vec<char>)
    requires
        a <= b <= v@.len(),
    ensures
        r@ == v@.subrange(a as int, b as int),
{
    let mut r: Vec<char> = Vec::new();
    let mut i: usize = a;
    while i < b
        invariant
            a <= i <= b <= v@.len(),
            r@ == v@.subrange(a as int, i as int),
        decreases b - i,
    {
        r.push(v[i]);
        assert(v@.subrange(a as int, i + 1 as int) =~= v@.subrange(a as int, i as int).push(
            v@[i as int],
        ));
        i = i + 1;
    }
    r
}

/// Whether `v` holds the character `c` anywhere.
pub fn contains_char(v: &Vec<char>, c: char) -> (r: bool)
    ensures
        r == v@.contains(c),
{
    let mut i: usize = 0;
    while i < v.len()
        invariant
            i <= v@.len(),
            forall|j: int| 0 <= j < i ==> v@[j] != c,
        decreases v@.len() - i,
    {
        if v[i] == c {
            return true;
        }
        i = i + 1;
    }
    false
}

/// Whether the characters of `v` equal the characters of `s`.
pub fn chars_eq_str(v: &Vec<char>, s: &str) -> (r: bool)
    ensures
        r == (v@ == s@),
{
    let n: usize = s.unicode_len();
    if v.len() != n {
        return false;
    }
    let mut i: usize = 0;
    while i < n
        invariant
            n == s@.len(),
            v@.len() == n,
            i <= n,
            forall|j: int| 0 <= j < i ==> v@[j] == s@[j],
        decreases n - i,
    {
        if v[i] != s.get_char(i) {
            return false;
        }
        i = i + 1;
    }
    assert(v@ =~= s@);
    true
}

/// The least index at or after `start` where `p` occurs in `v`, if any.
pub fn find_from_at(v: &Vec<char>, p: &Vec<char>, start: usize) -> (r: Option<usize>)
    requires
        p@.len() >= 1,
    ensures
        match r {
            Some(i) => find_from(v@, p@, start as int) == Some(i as int),
            None => find_from(v@, p@, start as int) is None,
        },
{
    if p.len() > v.len() {
        return None;
    }
    let last: usize = v.len() - p.len();
    let mut j: usize = start;
    while j <= last
        invariant
            p@.len() >= 1,
            v@.len() <= usize::MAX,
            last == v@.len() - p@.len(),
            find_from(v@, p@, start as int) == find_from(v@, p@, j as int),
        decreases last + 1 - j,
    {
        let mut k: usize = 0;
        let mut hit: bool = true;
        while k < p.len()
            invariant
                v@.len() <= usize::MAX,
                j + p@.len() <= v@.len(),
                k <= p@.len(),
                hit == (forall|m: int| 0 <= m < k ==> v@[j + m] == p@[m]),
            decreases p@.len() - k,
        {
            if v[j + k] != p[k] {
                hit = false;
                k = p.len();
            } else {
                assert(v@[j + k] == p@[k as int]);
                k = k + 1;
            }
        }
        if hit {
            assert(v@.subrange(j as int, j + p@.len() as int) =~= p@);
            assert(match_at(v@, p@, j as int));
            return Some(j);
        }
        assert(!match_at(v@, p@, j as int)) by {
            if match_at(v@, p@, j as int) {
                let sub = v@.subrange(j as int, j + p@.len() as int);
                assert(forall|m: int| 0 <= m < p@.len() ==> v@[j + m] == #[trigger] sub[m]);
                assert(forall|m: int| 0 <= m < p@.len() ==> v@[j + m] == #[trigger] p@[m]);
            }
        }
        j = j + 1;
    }
    assert(find_from(v@, p@, j as int) is None);
    None
}

/// The segments of `v` around leftmost occurrences of the separator `p`.
pub fn split_on_vec(v: &Vec<char>, p: &Vec<char>) -> (r: Vec<Vec<char>>)
    requires
        p@.len() >= 1,
    ensures
        r.deep_view() == split_on(v@, p@),
{
    let mut rest: Vec<char> = subvec(v, 0, v.len());
    let mut acc: Vec<Vec<char>> = Vec::new();
    assert(v@.subrange(0, v@.len() as int) =~= v@);
    loop
        invariant
            p@.len() >= 1,
            split_on(v@, p@) == acc.deep_view() + split_on(rest@, p@),
        decreases rest@.len() + 1,
    {
        let found: Option<usize> = find_from_at(&rest, p, 0);
        match found {
            Some(i) => {
                proof {
                    lemma_find_from_some(rest@, p@, 0);
                    lemma_split_on_step(rest@, p@);
                }
                let ghost pre_acc = acc.deep_view();
                let ghost pre_rest = rest@;
                let piece: Vec<char> = subvec(&rest, 0, i);
                let rest_len: usize = rest.len();
                let next: Vec<char> = subvec(&rest, i + p.len(), rest_len);
                acc.push(piece);
                rest = next;
                proof {
                    assert(pre_rest.take(i as int) =~= pre_rest.subrange(0, i as int));
                    assert(rest@ =~= pre_rest.skip(i + p@.len() as int));
                    assert(split_on(pre_rest, p@) == seq![pre_rest.take(i as int)] + split_on(
                        rest@,
                        p@,
                    ));
                    assert(acc.deep_view() =~~= pre_acc.push(pre_rest.take(i as int)));
                    assert(acc.deep_view() + split_on(rest@, p@) =~= pre_acc + (seq![
                        pre_rest.take(i as int),
                    ] + split_on(rest@, p@)));
                }
            },
            None => {
                let ghost pre_acc = acc.deep_view();
                let ghost pre_rest = rest@;
                acc.push(rest);
                proof {
                    assert(split_on(pre_rest, p@) =~= seq![pre_rest]);
                    assert(acc.deep_view() =~~= pre_acc.push(pre_rest));
                    assert(acc.deep_view() =~= pre_acc + seq![pre_rest]);
                }
                return acc;
            },
        }
    }
}

/// `parts` glued together with `sep` between consecutive parts.
pub fn join_with_vec(parts: &Vec<Vec<char>>, sep: &Vec<char>) -> (r: Vec<char>)
    ensures
        r@ == join_with(parts.deep_view(), sep@),
{
    let mut out: Vec<char> = Vec::new();
    let mut i: usize = 0;
    while i < parts.len()
        invariant
            i <= parts@.len(),
            out@ == join_with(parts.deep_view().take(i as int), sep@),
        decreases parts@.len() - i,
    {
        let ghost pre = parts.deep_view().take(i as int);
        if i > 0 {
            let mut k: usize = 0;
            while k < sep.len()
                invariant
                    k <= sep@.len(),
                    out@ == join_with(parts.deep_view().take(i as int), sep@) + sep@.take(k as int),
                decreases sep@.len() - k,
            {
                out.push(sep[k]);
                assert(sep@.take(k + 1 as int) =~= sep@.take(k as int).push(sep@[k as int]));
                k = k + 1;
            }
            assert(sep@.take(sep@.len() as int) =~= sep@);
        }
        let part: &Vec<char> = &parts[i];
        let mut k: usize = 0;
        while k < part.len()
            invariant
                k <= part@.len(),
                part@ == parts.deep_view()[i as int],
                i < parts@.len(),
                out@ == join_with(parts.deep_view().take(i as int), sep@) + (if i > 0 {
                    sep@
                } else {
                    Seq::<char>::empty()
                }) + part@.take(k as int),
            decreases part@.len() - k,
        {
            out.push(part[k]);
            assert(part@.take(k + 1 as int) =~= part@.take(k as int).push(part@[k as int]));
            k = k + 1;
        }
        proof {
            assert(part@.take(part@.len() as int) =~= part@);
            let dv = parts.deep_view();
            assert(dv.take(i + 1 as int) =~= dv.take(i as int).push(dv[i as int]));
            lemma_join_push(dv.take(i as int), sep@, dv[i as int]);
            if i == 0 {
                assert(out@ =~= dv[0]);
            } else {
                assert(out@ =~= join_with(dv.take(i as int), sep@) + sep@ + dv[i as int]);
            }
        }
        i = i + 1;
    }
    assert(parts.deep_view().take(parts@.len() as int) =~= parts.deep_view());
    out
}

/// Every occurrence of `pat` in `v` replaced by `rep`.
pub fn replace_all_vec(v: &Vec<char>, pat: &Vec<char>, rep: &Vec<char>) -> (r: Vec<char>)
    requires
        pat@.len() >= 1,
    ensures
        r@ == replace_all(v@, pat@, rep@),
{
    let parts: Vec<Vec<char>> = split_on_vec(v, pat);
    join_with_vec(&parts, rep)
}

/// Append every character of `piece` to `out`.
pub fn push_all(out: &mut Vec<char>, piece: &Vec<char>)
    ensures
        final(out)@ == old(out)@ + piece@,
{
    let mut i: usize = 0;
    assert(old(out)@ + piece@.take(0) =~= old(out)@);
    while i < piece.len()
        invariant
            i <= piece@.len(),
            out@ == old(out)@ + piece@.take(i as int),
        decreases piece@.len() - i,
    {
        out.push(piece[i]);
        assert(piece@.take(i + 1 as int) =~= piece@.take(i as int).push(piece@[i as int]));
        assert(old(out)@ + piece@.take(i + 1 as int) =~= (old(out)@ + piece@.take(i as int)).push(
            piece@[i as int],
        ));
        i = i + 1;
    }
    assert(piece@.take(piece@.len() as int) =~= piece@);
}

/// The greatest index at which `c` occurs in `s`, if any.
pub open spec fn rfind_char(s: Seq<char>, c: char) -> Option<int>
    decreases s.len(),
{
    if s.len() == 0 {
        None
    } else if s.last() == c {
        Some(s.len() - 1)
    } else {
        rfind_char(s.drop_last(), c)
    }
}

/// A found last index is in range and holds the character.
pub proof fn lemma_rfind_some(s: Seq<char>, c: char)
    requires
        rfind_char(s, c) is Some,
    ensures
        0 <= rfind_char(s, c)->Some_0 < s.len(),
        s[rfind_char(s, c)->Some_0] == c,
    decreases s.len(),
{
    if s.len() > 0 && s.last() != c {
        lemma_rfind_some(s.drop_last(), c);
        assert(s.drop_last()[rfind_char(s.drop_last(), c)->Some_0] == s[rfind_char(s, c)->Some_0]);
    }
}

/// The greatest index at which `c` occurs in `v`, if any.
pub fn rfind_char_vec(v: &Vec<char>, c: char) -> (r: Option<usize>)
    ensures
        (match r {
            Some(i) => rfind_char(v@, c) == Some(i as int),
            None => rfind_char(v@, c) is None,
        }),
{
    let mut h: usize = v.len();
    assert(v@.take(v@.len() as int) =~= v@);
    while h > 0
        invariant
            h <= v@.len(),
            rfind_char(v@, c) == rfind_char(v@.take(h as int), c),
        decreases h,
    {
        if v[h - 1] == c {
            assert(v@.take(h as int).last() == v@[h - 1]);
            return Some(h - 1);
        }
        assert(v@.take(h as int).last() == v@[h - 1]);
        assert(v@.take(h as int).drop_last() =~= v@.take(h - 1 as int));
        h = h - 1;
    }
    assert(v@.take(0) =~= Seq::<char>::empty());
    None
}

/// Taking one more element maps to pushing one more image.
pub proof fn lemma_map_take_step<A, B>(s: Seq<A>, f: spec_fn(A) -> B, i: int)
    requires
        0 <= i < s.len(),
    ensures
        s.take(i + 1).map_values(f) == s.take(i).map_values(f).push(f(s[i])),
{
    assert(s.take(i + 1) =~= s.take(i).push(s[i]));
    assert(s.take(i + 1).map_values(f) =~= s.take(i).map_values(f).push(f(s[i])));
}

/// `v` without leading and trailing whitespace.
pub fn trim_vec(v: &Vec<char>) -> (r: Vec<char>)
    ensures
        r@ == trim(v@),
{
    let mut lo: usize = 0;
    assert(v@.skip(0) =~= v@);
    while lo < v.len() && is_space(v[lo])
        invariant
            lo <= v@.len(),
            trim_left(v@) == trim_left(v@.skip(lo as int)),
        decreases v@.len() - lo,
    {
        assert(v@.skip(lo as int).drop_first() =~= v@.skip(lo + 1 as int));
        lo = lo + 1;
    }
    assert(trim_left(v@) =~= v@.skip(lo as int));
    let mut hi: usize = v.len();
    assert(v@.skip(lo as int) =~= v@.subrange(lo as int, v@.len() as int));
    while hi > lo && is_space(v[hi - 1])
        invariant
            lo <= hi <= v@.len(),
            trim_left(v@) == v@.skip(lo as int),
            trim_right(v@.skip(lo as int)) == trim_right(v@.subrange(lo as int, hi as int)),
        decreases hi,
    {
        assert(v@.subrange(lo as int, hi as int).drop_last() =~= v@.subrange(
            lo as int,
            hi - 1 as int,
        ));
        assert(v@.subrange(lo as int, hi as int).last() == v@[hi - 1]);
        hi = hi - 1;
    }
    proof {
        let piece = v@.subrange(lo as int, hi as int);
        if piece.len() > 0 {
            assert(piece.last() == v@[hi - 1]);
        }
        assert(trim_right(piece) =~= piece);
    }
    subvec(v, lo, hi)
}

} // verus!
