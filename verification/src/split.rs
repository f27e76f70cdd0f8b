use vstd::prelude::*;
use crate::text::{chars_of, joined};

verus! {

/// `sep` occurs in `s` starting at position `i`.
pub open spec fn match_at(s: Seq<char>, sep: Seq<char>, i: int) -> bool {
    0 <= i && i + sep.len() <= s.len() && s.subrange(i, i + sep.len()) == sep
}

/// The first position at or after `i` where `sep` occurs in `s`.
pub open spec fn first_match(s: Seq<char>, sep: Seq<char>, i: int) -> Option<int>
    decreases s.len() + 1 - i,
{
    if i < 0 || i + sep.len() > s.len() {
        None
    } else if match_at(s, sep, i) {
        Some(i)
    } else {
        first_match(s, sep, i + 1)
    }
}

/// `s` cut at each occurrence of the non-empty `sep`, scanning from the
/// left and not reusing characters of an occurrence (as `str::split`
/// does).
pub open spec fn split_on(s: Seq<char>, sep: Seq<char>) -> Seq<Seq<char>>
    decreases s.len(),
{
    if sep.len() == 0 {
        seq![s]
    } else {
        match first_match(s, sep, 0) {
            Some(i) => if 0 <= i && i + sep.len() <= s.len() {
                seq![s.take(i)] + split_on(s.skip(i + sep.len()), sep)
            } else {
                seq![s]
            },
            None => seq![s],
        }
    }
}

proof fn lemma_first_match_at(s: Seq<char>, sep: Seq<char>, q: int, m: int)
    requires
        0 <= q <= m,
        match_at(s, sep, m),
        forall|p: int| q <= p < m ==> !match_at(s, sep, p),
    ensures
        first_match(s, sep, q) == Some(m),
    decreases m - q,
{
    if q < m {
        lemma_first_match_at(s, sep, q + 1, m);
    }
}

proof fn lemma_first_match_none(s: Seq<char>, sep: Seq<char>, q: int)
    requires
        0 <= q,
        sep.len() > 0,
        forall|p: int| q <= p < s.len() ==> !match_at(s, sep, p),
    ensures
        first_match(s, sep, q) is None,
    decreases s.len() + 1 - q,
{
    if q + sep.len() <= s.len() {
        lemma_first_match_none(s, sep, q + 1);
    }
}

proof fn lemma_match_shift(s: Seq<char>, sep: Seq<char>, start: int, p: int)
    requires
        0 <= start <= s.len(),
        0 <= p,
    ensures
        match_at(s.skip(start), sep, p) == match_at(s, sep, p + start),
{
    if p + sep.len() <= s.len() - start {
        assert(s.skip(start).subrange(p, p + sep.len()) =~= s.subrange(p + start, p + start + sep.len()));
    }
}

proof fn lemma_joined_cons(a: Seq<char>, rest: Seq<Seq<char>>, sep: Seq<char>)
    requires
        rest.len() > 0,
    ensures
        joined(seq![a] + rest, sep) == a + sep + joined(rest, sep),
    decreases rest.len(),
{
    let all = seq![a] + rest;
    if rest.len() == 1 {
        assert(all.drop_last() =~= seq![a]);
        assert(rest.drop_last() =~= Seq::<Seq<char>>::empty());
        assert(all.last() == rest[0]);
        assert(joined(seq![a], sep) == a);
        assert(joined(rest, sep) == rest[0]);
        assert(joined(all, sep) == joined(all.drop_last(), sep) + sep + all.last());
    } else {
        assert(all.drop_last() =~= seq![a] + rest.drop_last());
        lemma_joined_cons(a, rest.drop_last(), sep);
        assert(all.last() == rest.last());
        assert(joined(all, sep) == joined(all.drop_last(), sep) + sep + all.last());
        assert(joined(rest, sep) == joined(rest.drop_last(), sep) + sep + rest.last());
        assert(joined(all, sep) =~= a + sep + joined(rest, sep));
    }
}

/// Joining the parts of a split with the separator gives the text back.
pub proof fn lemma_split_join(s: Seq<char>, sep: Seq<char>)
    requires
        sep.len() > 0,
    ensures
        joined(split_on(s, sep), sep) == s,
    decreases s.len(),
{
    match first_match(s, sep, 0) {
        Some(i) => {
            if 0 <= i && i + sep.len() <= s.len() {
                let rest = s.skip(i + sep.len());
                lemma_split_join(rest, sep);
                let parts = split_on(rest, sep);
                assert(parts.len() > 0) by {
                    reveal_with_fuel(split_on, 1);
                }
                lemma_joined_cons(s.take(i), parts, sep);
                assert(s.subrange(i, i + sep.len()) == sep) by {
                    lemma_first_match_found(s, sep, 0);
                }
                assert(s =~= s.take(i) + s.subrange(i, i + sep.len()) + rest);
            }
        },
        None => {},
    }
}

proof fn lemma_first_match_before(s: Seq<char>, sep: Seq<char>, q: int)
    requires
        0 <= q,
    ensures
        first_match(s, sep, q) matches Some(i) ==> forall|p: int| q <= p < i ==> !match_at(s, sep, p),
        first_match(s, sep, q) is None ==> forall|p: int| q <= p ==> !match_at(s, sep, p),
    decreases s.len() + 1 - q,
{
    if !(q + sep.len() > s.len()) && !match_at(s, sep, q) {
        lemma_first_match_before(s, sep, q + 1);
    }
}

/// No part of a split holds the separator: each occurrence of `sep` in `s`
/// is a cut, so the parts are exactly the stretches between occurrences
/// (together with `lemma_split_join`, this determines the split).
pub proof fn lemma_split_parts_free_of_sep(s: Seq<char>, sep: Seq<char>)
    requires
        sep.len() > 0,
    ensures
        forall|k: int, p: int|
            0 <= k < split_on(s, sep).len() ==> !(#[trigger] match_at(split_on(s, sep)[k], sep, p)),
    decreases s.len(),
{
    lemma_first_match_before(s, sep, 0);
    lemma_first_match_found(s, sep, 0);
    match first_match(s, sep, 0) {
        Some(i) => {
            if 0 <= i && i + sep.len() <= s.len() {
                let head = s.take(i);
                let rest = s.skip(i + sep.len());
                lemma_split_parts_free_of_sep(rest, sep);
                assert forall|p: int| !match_at(head, sep, p) by {
                    if match_at(head, sep, p) {
                        assert(head.subrange(p, p + sep.len()) =~= s.subrange(p, p + sep.len()));
                        assert(match_at(s, sep, p));
                    }
                }
                let parts = split_on(s, sep);
                assert(parts == seq![head] + split_on(rest, sep));
                assert forall|k: int, p: int| 0 <= k < parts.len() implies !(#[trigger] match_at(parts[k], sep, p)) by {
                    if k > 0 {
                        assert(parts[k] == split_on(rest, sep)[k - 1]);
                    }
                }
            } else {
                assert(split_on(s, sep) == seq![s]);
            }
        },
        None => {
            assert(split_on(s, sep) == seq![s]);
        },
    }
}

proof fn lemma_first_match_found(s: Seq<char>, sep: Seq<char>, q: int)
    ensures
        first_match(s, sep, q) matches Some(i) ==> q <= i && match_at(s, sep, i),
    decreases s.len() + 1 - q,
{
    if !(q < 0 || q + sep.len() > s.len()) && !match_at(s, sep, q) {
        lemma_first_match_found(s, sep, q + 1);
    }
}

/// Splits `s` at each occurrence of the non-empty separator `sep`.
pub fn split_str(s: &str, sep: &str) -> (parts: Vec<String>)
    requires
        sep@.len() > 0,
    ensures
        parts@.map_values(|p: String| p@) == split_on(s@, sep@),
{
    let x = chars_of(s);
    let pat = chars_of(sep);
    let n = x.len();
    let m = pat.len();
    let mut parts: Vec<String> = Vec::new();
    let mut cur = String::new();
    let mut start: usize = 0;
    let mut i: usize = 0;
    proof {
        assert(x@.skip(0) =~= x@);
        assert(parts@.map_values(|p: String| p@) =~= Seq::<Seq<char>>::empty());
    }
    while i < n
        invariant
            x@ == s@,
            pat@ == sep@,
            n == x@.len(),
            m == pat@.len(),
            m > 0,
            start <= i <= n,
            cur@ == x@.subrange(start as int, i as int),
            forall|p: int| start <= p < i ==> !match_at(x@, pat@, p),
            split_on(x@, pat@) == parts@.map_values(|p: String| p@) + split_on(x@.skip(start as int), pat@),
        decreases n - i,
    {
        // Does the separator start at i?
        let mut hit = m <= n - i;
        let mut k: usize = 0;
        while hit && k < m
            invariant
                i + m <= n ==> (hit ==> forall|q: int| 0 <= q < k ==> x@[i + q] == pat@[q]),
                i + m > n ==> !hit,
                k <= m,
                x@ == s@,
                pat@ == sep@,
                n == x@.len(),
                m == pat@.len(),
                i < n,
                !hit ==> !match_at(x@, pat@, i as int),
            decreases (m - k) + (if hit {
                1int
            } else {
                0int
            }),
        {
            if x[i + k] != pat[k] {
                proof {
                    if match_at(x@, pat@, i as int) {
                        assert(x@.subrange(i as int, i + m)[k as int] == x@[i + k]);
                    }
                }
                hit = false;
            } else {
                k += 1;
            }
        }
        if hit {
            proof {
                assert(x@.subrange(i as int, i + m) =~= pat@);
                let t = x@.skip(start as int);
                assert forall|p: int| 0 <= p < i - start implies !match_at(t, pat@, p) by {
                    lemma_match_shift(x@, pat@, start as int, p);
                }
                lemma_match_shift(x@, pat@, start as int, i - start);
                lemma_first_match_at(t, pat@, 0, i - start);
                assert(t.take(i - start) =~= x@.subrange(start as int, i as int));
                assert(t.skip(i - start + m) =~= x@.skip(i + m));
            }
            parts.push(cur);
            cur = String::new();
            i = i + m;
            start = i;
            proof {
                assert(x@.subrange(start as int, i as int) =~= Seq::<char>::empty());
            }
        } else {
            cur.push(x[i]);
            proof {
                assert(x@.subrange(start as int, i + 1) =~= x@.subrange(start as int, i as int).push(
                    x@[i as int],
                ));
            }
            i = i + 1;
        }
    }
    proof {
        let t = x@.skip(start as int);
        assert forall|p: int| 0 <= p < t.len() implies !match_at(t, pat@, p) by {
            lemma_match_shift(x@, pat@, start as int, p);
        }
        lemma_first_match_none(t, pat@, 0);
        assert(t =~= x@.subrange(start as int, n as int));
    }
    parts.push(cur);
    proof {
        assert(parts@.map_values(|p: String| p@) =~= parts@.drop_last().map_values(|p: String| p@)
            + seq![cur@]);
    }
    parts
}

} // verus!
