//! Normalized lists of names, as telephony trunks store them.
use vstd::prelude::*;
use crate::text::{lower_ascii, strings_of, to_ascii_lower, trim, trimmed};

verus! {

/// Text order: by character, a proper prefix first. This is the order of
/// `str`, whose bytes are UTF-8.
pub open spec fn text_lt(a: Seq<char>, b: Seq<char>) -> bool
    decreases a.len(),
{
    if a.len() == 0 {
        b.len() > 0
    } else if b.len() == 0 {
        false
    } else if a[0] != b[0] {
        a[0] < b[0]
    } else {
        text_lt(a.drop_first(), b.drop_first())
    }
}

proof fn lemma_text_lt_total(a: Seq<char>, b: Seq<char>)
    ensures
        a == b || text_lt(a, b) || text_lt(b, a),
        !(text_lt(a, b) && text_lt(b, a)),
        !text_lt(a, a),
    decreases a.len(),
{
    if a.len() > 0 && b.len() > 0 {
        lemma_text_lt_total(a.drop_first(), b.drop_first());
        if a[0] == b[0] && a.drop_first() == b.drop_first() {
            assert(a =~= seq![a[0]] + a.drop_first());
            assert(b =~= seq![b[0]] + b.drop_first());
        }
    }
    if a.len() > 0 {
        lemma_text_lt_total(a.drop_first(), a.drop_first());
    }
    if a.len() == 0 && b.len() == 0 {
        assert(a =~= b);
    }
}

proof fn lemma_text_lt_trans(a: Seq<char>, b: Seq<char>, c: Seq<char>)
    requires
        text_lt(a, b),
        text_lt(b, c),
    ensures
        text_lt(a, c),
    decreases a.len(),
{
    if a.len() > 0 && b.len() > 0 && c.len() > 0 {
        if a[0] == b[0] && b[0] == c[0] {
            lemma_text_lt_trans(a.drop_first(), b.drop_first(), c.drop_first());
        }
    }
}

/// Whether `a` comes before `b` in text order.
pub fn text_less(a: &String, b: &String) -> (r: bool)
    ensures
        r == text_lt(a@, b@),
{
    let n = a.as_str().unicode_len();
    let m = b.as_str().unicode_len();
    let mut i: usize = 0;
    proof {
        assert(a@.subrange(0, n as int) =~= a@);
        assert(b@.subrange(0, m as int) =~= b@);
    }
    while i < n && i < m
        invariant
            n == a@.len(),
            m == b@.len(),
            i <= n,
            i <= m,
            text_lt(a@, b@) == text_lt(a@.subrange(i as int, n as int), b@.subrange(i as int, m as int)),
        decreases n - i,
    {
        let x = a.as_str().get_char(i);
        let y = b.as_str().get_char(i);
        let ghost sa = a@.subrange(i as int, n as int);
        let ghost sb = b@.subrange(i as int, m as int);
        proof {
            assert(sa[0] == x && sb[0] == y);
            assert(sa.drop_first() =~= a@.subrange(i + 1, n as int));
            assert(sb.drop_first() =~= b@.subrange(i + 1, m as int));
        }
        if x != y {
            return x < y;
        }
        i = i + 1;
    }
    i < m
}

pub open spec fn strictly_sorted(s: Seq<Seq<char>>) -> bool {
    forall|i: int, j: int| 0 <= i < j < s.len() ==> text_lt(#[trigger] s[i], #[trigger] s[j])
}


/// An entry as it is kept: trimmed and in ASCII lower case.
pub open spec fn normalized(s: Seq<char>) -> Seq<char> {
    lower_ascii(trimmed(s))
}

/// Whether `x` is kept from the list: a normalized entry that is not empty.
pub open spec fn is_kept(v: Seq<Seq<char>>, x: Seq<char>) -> bool {
    x.len() > 0 && exists|i: int| 0 <= i < v.len() && normalized(#[trigger] v[i]) == x
}

/// Two strictly sorted lists with the same entries are the same list.
pub proof fn lemma_sorted_sets_equal(a: Seq<Seq<char>>, b: Seq<Seq<char>>)
    requires
        strictly_sorted(a),
        strictly_sorted(b),
        forall|x: Seq<char>| a.contains(x) <==> b.contains(x),
    ensures
        a == b,
    decreases a.len(),
{
    if a.len() == 0 {
        if b.len() > 0 {
            assert(b.contains(b[0]));
        }
        assert(a =~= b);
    } else if b.len() == 0 {
        assert(a.contains(a[0]));
    } else {
        assert(a.contains(a[0]));
        assert(b.contains(b[0]));
        let j = choose|j: int| 0 <= j < b.len() && b[j] == a[0];
        let i = choose|i: int| 0 <= i < a.len() && a[i] == b[0];
        if a[0] != b[0] {
            assert(j > 0 && i > 0);
            assert(text_lt(b[0], b[j]));
            assert(text_lt(a[0], a[i]));
            lemma_text_lt_total(a[0], b[0]);
        }
        let ra = a.drop_first();
        let rb = b.drop_first();
        assert(strictly_sorted(ra)) by {
            assert forall|p: int, q: int| 0 <= p < q < ra.len() implies text_lt(#[trigger] ra[p], #[trigger] ra[q]) by {
                assert(ra[p] == a[p + 1] && ra[q] == a[q + 1]);
            }
        }
        assert(strictly_sorted(rb)) by {
            assert forall|p: int, q: int| 0 <= p < q < rb.len() implies text_lt(#[trigger] rb[p], #[trigger] rb[q]) by {
                assert(rb[p] == b[p + 1] && rb[q] == b[q + 1]);
            }
        }
        assert forall|x: Seq<char>| ra.contains(x) <==> rb.contains(x) by {
            if ra.contains(x) {
                let p = choose|p: int| 0 <= p < ra.len() && ra[p] == x;
                assert(a[p + 1] == x);
                assert(text_lt(a[0], a[p + 1]));
                lemma_text_lt_total(a[0], a[0]);
                assert(a.contains(x));
                assert(b.contains(x));
                let q = choose|q: int| 0 <= q < b.len() && b[q] == x;
                if q == 0 {
                    assert(x == a[0]);
                }
                assert(rb[q - 1] == x);
            }
            if rb.contains(x) {
                let p = choose|p: int| 0 <= p < rb.len() && rb[p] == x;
                assert(b[p + 1] == x);
                assert(text_lt(b[0], b[p + 1]));
                lemma_text_lt_total(b[0], b[0]);
                assert(b.contains(x));
                assert(a.contains(x));
                let q = choose|q: int| 0 <= q < a.len() && a[q] == x;
                if q == 0 {
                    assert(x == b[0]);
                }
                assert(ra[q - 1] == x);
            }
        }
        lemma_sorted_sets_equal(ra, rb);
        assert(a =~= seq![a[0]] + ra);
        assert(b =~= seq![b[0]] + rb);
    }
}

/// Puts `v` in its place in a strictly sorted list, unless it is there.
fn insert_sorted(r: &mut Vec<String>, v: String)
    requires
        strictly_sorted(strings_of(old(r)@)),
    ensures
        strictly_sorted(strings_of(final(r)@)),
        forall|x: Seq<char>| strings_of(final(r)@).contains(x) <==> (strings_of(old(r)@).contains(x) || x == v@),
{
    let ghost rv = strings_of(r@);
    let mut p: usize = 0;
    while p < r.len() && text_less(&r[p], &v)
        invariant
            p <= r@.len(),
            rv == strings_of(r@),
            forall|k: int| 0 <= k < p ==> text_lt(#[trigger] rv[k], v@),
        decreases r@.len() - p,
    {
        p = p + 1;
    }
    if p < r.len() && r[p] == v {
        proof {
            assert(rv[p as int] == v@);
        }
        return;
    }
    proof {
        if p < rv.len() {
            lemma_text_lt_total(rv[p as int], v@);
        }
    }
    let ghost vv = v@;
    r.insert(p, v);
    proof {
        let nv = strings_of(r@);
        assert(nv =~= rv.insert(p as int, vv));
        assert forall|a: int, b: int| 0 <= a < b < nv.len() implies text_lt(#[trigger] nv[a], #[trigger] nv[b]) by {
            if a < p && b < p {
                assert(nv[a] == rv[a] && nv[b] == rv[b]);
            } else if a < p && b == p {
            } else if a < p && b > p {
                assert(nv[a] == rv[a] && nv[b] == rv[b - 1]);
            } else if a == p {
                assert(nv[b] == rv[b - 1]);
                if b - 1 > p {
                    lemma_text_lt_trans(vv, rv[p as int], rv[b - 1]);
                }
            } else {
                assert(nv[a] == rv[a - 1] && nv[b] == rv[b - 1]);
            }
        }
        assert forall|x: Seq<char>| nv.contains(x) <==> (rv.contains(x) || x == vv) by {
            if nv.contains(x) {
                let q = choose|q: int| 0 <= q < nv.len() && nv[q] == x;
                if q < p {
                    assert(rv[q] == x);
                } else if q > p {
                    assert(rv[q - 1] == x);
                }
            }
            if rv.contains(x) {
                let q = choose|q: int| 0 <= q < rv.len() && rv[q] == x;
                if q < p {
                    assert(nv[q] == x);
                } else {
                    assert(nv[q + 1] == x);
                }
            }
            if x == vv {
                assert(nv[p as int] == x);
            }
        }
    }
}

/// Entries trimmed and lower-cased, empty ones dropped, sorted, each once.
pub fn normalize_string_list(list: Vec<String>) -> (r: Vec<String>)
    ensures
        strictly_sorted(strings_of(r@)),
        forall|x: Seq<char>| strings_of(r@).contains(x) <==> is_kept(strings_of(list@), x),
{
    let ghost lv = strings_of(list@);
    let mut r: Vec<String> = Vec::new();
    let mut i: usize = 0;
    while i < list.len()
        invariant
            i <= list@.len(),
            lv == strings_of(list@),
            strictly_sorted(strings_of(r@)),
            forall|x: Seq<char>| strings_of(r@).contains(x) <==> is_kept(lv.subrange(0, i as int), x),
        decreases list@.len() - i,
    {
        let t = trim(list[i].as_str());
        let v = to_ascii_lower(t.as_str());
        let ghost old_r = strings_of(r@);
        let ghost nx = v@;
        proof {
            assert(v@ == normalized(lv[i as int]));
        }
        let keep = v.as_str().unicode_len() > 0;
        if keep {
            insert_sorted(&mut r, v);
        }
        proof {
            let pre = lv.subrange(0, i as int);
            let cur = lv.subrange(0, i + 1);
            assert forall|x: Seq<char>| strings_of(r@).contains(x) <==> is_kept(cur, x) by {
                if is_kept(cur, x) {
                    let k = choose|k: int| 0 <= k < cur.len() && normalized(#[trigger] cur[k]) == x;
                    if k < i {
                        assert(pre[k] == cur[k]);
                        assert(is_kept(pre, x));
                    }
                }
                if is_kept(pre, x) {
                    let k = choose|k: int| 0 <= k < pre.len() && normalized(#[trigger] pre[k]) == x;
                    assert(cur[k] == pre[k]);
                }
                if keep && x == nx {
                    assert(cur[i as int] == lv[i as int]);
                }
            }
        }
        i = i + 1;
    }
    proof {
        assert(lv.subrange(0, list@.len() as int) =~= lv);
    }
    r
}

} // verus!
