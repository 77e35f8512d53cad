//! Lexicographic order on integer sequences and an insertion sort of
//! indices by key, ties broken by the index itself.
//!
//! Strings are compared through the sequence of their code points; for
//! UTF-8 text this is the same order as comparing the encoded bytes, which
//! is how `str` orders strings.

use vstd::prelude::*;

verus! {

/// `a` comes strictly before `b` in lexicographic order.
pub open spec fn seq_lt(a: Seq<int>, b: Seq<int>) -> bool
    decreases a.len(),
{
    if a.len() == 0 {
        b.len() > 0
    } else if b.len() == 0 {
        false
    } else if a[0] < b[0] {
        true
    } else if a[0] > b[0] {
        false
    } else {
        seq_lt(a.drop_first(), b.drop_first())
    }
}

/// Sort key `ka` with tie-break `a` comes strictly before key `kb` with `b`.
pub open spec fn key_lt(ka: Seq<int>, a: int, kb: Seq<int>, b: int) -> bool {
    seq_lt(ka, kb) || (ka == kb && a < b)
}

/// The code points of a string, as sort key.
pub open spec fn text_key(s: Seq<char>) -> Seq<int> {
    s.map_values(|c: char| (c as u32) as int)
}

/// String `a` comes strictly before `b`, as `str` orders them: after their
/// longest common prefix, `a` ends while `b` goes on, or `a`'s next
/// character has the lower code point.
pub open spec fn str_before(a: Seq<char>, b: Seq<char>) -> bool {
    exists|k: int|
        0 <= k <= a.len() && k < b.len() && a.take(k) == b.take(k) && (k == a.len() || (a[k] as u32) < (
        b[k] as u32))
}

/// Comparing code-point keys orders strings as `str_before` does.
pub proof fn lemma_text_key_lt(a: Seq<char>, b: Seq<char>)
    requires
        seq_lt(text_key(a), text_key(b)),
    ensures
        str_before(a, b),
    decreases a.len(),
{
    if a.len() == 0 {
        assert(a.take(0) =~= b.take(0));
    } else {
        assert(b.len() > 0);
        if (a[0] as u32) < (b[0] as u32) {
            assert(a.take(0) =~= b.take(0));
        } else {
            assert(text_key(a).drop_first() =~= text_key(a.drop_first()));
            assert(text_key(b).drop_first() =~= text_key(b.drop_first()));
            lemma_text_key_lt(a.drop_first(), b.drop_first());
            let k = choose|k: int|
                0 <= k <= a.drop_first().len() && k < b.drop_first().len() && a.drop_first().take(k)
                    == b.drop_first().take(k) && (k == a.drop_first().len() || (a.drop_first()[k] as u32) < (
                b.drop_first()[k] as u32));
            assert((a[0] as u32) == (b[0] as u32));
            lemma_char_cast_injective(a[0], b[0]);
            assert(a.take(k + 1) =~= seq![a[0]] + a.drop_first().take(k));
            assert(b.take(k + 1) =~= seq![b[0]] + b.drop_first().take(k));
            if k < a.drop_first().len() {
                assert(a[k + 1] == a.drop_first()[k]);
                assert(b[k + 1] == b.drop_first()[k]);
            }
        }
    }
}

/// Distinct characters have distinct code points.
pub proof fn lemma_char_cast_injective(x: char, y: char)
    requires
        (x as u32) == (y as u32),
    ensures
        x == y,
{
}

/// Distinct strings have distinct keys.
pub proof fn lemma_text_key_injective(a: Seq<char>, b: Seq<char>)
    requires
        text_key(a) == text_key(b),
    ensures
        a == b,
{
    assert(a.len() == text_key(a).len());
    assert forall|i: int| 0 <= i < a.len() implies a[i] == b[i] by {
        assert(text_key(a)[i] == text_key(b)[i]);
        assert(text_key(a)[i] == (a[i] as u32) as int);
        assert(text_key(b)[i] == (b[i] as u32) as int);
        assert((a[i] as u32) == (b[i] as u32));
        lemma_char_cast_injective(a[i], b[i]);
    }
    assert(a =~= b);
}

/// `seq_lt` is irreflexive.
pub proof fn lemma_seq_lt_irrefl(a: Seq<int>)
    ensures
        !seq_lt(a, a),
    decreases a.len(),
{
    if a.len() > 0 {
        lemma_seq_lt_irrefl(a.drop_first());
    }
}

/// `seq_lt` is transitive.
pub proof fn lemma_seq_lt_trans(a: Seq<int>, b: Seq<int>, c: Seq<int>)
    requires
        seq_lt(a, b),
        seq_lt(b, c),
    ensures
        seq_lt(a, c),
    decreases a.len(),
{
    if a.len() > 0 && b.len() > 0 && c.len() > 0 && a[0] == b[0] && b[0] == c[0] {
        lemma_seq_lt_trans(a.drop_first(), b.drop_first(), c.drop_first());
    }
}

/// Any two sequences are equal or ordered one way.
pub proof fn lemma_seq_lt_total(a: Seq<int>, b: Seq<int>)
    ensures
        a == b || seq_lt(a, b) || seq_lt(b, a),
    decreases a.len(),
{
    if a.len() > 0 && b.len() > 0 && a[0] == b[0] {
        lemma_seq_lt_total(a.drop_first(), b.drop_first());
        if a.drop_first() == b.drop_first() {
            assert forall|i: int| 0 <= i < a.len() implies a[i] == b[i] by {
                if i > 0 {
                    assert(a[i] == a.drop_first()[i - 1]);
                    assert(b[i] == b.drop_first()[i - 1]);
                }
            }
            assert(a =~= b);
        }
    } else if a.len() == 0 && b.len() == 0 {
        assert(a =~= b);
    }
}

/// `seq_lt` is asymmetric.
pub proof fn lemma_seq_lt_asym(a: Seq<int>, b: Seq<int>)
    requires
        seq_lt(a, b),
    ensures
        !seq_lt(b, a),
{
    if seq_lt(b, a) {
        lemma_seq_lt_trans(a, b, a);
        lemma_seq_lt_irrefl(a);
    }
}

/// `key_lt` is a strict total order on distinct tie-breaks.
pub proof fn lemma_key_lt_order(ka: Seq<int>, a: int, kb: Seq<int>, b: int, kc: Seq<int>, c: int)
    ensures
        key_lt(ka, a, kb, b) && key_lt(kb, b, kc, c) ==> key_lt(ka, a, kc, c),
        key_lt(ka, a, kb, b) ==> !key_lt(kb, b, ka, a),
        a != b ==> key_lt(ka, a, kb, b) || key_lt(kb, b, ka, a),
{
    lemma_seq_lt_total(ka, kb);
    if seq_lt(ka, kb) {
        lemma_seq_lt_asym(ka, kb);
    }
    if seq_lt(kb, ka) {
        lemma_seq_lt_asym(kb, ka);
    }
    if key_lt(ka, a, kb, b) && key_lt(kb, b, kc, c) {
        if seq_lt(ka, kb) && seq_lt(kb, kc) {
            lemma_seq_lt_trans(ka, kb, kc);
        }
    }
    lemma_seq_lt_irrefl(ka);
}

/// Whether `a` comes strictly before `b` lexicographically.
pub fn seq_less(a: &[i128], b: &[i128]) -> (res: bool)
    ensures
        res == seq_lt(a@.map_values(|x: i128| x as int), b@.map_values(|x: i128| x as int)),
{
    let ghost av = a@.map_values(|x: i128| x as int);
    let ghost bv = b@.map_values(|x: i128| x as int);
    let mut i: usize = 0;
    assert(av.skip(0) =~= av);
    assert(bv.skip(0) =~= bv);
    while i < a.len() && i < b.len()
        invariant
            i <= a.len(),
            i <= b.len(),
            av == a@.map_values(|x: i128| x as int),
            bv == b@.map_values(|x: i128| x as int),
            seq_lt(av, bv) == seq_lt(av.skip(i as int), bv.skip(i as int)),
        decreases a.len() - i,
    {
        let ghost ar = av.skip(i as int);
        let ghost br = bv.skip(i as int);
        assert(ar[0] == a@[i as int] as int);
        assert(br[0] == b@[i as int] as int);
        if a[i] < b[i] {
            return true;
        }
        if a[i] > b[i] {
            return false;
        }
        assert(ar.drop_first() =~= av.skip(i + 1));
        assert(br.drop_first() =~= bv.skip(i + 1));
        i = i + 1;
    }
    i < b.len()
}

/// Keys `keys[r[..]]` paired with the indices are strictly increasing.
pub open spec fn sorted_by_keys(r: Seq<usize>, keys: Seq<Seq<int>>) -> bool {
    forall|i: int, j: int|
        0 <= i < j < r.len() ==> key_lt(keys[r[i] as int], r[i] as int, keys[r[j] as int], r[j] as int)
}

/// The views of the keys.
pub open spec fn key_views(keys: Seq<Vec<i128>>) -> Seq<Seq<int>> {
    keys.map_values(|k: Vec<i128>| k@.map_values(|x: i128| x as int))
}

/// Sorts distinct indices by `(keys[i], i)`: ascending key, equal keys in
/// ascending index order (a stable sort of an ascending index list).
pub fn sort_indices(idx: &[usize], keys: &Vec<Vec<i128>>) -> (res: Vec<usize>)
    requires
        forall|i: int| 0 <= i < idx.len() ==> idx@[i] < keys.len(),
        forall|i: int, j: int| 0 <= i < j < idx.len() ==> idx@[i] != idx@[j],
    ensures
        res@.to_set() == idx@.to_set(),
        res@.len() == idx@.len(),
        sorted_by_keys(res@, key_views(keys@)),
{
    let ghost kv = key_views(keys@);
    let mut out: Vec<usize> = Vec::new();
    let mut n: usize = 0;
    while n < idx.len()
        invariant
            n <= idx.len(),
            kv == key_views(keys@),
            forall|i: int| 0 <= i < idx.len() ==> idx@[i] < keys.len(),
            forall|i: int, j: int| 0 <= i < j < idx.len() ==> idx@[i] != idx@[j],
            out@.to_set() == idx@.take(n as int).to_set(),
            out@.len() == n,
            forall|i: int| 0 <= i < out.len() ==> out@[i] < keys.len(),
            sorted_by_keys(out@, kv),
        decreases idx.len() - n,
    {
        let x = idx[n];
        assert(kv[x as int] == keys@[x as int]@.map_values(|v: i128| v as int));
        let mut p: usize = 0;
        while p < out.len() && !(seq_less(&keys[x], &keys[out[p]]) || (!seq_less(
            &keys[out[p]],
            &keys[x],
        ) && x < out[p]))
            invariant
                p <= out.len(),
                kv == key_views(keys@),
                x < keys.len(),
                forall|i: int| 0 <= i < out.len() ==> out@[i] < keys.len(),
                forall|i: int| 0 <= i < p ==> key_lt(kv[out@[i] as int], out@[i] as int, kv[x as int], x as int) || out@[i] == x,
            decreases out.len() - p,
        {
            let y = out[p];
            assert(kv[y as int] == keys@[y as int]@.map_values(|v: i128| v as int));
            proof {
                lemma_seq_lt_total(kv[x as int], kv[y as int]);
            }
            p = p + 1;
        }
        proof {
            if p < out.len() {
                let y = out@[p as int];
                assert(kv[y as int] == keys@[y as int]@.map_values(|v: i128| v as int));
                lemma_seq_lt_total(kv[x as int], kv[y as int]);
            }
        }
        // x is not yet in `out`: every element of `out` is an earlier index.
        assert(!out@.contains(x)) by {
            if out@.contains(x) {
                let i = choose|i: int| 0 <= i < out@.len() && out@[i] == x;
                assert(out@.to_set().contains(x));
                assert(idx@.take(n as int).to_set().contains(x));
                let t0 = idx@.take(n as int);
                let j = choose|j: int| 0 <= j < t0.len() && t0[j] == x;
                assert(idx@[j] == idx@[n as int]);
            }
        }
        let ghost old_out = out@;
        out.insert(p, x);
        proof {
            assert(out@ =~= old_out.take(p as int).push(x) + old_out.skip(p as int));
            assert forall|i: int, j: int| 0 <= i < j < out@.len() implies key_lt(
                kv[out@[i] as int],
                out@[i] as int,
                kv[out@[j] as int],
                out@[j] as int,
            ) by {
                let a = out@[i];
                let b = out@[j];
                if j < p {
                    assert(a == old_out[i] && b == old_out[j]);
                } else if j == p {
                    assert(a == old_out[i]);
                    assert(key_lt(kv[a as int], a as int, kv[x as int], x as int) || a == x);
                } else if i == p {
                    assert(b == old_out[j - 1]);
                    if p < j - 1 {
                        let c = old_out[p as int];
                        lemma_key_lt_order(kv[x as int], x as int, kv[c as int], c as int, kv[b as int], b as int);
                    }
                } else if i < p {
                    assert(a == old_out[i] && b == old_out[j - 1]);
                } else {
                    assert(a == old_out[i - 1] && b == old_out[j - 1]);
                }
            }
            assert(idx@.take(n + 1) =~= idx@.take(n as int).push(x));
            assert(out@.to_set() =~= old_out.to_set().insert(x)) by {
                assert forall|v: usize| out@.to_set().contains(v) <==> old_out.to_set().insert(x).contains(v) by {
                    if out@.to_set().contains(v) {
                        let i = choose|i: int| 0 <= i < out@.len() && out@[i] == v;
                        if i < p {
                            assert(old_out[i] == v);
                        } else if i > p {
                            assert(old_out[i - 1] == v);
                        }
                    }
                    if old_out.to_set().contains(v) {
                        let i = choose|i: int| 0 <= i < old_out.len() && old_out[i] == v;
                        if i < p {
                            assert(out@[i] == v);
                        } else {
                            assert(out@[i + 1] == v);
                        }
                    }
                    if v == x {
                        assert(out@[p as int] == x);
                    }
                }
            }
            assert(idx@.take(n + 1).to_set() =~= idx@.take(n as int).to_set().insert(x)) by {
                assert forall|v: usize| idx@.take(n + 1).to_set().contains(v) <==> idx@.take(n as int).to_set().insert(x).contains(v) by {
                    let t1 = idx@.take(n + 1);
                    let t0 = idx@.take(n as int);
                    if t1.to_set().contains(v) {
                        let i = choose|i: int| 0 <= i < t1.len() && t1[i] == v;
                        if i < n {
                            assert(t0[i] == v);
                        }
                    }
                    if t0.to_set().contains(v) {
                        let i = choose|i: int| 0 <= i < t0.len() && t0[i] == v;
                        assert(t1[i] == v);
                    }
                    if v == x {
                        assert(idx@.take(n + 1)[n as int] == x);
                    }
                }
            }
        }
        n = n + 1;
    }
    assert(idx@.take(idx.len() as int) =~= idx@);
    out
}

} // verus!
