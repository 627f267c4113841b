//! The listing order: names compared case-insensitively, leading dots set
//! aside, ties kept in the order the directory gave them.
use vstd::prelude::*;

verus! {

/// Lexicographic order of character sequences, by code point (the order of `char`); a proper
/// prefix comes first.
pub open spec fn lex_lt(a: Seq<char>, b: Seq<char>) -> bool
    decreases a.len(),
{
    if a.len() == 0 {
        b.len() > 0
    } else if b.len() == 0 {
        false
    } else if a[0] != b[0] {
        a[0] < b[0]
    } else {
        lex_lt(a.drop_first(), b.drop_first())
    }
}

/// No sequence comes before itself.
pub proof fn lemma_lex_irreflexive(a: Seq<char>)
    ensures
        !lex_lt(a, a),
    decreases a.len(),
{
    if a.len() > 0 {
        lemma_lex_irreflexive(a.drop_first());
    }
}

/// The order is transitive.
pub proof fn lemma_lex_transitive(a: Seq<char>, b: Seq<char>, c: Seq<char>)
    requires
        lex_lt(a, b),
        lex_lt(b, c),
    ensures
        lex_lt(a, c),
    decreases a.len(),
{
    if a.len() > 0 && a[0] == b[0] && b[0] == c[0] {
        lemma_lex_transitive(a.drop_first(), b.drop_first(), c.drop_first());
    }
}

/// Of two different sequences, one comes first.
pub proof fn lemma_lex_total(a: Seq<char>, b: Seq<char>)
    requires
        a != b,
    ensures
        lex_lt(a, b) || lex_lt(b, a),
    decreases a.len(),
{
    if a.len() > 0 && b.len() > 0 && a[0] == b[0] {
        if a.drop_first() == b.drop_first() {
            assert(a =~= seq![a[0]] + a.drop_first());
            assert(b =~= seq![b[0]] + b.drop_first());
        }
        lemma_lex_total(a.drop_first(), b.drop_first());
    } else if a.len() == 0 && b.len() == 0 {
        assert(a =~= b);
    } else if a.len() > 0 && b.len() > 0 {
        assert(a[0] < b[0] || b[0] < a[0]);
    }
}

/// Whether `a` comes before `b` in lexicographic order.
pub fn lex_less(a: &Vec<char>, b: &Vec<char>) -> (r: bool)
    ensures
        r == lex_lt(a@, b@),
{
    let mut i: usize = 0;
    assert(a@.skip(0) =~= a@);
    assert(b@.skip(0) =~= b@);
    while i < a.len() && i < b.len() && a[i] == b[i]
        invariant
            i <= a@.len(),
            i <= b@.len(),
            lex_lt(a@, b@) == lex_lt(a@.skip(i as int), b@.skip(i as int)),
        decreases a@.len() - i,
    {
        assert(a@.skip(i + 1) =~= a@.skip(i as int).drop_first());
        assert(b@.skip(i + 1) =~= b@.skip(i as int).drop_first());
        i = i + 1;
    }
    if i == a.len() {
        i < b.len()
    } else if i == b.len() {
        false
    } else {
        assert(a@.skip(i as int)[0] == a@[i as int]);
        assert(b@.skip(i as int)[0] == b@[i as int]);
        a[i] < b[i]
    }
}

/// Entry `i` goes before entry `j` when its key comes first, or the keys
/// are equal and it came first.
pub open spec fn precedes(keys: Seq<Seq<char>>, i: int, j: int) -> bool {
    lex_lt(keys[i], keys[j]) || (keys[i] == keys[j] && i < j)
}

/// `precedes` is a strict total order on indices.
pub proof fn lemma_precedes_order(keys: Seq<Seq<char>>)
    ensures
        forall|i: int| !precedes(keys, i, i),
        forall|i: int, j: int| i != j ==> precedes(keys, i, j) || precedes(keys, j, i),
        forall|i: int, j: int, k: int|
            precedes(keys, i, j) && precedes(keys, j, k) ==> precedes(keys, i, k),
{
    assert forall|i: int| !precedes(keys, i, i) by {
        lemma_lex_irreflexive(keys[i]);
    }
    assert forall|i: int, j: int| i != j implies precedes(keys, i, j) || precedes(keys, j, i) by {
        if keys[i] != keys[j] {
            lemma_lex_total(keys[i], keys[j]);
        }
    }
    assert forall|i: int, j: int, k: int|
        precedes(keys, i, j) && precedes(keys, j, k) implies precedes(keys, i, k) by {
        if lex_lt(keys[i], keys[j]) && lex_lt(keys[j], keys[k]) {
            lemma_lex_transitive(keys[i], keys[j], keys[k]);
        }
        if lex_lt(keys[i], keys[j]) && lex_lt(keys[j], keys[i]) {
            lemma_lex_transitive(keys[i], keys[j], keys[i]);
            lemma_lex_irreflexive(keys[i]);
        }
    }
}

/// The keys of a vector of character vectors.
pub open spec fn keys_view(keys: Seq<Vec<char>>) -> Seq<Seq<char>> {
    keys.map_values(|k: Vec<char>| k@)
}

/// `ord` lists the indices in `set` exactly once each, each before the ones
/// it precedes.
pub open spec fn sorted_by_keys(keys: Seq<Seq<char>>, set: Seq<usize>, ord: Seq<usize>) -> bool {
    &&& forall|k: usize| ord.contains(k) <==> set.contains(k)
    &&& forall|a: int, b: int|
        0 <= a < b < ord.len() ==> precedes(keys, ord[a] as int, ord[b] as int)
}

/// Orders the indices `set` (each below `keys.len()`, none twice) by their
/// keys, ties by index.
pub fn sort_indices(keys: &Vec<Vec<char>>, set: Vec<usize>) -> (ord: Vec<usize>)
    requires
        set@.no_duplicates(),
        forall|a: int| 0 <= a < set@.len() ==> set@[a] < keys@.len(),
    ensures
        sorted_by_keys(keys_view(keys@), set@, ord@),
        ord@.len() == set@.len(),
{
    let ghost kv = keys_view(keys@);
    proof {
        lemma_precedes_order(kv);
    }
    let ghost set0 = set@;
    let mut rem = set;
    let mut out: Vec<usize> = Vec::new();
    while rem.len() > 0
        invariant
            kv == keys_view(keys@),
            rem@.no_duplicates(),
            forall|a: int| 0 <= a < rem@.len() ==> rem@[a] < keys@.len(),
            forall|k: usize| (out@.contains(k) || rem@.contains(k)) <==> set0.contains(k),
            out@.len() + rem@.len() == set0.len(),
            forall|a: int, b: int|
                0 <= a < b < out@.len() ==> precedes(kv, out@[a] as int, out@[b] as int),
            forall|a: int, y: int|
                0 <= a < out@.len() && 0 <= y < rem@.len() ==> precedes(
                    kv,
                    out@[a] as int,
                    rem@[y] as int,
                ),
            forall|i: int| !precedes(kv, i, i),
            forall|i: int, j: int| i != j ==> precedes(kv, i, j) || precedes(kv, j, i),
            forall|i: int, j: int, k: int|
                precedes(kv, i, j) && precedes(kv, j, k) ==> precedes(kv, i, k),
        decreases rem@.len(),
    {
        let mut best: usize = 0;
        let mut t: usize = 1;
        while t < rem.len()
            invariant
                kv == keys_view(keys@),
                forall|a: int| 0 <= a < rem@.len() ==> rem@[a] < keys@.len(),
                best < t <= rem@.len(),
                forall|u: int| 0 <= u < t ==> !precedes(kv, rem@[u] as int, rem@[best as int] as int),
                forall|i: int| !precedes(kv, i, i),
                forall|i: int, j: int, k: int|
                    precedes(kv, i, j) && precedes(kv, j, k) ==> precedes(kv, i, k),
            decreases rem@.len() - t,
        {
            let x = rem[t];
            let y = rem[best];
            let xk = &keys[x];
            let yk = &keys[y];
            let earlier = lex_less(xk, yk) || (crate::utils::text::seq_eq(xk, yk) && x < y);
            assert(kv[x as int] == keys@[x as int]@);
            assert(kv[y as int] == keys@[y as int]@);
            if earlier {
                best = t;
            }
            t = t + 1;
        }
        let m = rem[best];
        proof {
            assert forall|y: int| 0 <= y < rem@.len() && y != best implies precedes(
                kv,
                m as int,
                rem@[y] as int,
            ) by {
                assert(rem@[y] != rem@[best as int]);
            }
        }
        let ghost rem_old = rem@;
        let ghost out_old = out@;
        rem.remove(best);
        out.push(m);
        proof {
            assert forall|k: usize| (out@.contains(k) || rem@.contains(k)) <==> set0.contains(k) by {
                if rem_old.contains(k) {
                    let w = choose|w: int| 0 <= w < rem_old.len() && rem_old[w] == k;
                    if w < best {
                        assert(rem@[w] == k);
                    } else if w > best {
                        assert(rem@[w - 1] == k);
                    } else {
                        assert(out@[out@.len() - 1] == k);
                    }
                }
                if out_old.contains(k) {
                    let w = choose|w: int| 0 <= w < out_old.len() && out_old[w] == k;
                    assert(out@[w] == k);
                }
                if rem@.contains(k) {
                    let w = choose|w: int| 0 <= w < rem@.len() && rem@[w] == k;
                    if w < best {
                        assert(rem_old[w] == k);
                    } else {
                        assert(rem_old[w + 1] == k);
                    }
                }
                if out@.contains(k) {
                    let w = choose|w: int| 0 <= w < out@.len() && out@[w] == k;
                    if w < out_old.len() {
                        assert(out_old[w] == k);
                    } else {
                        assert(rem_old[best as int] == k);
                    }
                }
            }
            assert(rem@.no_duplicates()) by {
                assert forall|a: int, b: int| 0 <= a < b < rem@.len() implies rem@[a] != rem@[b] by {
                    let a0 = if a < best { a } else { a + 1 };
                    let b0 = if b < best { b } else { b + 1 };
                    assert(rem@[a] == rem_old[a0]);
                    assert(rem@[b] == rem_old[b0]);
                }
            }
            assert forall|a: int, y: int|
                0 <= a < out@.len() && 0 <= y < rem@.len() implies precedes(
                kv,
                out@[a] as int,
                rem@[y] as int,
            ) by {
                let y0 = if y < best { y } else { y + 1 };
                assert(rem@[y] == rem_old[y0]);
                if a == out@.len() - 1 {
                    assert(y0 != best);
                }
            }
            assert forall|a: int| 0 <= a < rem@.len() implies rem@[a] < keys@.len() by {
                let a0 = if a < best { a } else { a + 1 };
                assert(rem@[a] == rem_old[a0]);
            }
        }
    }
    out
}

/// Two orders of the same indices, each sorted by the keys, are the same
/// order: sorting by keys, ties by index, leaves no choice.
pub proof fn lemma_sorted_unique(keys: Seq<Seq<char>>, o1: Seq<usize>, o2: Seq<usize>)
    requires
        forall|k: usize| o1.contains(k) <==> o2.contains(k),
        forall|a: int, b: int| 0 <= a < b < o1.len() ==> precedes(keys, o1[a] as int, o1[b] as int),
        forall|a: int, b: int| 0 <= a < b < o2.len() ==> precedes(keys, o2[a] as int, o2[b] as int),
    ensures
        o1 == o2,
    decreases o1.len(),
{
    lemma_precedes_order(keys);
    if o1.len() == 0 {
        if o2.len() > 0 {
            assert(o2.contains(o2[0]));
        }
        assert(o1 =~= o2);
    } else {
        assert(o1.contains(o1[0]));
        assert(o2.len() > 0);
        let h1 = o1[0];
        let h2 = o2[0];
        if h1 != h2 {
            assert(o2.contains(h1));
            let w2 = choose|w: int| 0 <= w < o2.len() && o2[w] == h1;
            assert(o2.contains(h2));
            assert(o1.contains(h2));
            let w1 = choose|w: int| 0 <= w < o1.len() && o1[w] == h2;
            assert(precedes(keys, h1 as int, h2 as int));
            assert(precedes(keys, h2 as int, h1 as int));
            assert(precedes(keys, h1 as int, h1 as int));
        }
        let t1 = o1.drop_first();
        let t2 = o2.drop_first();
        assert forall|k: usize| t1.contains(k) <==> t2.contains(k) by {
            if t1.contains(k) {
                let w = choose|w: int| 0 <= w < t1.len() && t1[w] == k;
                assert(o1[w + 1] == k);
                assert(o1.contains(k));
                assert(o2.contains(k));
                let v = choose|v: int| 0 <= v < o2.len() && o2[v] == k;
                assert(precedes(keys, o1[0] as int, o1[w + 1] as int));
                assert(v != 0);
                assert(t2[v - 1] == k);
            }
            if t2.contains(k) {
                let w = choose|w: int| 0 <= w < t2.len() && t2[w] == k;
                assert(o2[w + 1] == k);
                assert(o2.contains(k));
                assert(o1.contains(k));
                let v = choose|v: int| 0 <= v < o1.len() && o1[v] == k;
                assert(precedes(keys, o2[0] as int, o2[w + 1] as int));
                assert(v != 0);
                assert(t1[v - 1] == k);
            }
        }
        assert forall|a: int, b: int| 0 <= a < b < t1.len() implies precedes(keys, t1[a] as int, t1[b] as int) by {
            assert(t1[a] == o1[a + 1] && t1[b] == o1[b + 1]);
        }
        assert forall|a: int, b: int| 0 <= a < b < t2.len() implies precedes(keys, t2[a] as int, t2[b] as int) by {
            assert(t2[a] == o2[a + 1] && t2[b] == o2[b + 1]);
        }
        lemma_sorted_unique(keys, t1, t2);
        assert(o1 =~= seq![h1] + t1);
        assert(o2 =~= seq![h2] + t2);
    }
}

} // verus!
