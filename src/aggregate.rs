//! Round-robin merging of several equally long sequences.
use vstd::prelude::*;

verus! {

/// The inputs of a merge were missing or did not all have the length of
/// the first one.
#[derive(Debug, Clone, Copy, PartialEq, Eq, Structural)]
pub struct AggregationError;

/// The contents of each inner vector.
pub open spec fn views<T>(vs: Seq<Vec<T>>) -> Seq<Seq<T>> {
    vs.map_values(|v: Vec<T>| v@)
}

/// Every sequence has the length of the first one.
pub open spec fn uniform<T>(vs: Seq<Seq<T>>) -> bool {
    forall|j: int| 0 <= j < vs.len() ==> #[trigger] vs[j].len() == vs[0].len()
}

/// There is at least one sequence, and all have the length of the first.
pub open spec fn mergeable<T>(vs: Seq<Seq<T>>) -> bool {
    vs.len() > 0 && uniform(vs)
}

/// The `i`-th element of every sequence, in the order of the sequences.
pub open spec fn row<T>(vs: Seq<Seq<T>>, i: int) -> Seq<T> {
    vs.map_values(|v: Seq<T>| v[i])
}

/// The first `m` rows, one after the other.
pub open spec fn rows<T>(vs: Seq<Seq<T>>, m: nat) -> Seq<T>
    decreases m,
{
    if m == 0 {
        Seq::empty()
    } else {
        rows(vs, (m - 1) as nat) + row(vs, m - 1)
    }
}

/// Round-robin merge: element 0 of each sequence, then element 1 of each,
/// and so on, for as many rounds as the first sequence is long.
pub open spec fn interleave<T>(vs: Seq<Seq<T>>) -> Seq<T> {
    if vs.len() == 0 {
        Seq::empty()
    } else {
        rows(vs, vs[0].len())
    }
}

/// Merges `vs` round-robin: `vs[0][0], vs[1][0], ..., vs[0][1], vs[1][1], ...`.
/// Fails when there is no sequence, whose length would set the number of
/// rounds, or when they do not all have the same length.
pub fn unify<T>(vs: Vec<Vec<T>>) -> (r: Result<Vec<T>, AggregationError>)
    ensures
        r is Ok <==> mergeable(views(vs@)),
        r matches Ok(v) ==> v@ == interleave(views(vs@)),
{
    let ghost orig = views(vs@);
    let n = vs.len();
    if n == 0 {
        return Err(AggregationError);
    }
    let m = vs[0].len();
    let mut k: usize = 0;
    while k < n
        invariant
            n == vs@.len(),
            orig == views(vs@),
            0 < n,
            m == orig[0].len(),
            k <= n,
            forall|j: int| 0 <= j < k ==> #[trigger] orig[j].len() == m,
        decreases n - k,
    {
        if vs[k].len() != m {
            assert(orig[k as int].len() != orig[0].len());
            return Err(AggregationError);
        }
        k = k + 1;
    }
    let mut vs = vs;
    let mut out: Vec<T> = Vec::new();
    let mut i: usize = 0;
    while i < m
        invariant
            n == vs@.len(),
            0 < n,
            m == orig[0].len(),
            uniform(orig),
            orig.len() == n,
            i <= m,
            out@ == rows(orig, i as nat),
            forall|j: int| 0 <= j < n ==> #[trigger] vs@[j]@ == orig[j].subrange(i as int, m as int),
        decreases m - i,
    {
        let mut j: usize = 0;
        while j < n
            invariant
                n == vs@.len(),
                0 < n,
                m == orig[0].len(),
                uniform(orig),
                orig.len() == n,
                i < m,
                j <= n,
                out@ == rows(orig, i as nat) + row(orig, i as int).subrange(0, j as int),
                forall|l: int| 0 <= l < j ==> #[trigger] vs@[l]@ == orig[l].subrange(i + 1, m as int),
                forall|l: int| j <= l < n ==> #[trigger] vs@[l]@ == orig[l].subrange(i as int, m as int),
            decreases n - j,
        {
            assert(orig[j as int].len() == m);
            let x = vs[j].remove(0);
            out.push(x);
            assert(row(orig, i as int).subrange(0, j + 1) =~= row(orig, i as int).subrange(0, j as int).push(orig[j as int][i as int]));
            assert(vs@[j as int]@ =~= orig[j as int].subrange(i + 1, m as int));
            j = j + 1;
        }
        assert(row(orig, i as int).subrange(0, n as int) =~= row(orig, i as int));
        i = i + 1;
    }
    Ok(out)
}

/// Two sequences of two elements merge as `[a0, b0, a1, b1]`.
pub proof fn lemma_interleave_two_pairs<T>(a0: T, a1: T, b0: T, b1: T)
    ensures
        interleave(seq![seq![a0, a1], seq![b0, b1]]) == seq![a0, b0, a1, b1],
{
    let vs = seq![seq![a0, a1], seq![b0, b1]];
    assert(row(vs, 0) =~= seq![a0, b0]);
    assert(row(vs, 1) =~= seq![a1, b1]);
    assert(rows(vs, 0) =~= Seq::<T>::empty());
    assert(rows(vs, 1) =~= seq![a0, b0]);
    assert(rows(vs, 2) =~= seq![a0, b0, a1, b1]);
}

/// Merging `n` sequences of length `m` gives `m * n` elements, and element
/// `i * n + j` is element `i` of sequence `j`.
pub proof fn lemma_interleave_index<T>(vs: Seq<Seq<T>>, i: int, j: int)
    requires
        vs.len() > 0,
        uniform(vs),
        0 <= i < vs[0].len(),
        0 <= j < vs.len(),
    ensures
        interleave(vs).len() == vs[0].len() * vs.len(),
        interleave(vs)[i * vs.len() + j] == vs[j][i],
{
    lemma_rows_len(vs, vs[0].len());
    lemma_rows_index(vs, vs[0].len(), i, j);
}

proof fn lemma_rows_len<T>(vs: Seq<Seq<T>>, m: nat)
    ensures
        rows(vs, m).len() == m * vs.len(),
    decreases m,
{
    if m > 0 {
        lemma_rows_len(vs, (m - 1) as nat);
        assert(row(vs, m - 1).len() == vs.len());
        assert(m * vs.len() == (m - 1) * vs.len() + vs.len()) by (nonlinear_arith);
        assert(rows(vs, m) == rows(vs, (m - 1) as nat) + row(vs, m - 1));
    } else {
        assert(m * vs.len() == 0) by (nonlinear_arith)
            requires
                m == 0,
        ;
    }
}

proof fn lemma_rows_index<T>(vs: Seq<Seq<T>>, m: nat, i: int, j: int)
    requires
        0 <= i < m,
        0 <= j < vs.len(),
    ensures
        rows(vs, m)[i * vs.len() + j] == vs[j][i],
    decreases m,
{
    lemma_rows_len(vs, (m - 1) as nat);
    assert(((m - 1) as nat) * vs.len() == (m - 1) * vs.len());
    if i < m - 1 {
        lemma_rows_index(vs, (m - 1) as nat, i, j);
        assert(i * vs.len() + j < (m - 1) * vs.len()) by (nonlinear_arith)
            requires
                0 <= i < m - 1,
                0 <= j < vs.len(),
        ;
    } else {
        assert(i * vs.len() == (m - 1) * vs.len());
    }
}

} // verus!
