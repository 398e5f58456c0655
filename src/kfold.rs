//! K-fold partitioning of a dataset's rows for cross-validation. The rows
//! are cut into contiguous folds of `rows / folds` rows each; what remains
//! after the last full chunk belongs to the last fold, so no row is dropped.
use vstd::prelude::*;

verus! {

/// The first row of fold `k`.
pub open spec fn fold_start(rows: nat, folds: nat, k: nat) -> nat {
    k * (rows / folds)
}

/// One past the last row of fold `k`.
pub open spec fn fold_end(rows: nat, folds: nat, k: nat) -> nat {
    if k + 1 == folds {
        rows
    } else {
        (k + 1) * (rows / folds)
    }
}

/// The number of rows in fold `k`.
pub open spec fn fold_len(rows: nat, folds: nat, k: nat) -> nat {
    (fold_end(rows, folds, k) - fold_start(rows, folds, k)) as nat
}

/// The rows held out while fold `k` is tested, in order.
pub open spec fn testing_rows(rows: nat, folds: nat, k: nat) -> Seq<usize> {
    Seq::new(fold_len(rows, folds, k), |j: int| (fold_start(rows, folds, k) + j) as usize)
}

/// The rows trained on while fold `k` is tested: every other fold, in order.
pub open spec fn training_rows(rows: nat, folds: nat, k: nat) -> Seq<usize> {
    Seq::new(fold_start(rows, folds, k), |j: int| j as usize) + Seq::new(
        (rows - fold_end(rows, folds, k)) as nat,
        |j: int| (fold_end(rows, folds, k) + j) as usize,
    )
}

/// The sum of a sequence of counts.
pub open spec fn total(s: Seq<usize>) -> nat
    decreases s.len(),
{
    if s.len() == 0 {
        0
    } else {
        total(s.drop_last()) + s.last() as nat
    }
}

/// The folds lie in order inside the dataset: each starts where the one
/// before it ends, and the last ends at the last row.
proof fn lemma_fold_bounds(rows: nat, folds: nat, k: nat)
    requires
        folds >= 1,
        k < folds,
    ensures
        fold_start(rows, folds, k) <= fold_end(rows, folds, k) <= rows,
        k + 1 < folds ==> fold_end(rows, folds, k) == fold_start(rows, folds, k + 1),
{
    let q = rows / folds;
    assert(folds * q <= rows) by (nonlinear_arith)
        requires
            q == rows / folds,
            folds >= 1,
    ;
    assert(k * q <= (k + 1) * q) by (nonlinear_arith);
    if k + 1 < folds {
        assert((k + 1) * q <= folds * q) by (nonlinear_arith)
            requires
                k + 1 < folds,
        ;
    } else {
        assert(k * q <= folds * q) by (nonlinear_arith)
            requires
                k < folds,
        ;
    }
}

/// The per-fold row counts add up to the number of rows in the dataset.
pub proof fn lemma_fold_sizes_cover_all_rows(rows: usize, folds: usize)
    requires
        folds >= 1,
    ensures
        total(Seq::new(folds as nat, |k: int| fold_len(rows as nat, folds as nat, k as nat) as usize))
            == rows,
{
    let s = Seq::new(folds as nat, |k: int| fold_len(rows as nat, folds as nat, k as nat) as usize);
    lemma_prefix_total(rows, folds, folds as nat);
    assert(s.subrange(0, folds as int) =~= s);
}

/// The first `m` folds hold the rows before the end of fold `m - 1`.
proof fn lemma_prefix_total(rows: usize, folds: usize, m: nat)
    requires
        folds >= 1,
        m <= folds,
    ensures
        ({
            let s = Seq::new(folds as nat, |k: int| fold_len(rows as nat, folds as nat, k as nat) as usize);
            total(s.subrange(0, m as int)) == if m == 0 {
                0
            } else {
                fold_end(rows as nat, folds as nat, (m - 1) as nat)
            }
        }),
    decreases m,
{
    let s = Seq::new(folds as nat, |k: int| fold_len(rows as nat, folds as nat, k as nat) as usize);
    if m > 0 {
        let k = (m - 1) as nat;
        lemma_prefix_total(rows, folds, k);
        lemma_fold_bounds(rows as nat, folds as nat, k);
        assert(s.subrange(0, m as int).drop_last() =~= s.subrange(0, k as int));
        if k > 0 {
            lemma_fold_bounds(rows as nat, folds as nat, (k - 1) as nat);
        }
    }
}

/// While fold `k` is held out, no row is both trained on and tested on,
/// and together the two sets hold every row of the dataset.
pub proof fn lemma_fold_split_disjoint(rows: usize, folds: usize, k: usize)
    requires
        folds >= 1,
        k < folds,
    ensures
        forall|r: usize|
            #[trigger] training_rows(rows as nat, folds as nat, k as nat).contains(r)
                ==> !testing_rows(rows as nat, folds as nat, k as nat).contains(r),
        forall|r: usize|
            r < rows ==> #[trigger] training_rows(rows as nat, folds as nat, k as nat).contains(r)
                || testing_rows(rows as nat, folds as nat, k as nat).contains(r),
        training_rows(rows as nat, folds as nat, k as nat).len() + testing_rows(
            rows as nat,
            folds as nat,
            k as nat,
        ).len() == rows,
{
    lemma_fold_bounds(rows as nat, folds as nat, k as nat);
    let start = fold_start(rows as nat, folds as nat, k as nat);
    let end = fold_end(rows as nat, folds as nat, k as nat);
    let train = training_rows(rows as nat, folds as nat, k as nat);
    let test = testing_rows(rows as nat, folds as nat, k as nat);
    assert forall|i: int| 0 <= i < train.len() implies #[trigger] train[i] < start || end <= train[i] by {
        if i >= start {
            assert(train[i] == end + (i - start));
        }
    }
    assert forall|r: usize| #[trigger] train.contains(r) implies !test.contains(r) by {
        let i = choose|i: int| 0 <= i < train.len() && train[i] == r;
        assert(train[i] < start || end <= train[i]);
        if test.contains(r) {
            let j = choose|j: int| 0 <= j < test.len() && test[j] == r;
            assert(start <= test[j] < end);
        }
    }
    assert forall|r: usize| r < rows implies #[trigger] train.contains(r) || test.contains(r) by {
        if r < start {
            assert(train[r as int] == r);
        } else if r < end {
            assert(test[r - start] == r);
        } else {
            assert(train[start + (r - end)] == r);
        }
    }
}

/// The row counts of the folds, in order.
pub fn fold_sizes(rows: usize, folds: usize) -> (r: Vec<usize>)
    requires
        folds >= 1,
    ensures
        r@ == Seq::new(folds as nat, |k: int| fold_len(rows as nat, folds as nat, k as nat) as usize),
{
    let q: usize = rows / folds;
    let mut r: Vec<usize> = Vec::with_capacity(folds);
    let mut k: usize = 0;
    while k < folds
        invariant
            folds >= 1,
            q == rows / folds,
            0 <= k <= folds,
            r@ =~= Seq::new(folds as nat, |j: int| fold_len(rows as nat, folds as nat, j as nat) as usize).subrange(0, k as int),
        decreases folds - k,
    {
        proof {
            lemma_fold_bounds(rows as nat, folds as nat, k as nat);
        }
        let start: usize = k * q;
        let end: usize = if k + 1 == folds {
            rows
        } else {
            (k + 1) * q
        };
        r.push(end - start);
        k = k + 1;
    }
    r
}

/// The training rows and the testing rows of the iteration that holds
/// out fold `k`.
pub fn fold_split(rows: usize, folds: usize, k: usize) -> (r: (Vec<usize>, Vec<usize>))
    requires
        folds >= 1,
        k < folds,
    ensures
        r.0@ == training_rows(rows as nat, folds as nat, k as nat),
        r.1@ == testing_rows(rows as nat, folds as nat, k as nat),
{
    proof {
        lemma_fold_bounds(rows as nat, folds as nat, k as nat);
    }
    let q: usize = rows / folds;
    let start: usize = k * q;
    let end: usize = if k + 1 == folds {
        rows
    } else {
        (k + 1) * q
    };
    let ghost train_spec = training_rows(rows as nat, folds as nat, k as nat);
    let ghost test_spec = testing_rows(rows as nat, folds as nat, k as nat);
    let mut training: Vec<usize> = Vec::with_capacity(rows - (end - start));
    let mut testing: Vec<usize> = Vec::with_capacity(end - start);
    let mut row: usize = 0;
    while row < rows
        invariant
            start == fold_start(rows as nat, folds as nat, k as nat),
            end == fold_end(rows as nat, folds as nat, k as nat),
            start <= end <= rows,
            train_spec == training_rows(rows as nat, folds as nat, k as nat),
            test_spec == testing_rows(rows as nat, folds as nat, k as nat),
            0 <= row <= rows,
            row <= start ==> training@ =~= train_spec.subrange(0, row as int),
            row <= start ==> testing@.len() == 0,
            start < row <= end ==> training@ =~= train_spec.subrange(0, start as int),
            start < row <= end ==> testing@ =~= test_spec.subrange(0, row - start),
            end < row ==> training@ =~= train_spec.subrange(0, row - (end - start)),
            end < row ==> testing@ =~= test_spec,
        decreases rows - row,
    {
        if row < start || row >= end {
            training.push(row);
        } else {
            testing.push(row);
        }
        row = row + 1;
    }
    proof {
        if end == rows && start == rows {
            assert(test_spec.len() == 0);
        }
        assert(training@ =~= train_spec);
        assert(testing@ =~= test_spec);
    }
    (training, testing)
}

} // verus!
