//! Elementwise masks: which positions of a tensor pass and which are zeroed.
//! Dropout draws its mask at random; a rectifier's backward pass uses the
//! mask of positive inputs.
use vstd::multiset::Multiset;
use vstd::prelude::*;

use crate::layers::DropoutActivationConfig;

verus! {

/// How many positions of `m` pass.
pub open spec fn kept_count(m: Seq<bool>) -> nat
    decreases m.len(),
{
    if m.len() == 0 {
        0
    } else {
        kept_count(m.drop_last()) + if m.last() {
            1nat
        } else {
            0nat
        }
    }
}

/// `values` with every position that `mask` does not pass set to `zero`.
pub open spec fn masked<T>(values: Seq<T>, mask: Seq<bool>, zero: T) -> Seq<T> {
    Seq::new(values.len(), |i: int| if mask[i] { values[i] } else { zero })
}

proof fn lemma_kept_count_push(m: Seq<bool>, b: bool)
    ensures
        kept_count(m.push(b)) == kept_count(m) + if b {
            1nat
        } else {
            0nat
        },
{
    assert(m.push(b).drop_last() =~= m);
}

/// The number of passing positions is the multiplicity of `true`.
proof fn lemma_kept_count_multiset(m: Seq<bool>)
    ensures
        kept_count(m) == m.to_multiset().count(true),
    decreases m.len(),
{
    broadcast use vstd::seq_lib::group_to_multiset_ensures;

    if m.len() == 0 {
        assert(m.to_multiset() =~= Multiset::empty());
    } else {
        let init = m.drop_last();
        lemma_kept_count_multiset(init);
        assert(init.push(m.last()) =~= m);
    }
}

/// A mask passes every position exactly when its count is its length, and
/// none exactly when its count is zero.
proof fn lemma_kept_count_extremes(m: Seq<bool>)
    ensures
        kept_count(m) <= m.len(),
        kept_count(m) == m.len() ==> forall|i: int| 0 <= i < m.len() ==> #[trigger] m[i],
        kept_count(m) == 0 ==> forall|i: int| 0 <= i < m.len() ==> !#[trigger] m[i],
    decreases m.len(),
{
    if m.len() > 0 {
        let init = m.drop_last();
        lemma_kept_count_extremes(init);
        assert forall|i: int| 0 <= i < m.len() - 1 implies m[i] == init[i] by {}
    }
}

/// Relies on fastrand::shuffle, which swaps elements in place and so
/// leaves a permutation of them.
#[verifier::external_body]
fn shuffle_in_place(v: &mut Vec<bool>)
    ensures
        final(v)@.to_multiset() == old(v)@.to_multiset(),
{
    fastrand::shuffle(v.as_mut_slice());
}

/// A mask of `size` positions of which exactly `remove` are zeroed, in an
/// order drawn at random.
pub fn dropout_mask(size: usize, remove: usize) -> (r: Vec<bool>)
    requires
        remove <= size,
    ensures
        r@.len() == size,
        kept_count(r@) == size - remove,
        remove == 0 ==> forall|i: int| 0 <= i < size ==> #[trigger] r@[i],
        remove == size ==> forall|i: int| 0 <= i < size ==> !#[trigger] r@[i],
{
    let keep: usize = size - remove;
    let mut m: Vec<bool> = Vec::with_capacity(size);
    let mut i: usize = 0;
    while i < size
        invariant
            keep + remove == size,
            0 <= i <= size,
            m@.len() == i,
            kept_count(m@) == if i <= keep {
                i as nat
            } else {
                keep as nat
            },
        decreases size - i,
    {
        proof {
            lemma_kept_count_push(m@, i < keep);
        }
        m.push(i < keep);
        i = i + 1;
    }
    let ghost before = m@;
    shuffle_in_place(&mut m);
    proof {
        broadcast use vstd::seq_lib::group_to_multiset_ensures;

        lemma_kept_count_multiset(before);
        lemma_kept_count_multiset(m@);
        assert(m@.len() == m@.to_multiset().len());
        lemma_kept_count_extremes(m@);
    }
    m
}

/// Applies `mask` to `values`, putting `zero` where the mask does not pass.
pub fn apply_mask<T: Copy>(values: &Vec<T>, mask: &Vec<bool>, zero: T) -> (r: Vec<T>)
    requires
        values@.len() == mask@.len(),
    ensures
        r@ == masked(values@, mask@, zero),
{
    let mut r: Vec<T> = Vec::with_capacity(values.len());
    let mut i: usize = 0;
    while i < values.len()
        invariant
            values@.len() == mask@.len(),
            0 <= i <= values@.len(),
            r@ =~= masked(values@, mask@, zero).subrange(0, i as int),
        decreases values@.len() - i,
    {
        if mask[i] {
            r.push(values[i]);
        } else {
            r.push(zero);
        }
        i = i + 1;
    }
    r
}

impl DropoutActivationConfig {
    /// The mask of one training pass: exactly `remove` of the `size`
    /// positions are zeroed.
    pub fn draw_mask(&self) -> (r: Vec<bool>)
        ensures
            r@.len() == self.size_spec(),
            kept_count(r@) == self.size_spec() - self.remove_spec(),
            self.remove_spec() == 0 ==> forall|i: int| 0 <= i < r@.len() ==> #[trigger] r@[i],
            self.remove_spec() == self.size_spec() ==> forall|i: int|
                0 <= i < r@.len() ==> !#[trigger] r@[i],
    {
        dropout_mask(self.size(), self.remove())
    }

    /// The factor by which passing positions are scaled so that the expected
    /// value of each position is unchanged, as numerator and denominator:
    /// the width over the number of passing positions. There is none when
    /// every position is zeroed.
    pub fn rescale(&self) -> (r: Option<(usize, usize)>)
        ensures
            self.remove_spec() < self.size_spec() ==> r == Some(
                (self.size_spec(), (self.size_spec() - self.remove_spec()) as usize),
            ),
            self.remove_spec() >= self.size_spec() ==> r is None,
    {
        let size: usize = self.size();
        let remove: usize = self.remove();
        if remove < size {
            Some((size, size - remove))
        } else {
            None
        }
    }
}

} // verus!
