//! Tensor shapes: the sequence of dimension sizes of an n-dimensional array.
use vstd::prelude::*;

verus! {

/// Whether two shapes have the same dimensions in the same order.
pub fn same_shape(a: &Vec<usize>, b: &Vec<usize>) -> (r: bool)
    ensures
        r == (a@ == b@),
{
    if a.len() != b.len() {
        return false;
    }
    let mut i: usize = 0;
    while i < a.len()
        invariant
            a@.len() == b@.len(),
            0 <= i <= a@.len(),
            forall|j: int| 0 <= j < i ==> a@[j] == b@[j],
        decreases a@.len() - i,
    {
        if a[i] != b[i] {
            return false;
        }
        i = i + 1;
    }
    proof {
        assert(a@ =~= b@);
    }
    true
}

/// A fresh copy of a shape.
pub fn copy_shape(a: &Vec<usize>) -> (r: Vec<usize>)
    ensures
        r@ == a@,
{
    let mut r: Vec<usize> = Vec::with_capacity(a.len());
    let mut i: usize = 0;
    while i < a.len()
        invariant
            0 <= i <= a@.len(),
            r@ == a@.subrange(0, i as int),
        decreases a@.len() - i,
    {
        r.push(a[i]);
        i = i + 1;
        proof {
            assert(r@ =~= a@.subrange(0, i as int));
        }
    }
    proof {
        assert(r@ =~= a@);
    }
    r
}

/// The shape of a flat vector of `n` elements.
pub fn flat_shape(n: usize) -> (r: Vec<usize>)
    ensures
        r@ == seq![n],
{
    let mut r: Vec<usize> = Vec::new();
    r.push(n);
    proof {
        assert(r@ =~= seq![n]);
    }
    r
}

} // verus!
