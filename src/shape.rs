//! Blob shapes: the list of dimensions of a blob and its element count.
use vstd::prelude::*;

verus! {

/// The number of elements of a blob with the given dimensions:
/// the product of all dimensions (one for a blob without dimensions).
pub open spec fn shape_count(dims: Seq<usize>) -> int
    decreases dims.len(),
{
    if dims.len() == 0 {
        1
    } else {
        shape_count(dims.drop_last()) * dims.last()
    }
}

/// A shape whose element count can be held in memory.
pub open spec fn fits_in_memory(dims: Seq<usize>) -> bool {
    shape_count(dims) <= usize::MAX
}

proof fn lemma_count_nonneg(dims: Seq<usize>)
    ensures
        shape_count(dims) >= 0,
    decreases dims.len(),
{
    if dims.len() > 0 {
        lemma_count_nonneg(dims.drop_last());
        let p = shape_count(dims.drop_last());
        let d = dims.last() as int;
        assert(p * d >= 0) by (nonlinear_arith)
            requires
                p >= 0,
                d >= 0,
        ;
    }
}

proof fn lemma_count_zero(dims: Seq<usize>, k: int)
    requires
        0 <= k < dims.len(),
        dims[k] == 0,
    ensures
        shape_count(dims) == 0,
    decreases dims.len(),
{
    if k < dims.len() - 1 {
        assert(dims.drop_last()[k] == dims[k]);
        lemma_count_zero(dims.drop_last(), k);
        assert(shape_count(dims) == 0 * dims.last());
    } else {
        assert(dims.last() == 0);
        assert(shape_count(dims) == shape_count(dims.drop_last()) * 0);
    }
}

/// With no zero dimension, the count of a prefix never exceeds the count of the whole.
proof fn lemma_prefix_count_le(dims: Seq<usize>, i: int)
    requires
        0 <= i <= dims.len(),
        forall|k: int| 0 <= k < dims.len() ==> dims[k] >= 1,
    ensures
        shape_count(dims.take(i)) <= shape_count(dims),
    decreases dims.len() - i,
{
    if i == dims.len() {
        assert(dims.take(i) =~= dims);
    } else {
        lemma_prefix_count_le(dims, i + 1);
        assert(dims.take(i + 1).drop_last() =~= dims.take(i));
        lemma_count_nonneg(dims.take(i));
        let p = shape_count(dims.take(i));
        let d = dims[i] as int;
        assert(p <= p * d) by (nonlinear_arith)
            requires
                p >= 0,
                d >= 1,
        ;
    }
}

/// The element count of a shape.
pub fn count(dims: &Vec<usize>) -> (r: usize)
    requires
        fits_in_memory(dims@),
    ensures
        r == shape_count(dims@),
{
    let mut k: usize = 0;
    while k < dims.len()
        invariant
            0 <= k <= dims.len(),
            forall|j: int| 0 <= j < k ==> dims@[j] >= 1,
        decreases dims.len() - k,
    {
        if dims[k] == 0 {
            proof {
                lemma_count_zero(dims@, k as int);
            }
            return 0;
        }
        k = k + 1;
    }
    let mut prod: usize = 1;
    let mut i: usize = 0;
    while i < dims.len()
        invariant
            0 <= i <= dims.len(),
            forall|j: int| 0 <= j < dims.len() ==> dims@[j] >= 1,
            fits_in_memory(dims@),
            prod == shape_count(dims@.take(i as int)),
        decreases dims.len() - i,
    {
        proof {
            lemma_prefix_count_le(dims@, i + 1);
            assert(dims@.take(i + 1).drop_last() =~= dims@.take(i as int));
        }
        prod = prod * dims[i];
        i = i + 1;
    }
    proof {
        assert(dims@.take(i as int) =~= dims@);
    }
    prod
}

/// Whether two shapes agree dimension by dimension.
pub fn same_shape(a: &Vec<usize>, b: &Vec<usize>) -> (r: bool)
    ensures
        r == (a@ == b@),
{
    if a.len() != b.len() {
        return false;
    }
    let mut i: usize = 0;
    while i < a.len()
        invariant
            a.len() == b.len(),
            0 <= i <= a.len(),
            forall|j: int| 0 <= j < i ==> a@[j] == b@[j],
        decreases a.len() - i,
    {
        if a[i] != b[i] {
            return false;
        }
        i = i + 1;
    }
    proof {
        assert(a@ =~= b@);
    }
    true
}

/// A copy of a shape.
pub fn copy_shape(dims: &Vec<usize>) -> (r: Vec<usize>)
    ensures
        r@ == dims@,
{
    let mut r: Vec<usize> = Vec::new();
    let mut i: usize = 0;
    while i < dims.len()
        invariant
            0 <= i <= dims.len(),
            r@ == dims@.take(i as int),
        decreases dims.len() - i,
    {
        r.push(dims[i]);
        i = i + 1;
        proof {
            assert(r@ =~= dims@.take(i as int));
        }
    }
    proof {
        assert(r@ =~= dims@);
    }
    r
}

} // verus!
