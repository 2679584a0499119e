use vstd::prelude::*;

verus! {

/// Product of the extents in `dims`, as a mathematical integer.
pub open spec fn product(dims: Seq<usize>) -> nat
    decreases dims.len(),
{
    if dims.len() == 0 {
        1
    } else {
        (product(dims.drop_last()) * dims.last()) as nat
    }
}

/// The product of two extents is the product of the pair.
pub proof fn product_of_pair(a: usize, b: usize)
    ensures
        product(seq![a, b]) == a * b,
{
    reveal_with_fuel(product, 3);
    let s = seq![a, b];
    let t = seq![a];
    assert(s.drop_last() =~= t);
    assert(t.drop_last() =~= Seq::<usize>::empty());
    assert(t.last() == a);
    assert(t.drop_last().len() == 0);
    assert(product(t.drop_last()) == 1);
    assert(product(t) == (product(t.drop_last()) * t.last()) as nat);
    assert(product(t) == a);
    assert(product(s) == (product(s.drop_last()) * s.last()) as nat);
    assert(s.last() == b);
}

/// The dimensionality of a tensor.
pub trait Shape: Sized {
    /// The ordered extents, one per dimension.
    spec fn extents(&self) -> Seq<usize>;

    /// Number of dimensions.
    fn num_dims(&self) -> (r: usize)
        ensures
            r == self.extents().len(),
    ;

    /// Number of elements: the exact product of the extents. A product that
    /// does not fit the machine word is not computed.
    fn num_elements(&self) -> (r: usize)
        requires
            product(self.extents()) <= usize::MAX,
        ensures
            r == product(self.extents()),
    ;

    /// Number of elements, or `None` when the product does not fit.
    fn checked_num_elements(&self) -> (r: Option<usize>)
        ensures
            r.is_some() <==> product(self.extents()) <= usize::MAX,
            r.is_some() ==> r.unwrap() == product(self.extents()),
    ;

    /// The extents as a vector, in order.
    fn dims(&self) -> (r: Vec<usize>)
        ensures
            r@ == self.extents(),
    ;

    /// A second value of the same shape.
    fn duplicate(&self) -> (r: Self)
        ensures
            r == *self,
    ;
}

/// A two-dimensional shape: rows, then columns.
pub type D2 = (usize, usize);

impl Shape for (usize, usize) {
    open spec fn extents(&self) -> Seq<usize> {
        seq![self.0, self.1]
    }

    fn num_dims(&self) -> (r: usize) {
        2
    }

    fn num_elements(&self) -> (r: usize) {
        proof {
            product_of_pair(self.0, self.1);
        }
        self.0 * self.1
    }

    fn checked_num_elements(&self) -> (r: Option<usize>) {
        proof {
            product_of_pair(self.0, self.1);
        }
        self.0.checked_mul(self.1)
    }

    fn dims(&self) -> (r: Vec<usize>) {
        let mut v: Vec<usize> = Vec::new();
        v.push(self.0);
        v.push(self.1);
        assert(v@ =~= seq![self.0, self.1]);
        v
    }

    fn duplicate(&self) -> (r: Self) {
        (self.0, self.1)
    }
}

/// The scalar element of a tensor.
pub trait Kind {
    /// Bytes taken by one element in a buffer.
    spec fn byte_size() -> nat;

    /// Bytes taken by one element in a buffer; the same for every call.
    fn size_of() -> (r: usize)
        ensures
            r == Self::byte_size(),
    ;
}

/// Single-precision elements, held on the host as their 32-bit patterns.
#[derive(Debug, Clone, Copy, PartialEq, Eq)]
pub struct F32;

impl Kind for F32 {
    open spec fn byte_size() -> nat {
        4
    }

    fn size_of() -> (r: usize) {
        4
    }
}

} // verus!
