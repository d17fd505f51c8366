use vstd::prelude::*;

verus! {

/// Rows and columns of a dense matrix.
#[derive(Clone, Copy, Debug, PartialEq, Eq, Structural)]
pub struct Shape {
    pub rows: usize,
    pub cols: usize,
}

impl Shape {
    pub open spec fn new_spec(rows: usize, cols: usize) -> Shape {
        Shape { rows, cols }
    }

    #[verifier::when_used_as_spec(new_spec)]
    pub fn new(rows: usize, cols: usize) -> (r: Shape)
        ensures
            r == Shape::new_spec(rows, cols),
    {
        Shape { rows, cols }
    }
}

/// The shape of the dense product `a · b`, or `None` where the inner
/// dimensions differ.
pub fn dot(a: Shape, b: Shape) -> (r: Option<Shape>)
    ensures
        a.cols == b.rows ==> r == Some(Shape { rows: a.rows, cols: b.cols }),
        a.cols != b.rows ==> r.is_none(),
{
    if a.cols == b.rows {
        Some(Shape { rows: a.rows, cols: b.cols })
    } else {
        None
    }
}

/// The shape of the transpose.
pub fn transpose(a: Shape) -> (r: Shape)
    ensures
        r.rows == a.cols,
        r.cols == a.rows,
{
    Shape { rows: a.cols, cols: a.rows }
}

/// The shape of an elementwise combination (difference or product) of `a`
/// and `b`, or `None` where the shapes differ: no broadcasting.
pub fn elementwise(a: Shape, b: Shape) -> (r: Option<Shape>)
    ensures
        a == b ==> r == Some(a),
        a != b ==> r.is_none(),
{
    if a.rows == b.rows && a.cols == b.cols {
        Some(a)
    } else {
        None
    }
}

} // verus!
