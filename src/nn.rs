use vstd::prelude::*;
use crate::shape::{Shape, dot, elementwise, transpose};

verus! {

/// Types of activation functions.
#[derive(Clone, Copy, Debug, PartialEq, Eq, Structural)]
pub enum Activation {
    Sigmoid,
}

/// Why a pass over a network cannot go ahead.
#[derive(Clone, Copy, Debug, PartialEq, Eq, Structural)]
pub enum ShapeError {
    /// The input has `found` columns where the network takes `expected`.
    InputCount { expected: usize, found: usize },
    /// The training targets have shape `target` where the network's output
    /// for the given input has shape `output`.
    TargetShape { output: Shape, target: Shape },
}

/// Number of weight matrices built for `n_hidden` layers: the first, one
/// for each index in `2..n_hidden`, and the last.
pub open spec fn weight_count(n_hidden: int) -> int {
    if n_hidden <= 2 {
        2
    } else {
        n_hidden
    }
}

/// Rows of weight matrix `k`: the first takes the inputs, every other one
/// the `n_inputs + 1` units of a hidden stage.
pub open spec fn weight_rows(n_inputs: int, k: int) -> int {
    if k == 0 {
        n_inputs
    } else {
        n_inputs + 1
    }
}

/// Columns of weight matrix `k`: the last collapses to one output unit.
pub open spec fn weight_cols(n_inputs: int, n_hidden: int, k: int) -> int {
    if k == weight_count(n_hidden) - 1 {
        1
    } else {
        n_inputs + 1
    }
}

/// Columns of layer `i` of a forward pass: layer 0 is the input, layer `i`
/// the product of layer `i - 1` with weight matrix `i - 1`.
pub open spec fn layer_width(n_inputs: int, n_hidden: int, i: int) -> int {
    if i == 0 {
        n_inputs
    } else {
        weight_cols(n_inputs, n_hidden, i - 1)
    }
}

/// Consecutive layers chain: for every layer `i` below `n_hidden`, the
/// width of layer `i` is the row count of weight matrix `i`, so every product
/// of a forward pass is defined.
pub proof fn lemma_layers_chain(n_inputs: int, n_hidden: int, i: int)
    requires
        1 <= n_inputs,
        1 <= n_hidden,
        0 <= i < n_hidden,
    ensures
        layer_width(n_inputs, n_hidden, i) == weight_rows(n_inputs, i),
        i < weight_count(n_hidden),
{
}

/// In every backward step of training (`1 <= i < n_hidden`) the output
/// layer is one column wide, the last weight matrix is the `n_hidden - 1`-th,
/// and the layer whose derivative scales delta `i` is `n_inputs + 1` wide, as
/// wide as the error propagated through the last weight matrix.
pub proof fn lemma_backprop_chain(n_inputs: int, n_hidden: int, i: int)
    requires
        1 <= n_inputs,
        1 <= i < n_hidden,
    ensures
        weight_count(n_hidden) == n_hidden,
        layer_width(n_inputs, n_hidden, n_hidden) == 1,
        weight_rows(n_inputs, n_hidden - 1) == n_inputs + 1,
        weight_cols(n_inputs, n_hidden, n_hidden - 1) == 1,
        layer_width(n_inputs, n_hidden, n_hidden - i) == n_inputs + 1,
{
}

/// A step of the weight update of training: weight matrix `weight` grows by
/// the transpose of layer `layer` times delta `delta`.
#[derive(Clone, Copy, Debug, PartialEq, Eq, Structural)]
pub struct Update {
    pub weight: usize,
    pub layer: usize,
    pub delta: usize,
}

/// The shape of a network: its number of inputs and of layers.
#[derive(Clone, Copy, Debug, PartialEq, Eq, Structural)]
pub struct Layout {
    pub n_inputs: usize,
    pub n_hidden: usize,
}

impl Layout {
    /// At least one input and one layer, and room for the `n_inputs + 1`
    /// units of a hidden stage.
    pub open spec fn wf(self) -> bool {
        1 <= self.n_inputs < usize::MAX && 1 <= self.n_hidden
    }

    /// Shape of weight matrix `k`.
    pub open spec fn weight_shape(self, k: int) -> Shape {
        Shape {
            rows: weight_rows(self.n_inputs as int, k) as usize,
            cols: weight_cols(self.n_inputs as int, self.n_hidden as int, k) as usize,
        }
    }

    /// Shape of layer `i` of a forward pass over an input of `rows` rows.
    pub open spec fn layer_shape(self, rows: usize, i: int) -> Shape {
        Shape {
            rows,
            cols: layer_width(self.n_inputs as int, self.n_hidden as int, i) as usize,
        }
    }

    /// Shape of delta `i` of a training step over `rows` rows: delta 0 scales
    /// the output error by the derivative at the output layer, delta `i` the
    /// propagated error by the derivative at layer `n_hidden - i`.
    pub open spec fn delta_shape(self, rows: usize, i: int) -> Shape {
        self.layer_shape(rows, self.n_hidden - i)
    }

    /// A layout of `n_inputs` inputs and `n_hidden` layers.
    pub fn new(n_inputs: usize, n_hidden: usize) -> (r: Layout)
        requires
            1 <= n_inputs < usize::MAX,
            1 <= n_hidden,
        ensures
            r.wf(),
            r.n_inputs == n_inputs,
            r.n_hidden == n_hidden,
    {
        Layout { n_inputs, n_hidden }
    }

    pub fn n_inputs(&self) -> (r: usize)
        ensures
            r == self.n_inputs,
    {
        self.n_inputs
    }

    pub fn n_hidden(&self) -> (r: usize)
        ensures
            r == self.n_hidden,
    {
        self.n_hidden
    }

    /// The shapes of the weight matrices, in order: `(n_inputs, n_inputs + 1)`,
    /// then `(n_inputs + 1, n_inputs + 1)` for each index in `2..n_hidden`,
    /// then `(n_inputs + 1, 1)`.
    pub fn weight_shapes(&self) -> (r: Vec<Shape>)
        requires
            self.wf(),
        ensures
            r@.len() == weight_count(self.n_hidden as int),
            forall|k: int| 0 <= k < r@.len() ==> r@[k] == self.weight_shape(k),
    {
        let n = self.n_inputs;
        let mut r: Vec<Shape> = Vec::new();
        r.push(Shape::new(n, n + 1));
        let mut k: usize = 2;
        while k < self.n_hidden
            invariant
                self.wf(),
                n == self.n_inputs,
                2 <= k <= self.n_hidden || (k == 2 && self.n_hidden < 2),
                r@.len() == k - 1,
                forall|j: int| 0 <= j < r@.len() ==> r@[j] == self.weight_shape(j),
            decreases self.n_hidden - k,
        {
            r.push(Shape::new(n + 1, n + 1));
            k = k + 1;
        }
        r.push(Shape::new(n + 1, 1));
        r
    }

    /// Accepts an input of shape `x` exactly when it has `n_inputs` columns.
    pub fn check_input(&self, x: Shape) -> (r: Result<(), ShapeError>)
        ensures
            x.cols == self.n_inputs ==> r is Ok,
            x.cols != self.n_inputs ==> r == Err::<(), ShapeError>(
                ShapeError::InputCount { expected: self.n_inputs, found: x.cols },
            ),
    {
        if x.cols != self.n_inputs {
            Err(ShapeError::InputCount { expected: self.n_inputs, found: x.cols })
        } else {
            Ok(())
        }
    }

    /// The shapes of the `n_hidden + 1` layers of a forward pass over an
    /// input of shape `x`: layer 0 is `x`, layer `i` is layer `i - 1` times
    /// weight matrix `i - 1`.
    pub fn layer_shapes(&self, x: Shape) -> (r: Result<Vec<Shape>, ShapeError>)
        requires
            self.wf(),
        ensures
            x.cols != self.n_inputs ==> r == Err::<Vec<Shape>, ShapeError>(
                ShapeError::InputCount { expected: self.n_inputs, found: x.cols },
            ),
            x.cols == self.n_inputs ==> r is Ok,
            r is Ok ==> r->Ok_0@.len() == self.n_hidden + 1,
            r is Ok ==> forall|i: int|
                0 <= i <= self.n_hidden ==> r->Ok_0@[i] == self.layer_shape(x.rows, i),
    {
        match self.check_input(x) {
            Err(e) => {
                return Err(e);
            },
            Ok(()) => {},
        }
        let weights = self.weight_shapes();
        let mut layers: Vec<Shape> = Vec::new();
        layers.push(x);
        let mut i: usize = 0;
        while i < self.n_hidden
            invariant
                self.wf(),
                x.cols == self.n_inputs,
                i <= self.n_hidden,
                weights@.len() == weight_count(self.n_hidden as int),
                forall|k: int| 0 <= k < weights@.len() ==> weights@[k] == self.weight_shape(k),
                layers@.len() == i + 1,
                forall|j: int| 0 <= j <= i ==> layers@[j] == self.layer_shape(x.rows, j),
            decreases self.n_hidden - i,
        {
            proof {
                lemma_layers_chain(self.n_inputs as int, self.n_hidden as int, i as int);
                assert(layers@[i as int] == self.layer_shape(x.rows, i as int));
                assert(weights@[i as int] == self.weight_shape(i as int));
            }
            let next = dot(layers[i], weights[i]);
            layers.push(next.unwrap());
            i = i + 1;
        }
        Ok(layers)
    }

    /// The shape of the network's output for an input of shape `x`: the
    /// shape of layer `n_hidden` of the forward pass.
    pub fn output_shape(&self, x: Shape) -> (r: Result<Shape, ShapeError>)
        requires
            self.wf(),
        ensures
            x.cols != self.n_inputs ==> r == Err::<Shape, ShapeError>(
                ShapeError::InputCount { expected: self.n_inputs, found: x.cols },
            ),
            x.cols == self.n_inputs ==> r == Ok::<Shape, ShapeError>(
                self.layer_shape(x.rows, self.n_hidden as int),
            ),
    {
        match self.layer_shapes(x) {
            Err(e) => Err(e),
            Ok(layers) => Ok(layers[self.n_hidden]),
        }
    }

    /// Checks the inputs `x` and targets `y` of a training step and gives the
    /// shapes of its deltas. Delta 0 is the output error `y - out` scaled
    /// elementwise by the derivative at the output `out`; for `1 <= i <
    /// n_hidden`, delta `i` is delta 0 times the transpose of the last weight
    /// matrix, scaled by the derivative at layer `n_hidden - i`.
    pub fn check_training(&self, x: Shape, y: Shape) -> (r: Result<Vec<Shape>, ShapeError>)
        requires
            self.wf(),
        ensures
            x.cols != self.n_inputs ==> r == Err::<Vec<Shape>, ShapeError>(
                ShapeError::InputCount { expected: self.n_inputs, found: x.cols },
            ),
            x.cols == self.n_inputs && y != self.layer_shape(x.rows, self.n_hidden as int) ==> r
                == Err::<Vec<Shape>, ShapeError>(
                ShapeError::TargetShape {
                    output: self.layer_shape(x.rows, self.n_hidden as int),
                    target: y,
                },
            ),
            x.cols == self.n_inputs && y == self.layer_shape(x.rows, self.n_hidden as int) ==> r
                is Ok,
            r is Ok ==> r->Ok_0@.len() == self.n_hidden,
            r is Ok ==> forall|i: int|
                0 <= i < self.n_hidden ==> r->Ok_0@[i] == self.delta_shape(x.rows, i),
    {
        let layers = match self.layer_shapes(x) {
            Err(e) => {
                return Err(e);
            },
            Ok(l) => l,
        };
        let h = self.n_hidden;
        let out = layers[h];
        let error0 = match elementwise(y, out) {
            None => {
                return Err(ShapeError::TargetShape { output: out, target: y });
            },
            Some(s) => s,
        };
        let delta0 = elementwise(error0, out).unwrap();
        let weights = self.weight_shapes();
        let last = weights[weights.len() - 1];
        let mut deltas: Vec<Shape> = Vec::new();
        deltas.push(delta0);
        let mut i: usize = 1;
        while i < h
            invariant
                self.wf(),
                h == self.n_hidden,
                1 <= i <= h,
                layers@.len() == h + 1,
                forall|j: int| 0 <= j <= h ==> layers@[j] == self.layer_shape(x.rows, j),
                delta0 == self.delta_shape(x.rows, 0),
                weights@.len() == weight_count(h as int),
                last == weights@[weights@.len() - 1],
                last == self.weight_shape(weights@.len() - 1),
                deltas@.len() == i,
                forall|j: int| 0 <= j < i ==> deltas@[j] == self.delta_shape(x.rows, j),
            decreases h - i,
        {
            proof {
                lemma_backprop_chain(self.n_inputs as int, h as int, i as int);
                assert(layers@[h - i] == self.layer_shape(x.rows, h - i));
            }
            let error = dot(delta0, transpose(last)).unwrap();
            let delta = elementwise(error, layers[h - i]).unwrap();
            deltas.push(delta);
            i = i + 1;
        }
        Ok(deltas)
    }

    /// The layer whose derivative scales each delta of a training step: delta
    /// `i` comes from layer `n_hidden - i`.
    pub fn delta_layers(&self) -> (r: Vec<usize>)
        requires
            self.wf(),
        ensures
            r@.len() == self.n_hidden,
            forall|i: int| 0 <= i < self.n_hidden ==> r@[i] == self.n_hidden - i,
    {
        let mut r: Vec<usize> = Vec::new();
        let mut i: usize = 0;
        while i < self.n_hidden
            invariant
                i <= self.n_hidden,
                r@.len() == i,
                forall|j: int| 0 <= j < i ==> r@[j] == self.n_hidden - j,
            decreases self.n_hidden - i,
        {
            r.push(self.n_hidden - i);
            i = i + 1;
        }
        r
    }

    /// The weight updates of a training step, in the order they are applied:
    /// the `i`-th pairs delta `i` with weight matrix `n_hidden - 1 - i` and the
    /// layer that feeds it.
    pub fn updates(&self) -> (r: Vec<Update>)
        requires
            self.wf(),
        ensures
            r@.len() == self.n_hidden,
            forall|i: int|
                0 <= i < self.n_hidden ==> r@[i] == (Update {
                    weight: (self.n_hidden - 1 - i) as usize,
                    layer: (self.n_hidden - 1 - i) as usize,
                    delta: i as usize,
                }),
    {
        let mut r: Vec<Update> = Vec::new();
        let mut i: usize = 0;
        while i < self.n_hidden
            invariant
                i <= self.n_hidden,
                r@.len() == i,
                forall|j: int|
                    0 <= j < i ==> r@[j] == (Update {
                        weight: (self.n_hidden - 1 - j) as usize,
                        layer: (self.n_hidden - 1 - j) as usize,
                        delta: j as usize,
                    }),
            decreases self.n_hidden - i,
        {
            let j = self.n_hidden - 1 - i;
            r.push(Update { weight: j, layer: j, delta: i });
            i = i + 1;
        }
        r
    }
}

/// With at least three layers, construction builds exactly `n_hidden`
/// weight matrices: `(n_inputs, n_inputs + 1)` first, `(n_inputs + 1,
/// n_inputs + 1)` in between, and `(n_inputs + 1, 1)` last.
pub proof fn lemma_construction_shapes(layout: Layout)
    requires
        layout.wf(),
        layout.n_hidden >= 3,
    ensures
        weight_count(layout.n_hidden as int) == layout.n_hidden,
        layout.weight_shape(0) == Shape::new_spec(layout.n_inputs, (layout.n_inputs + 1) as usize),
        forall|k: int|
            0 < k < layout.n_hidden - 1 ==> layout.weight_shape(k) == Shape::new_spec(
                (layout.n_inputs + 1) as usize,
                (layout.n_inputs + 1) as usize,
            ),
        layout.weight_shape(layout.n_hidden - 1) == Shape::new_spec(
            (layout.n_inputs + 1) as usize,
            1,
        ),
{
}

/// With at least two layers, the forward pass over `rows` rows ends in a
/// single column: the output has shape `(rows, 1)`.
pub proof fn lemma_output_single_column(layout: Layout, rows: usize)
    requires
        layout.wf(),
        layout.n_hidden >= 2,
    ensures
        layout.layer_shape(rows, layout.n_hidden as int) == Shape::new_spec(rows, 1),
{
}

/// Training keeps the weights' shapes: the `i`-th update, the transpose of
/// layer `n_hidden - 1 - i` times delta `i`, is defined and has the shape of
/// weight matrix `n_hidden - 1 - i`.
pub proof fn lemma_updates_keep_shapes(layout: Layout, rows: usize, i: int)
    requires
        layout.wf(),
        0 <= i < layout.n_hidden,
    ensures
        layout.layer_shape(rows, layout.n_hidden - 1 - i).rows == layout.delta_shape(rows, i).rows,
        Shape::new_spec(
            layout.layer_shape(rows, layout.n_hidden - 1 - i).cols,
            layout.delta_shape(rows, i).cols,
        ) == layout.weight_shape(layout.n_hidden - 1 - i),
{
    lemma_layers_chain(layout.n_inputs as int, layout.n_hidden as int, layout.n_hidden - 1 - i);
}

} // verus!
