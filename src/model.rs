//! Model assembly: an ordered sequence of layer descriptors and one loss,
//! where each layer's output shape is the next layer's input shape.
use vstd::prelude::*;

use crate::layers::{LayerConfig, LayerKind};
use crate::loss::LossConfig;
use crate::shape::same_shape;

verus! {

/// Whether every layer produces the shape that the layer after it takes.
pub open spec fn chain_compatible(layers: Seq<LayerConfig>) -> bool {
    forall|i: int|
        0 <= i < layers.len() - 1 ==> #[trigger] layers[i].output_shape_spec()
            == layers[i + 1].input_shape_spec()
}

/// Whether the layers at `i` and `i + 1` disagree on the shape between them.
pub open spec fn mismatch_at(layers: Seq<LayerConfig>, i: int) -> bool {
    &&& 0 <= i < layers.len() - 1
    &&& layers[i].output_shape_spec() != layers[i + 1].input_shape_spec()
}

/// Adjacent layers that disagree on the shape between them: the layer at
/// `index` produces `output_shape`, the one after it takes `input_shape`.
#[derive(Clone, Debug)]
pub struct ShapeMismatch {
    pub index: usize,
    pub output_kind: LayerKind,
    pub output_shape: Vec<usize>,
    pub input_kind: LayerKind,
    pub input_shape: Vec<usize>,
}

/// Whether `e` describes the first disagreement in `layers`.
pub open spec fn first_mismatch(layers: Seq<LayerConfig>, e: ShapeMismatch) -> bool {
    &&& mismatch_at(layers, e.index as int)
    &&& forall|j: int| 0 <= j < e.index ==> !mismatch_at(layers, j)
    &&& e.output_kind == layers[e.index as int].kind_spec()
    &&& e.output_shape@ == layers[e.index as int].output_shape_spec()
    &&& e.input_kind == layers[e.index + 1].kind_spec()
    &&& e.input_shape@ == layers[e.index + 1].input_shape_spec()
}

/// Checks the whole chain of adjacent shapes and reports the first
/// disagreement.
pub fn check_chain(layers: &Vec<LayerConfig>) -> (r: Result<(), ShapeMismatch>)
    ensures
        r is Ok <==> chain_compatible(layers@),
        r matches Err(e) ==> first_mismatch(layers@, e),
{
    let n: usize = layers.len();
    let mut i: usize = 0;
    while i + 1 < n
        invariant
            n == layers@.len(),
            i == 0 || i < n,
            forall|j: int| 0 <= j < i ==> !mismatch_at(layers@, j),
        decreases layers@.len() - i,
    {
        let out = layers[i].output_shape();
        let inp = layers[i + 1].input_shape();
        if !same_shape(&out, &inp) {
            return Err(
                ShapeMismatch {
                    index: i,
                    output_kind: layers[i].kind(),
                    output_shape: out,
                    input_kind: layers[i + 1].kind(),
                    input_shape: inp,
                },
            );
        }
        i = i + 1;
    }
    proof {
        assert forall|j: int|
            0 <= j < layers@.len() - 1 implies #[trigger] layers@[j].output_shape_spec()
            == layers@[j + 1].input_shape_spec() by {
            assert(!mismatch_at(layers@, j));
        }
    }
    Ok(())
}

/// The validated architecture of a model: its layers in pipeline order and
/// its loss. Only a compatible chain of layers can be held.
#[derive(Debug)]
pub struct ModelConfig {
    layers: Vec<LayerConfig>,
    loss: LossConfig,
}

impl ModelConfig {
    #[verifier::type_invariant]
    closed spec fn inv(&self) -> bool {
        chain_compatible(self.layers@)
    }

    pub closed spec fn layers_spec(&self) -> Seq<LayerConfig> {
        self.layers@
    }

    pub closed spec fn loss_spec(&self) -> LossConfig {
        self.loss
    }

    /// Assembles a model; fails on the first pair of adjacent layers whose
    /// shapes disagree, and on no other input.
    pub fn new(layers: Vec<LayerConfig>, loss: LossConfig) -> (r: Result<ModelConfig, ShapeMismatch>)
        ensures
            r is Ok <==> chain_compatible(layers@),
            r matches Ok(m) ==> m.layers_spec() == layers@ && m.loss_spec() == loss,
            r matches Err(e) ==> first_mismatch(layers@, e),
    {
        match check_chain(&layers) {
            Ok(()) => Ok(ModelConfig { layers, loss }),
            Err(e) => Err(e),
        }
    }

    /// The layers in pipeline order; every adjacent pair agrees on its shape.
    pub fn layers(&self) -> (r: &Vec<LayerConfig>)
        ensures
            r@ == self.layers_spec(),
            chain_compatible(r@),
    {
        proof {
            use_type_invariant(self);
        }
        &self.layers
    }

    pub fn loss(&self) -> (r: &LossConfig)
        ensures
            *r == self.loss_spec(),
    {
        &self.loss
    }

    /// Whether a tensor of shape `shape` may enter the pipeline: it must have
    /// the first layer's input shape, and any shape passes an empty model.
    pub fn accepts_input(&self, shape: &Vec<usize>) -> (r: bool)
        ensures
            r == (self.layers_spec().len() == 0 || shape@ == self.layers_spec()[0].input_shape_spec()),
    {
        if self.layers.len() == 0 {
            true
        } else {
            let first = self.layers[0].input_shape();
            same_shape(shape, &first)
        }
    }

    /// The parts of the model, given back to build the working layers from.
    pub fn into_parts(self) -> (r: (Vec<LayerConfig>, LossConfig))
        ensures
            r.0@ == self.layers_spec(),
            chain_compatible(r.0@),
            r.1 == self.loss_spec(),
    {
        proof {
            use_type_invariant(&self);
        }
        let ModelConfig { layers, loss } = self;
        (layers, loss)
    }
}

} // verus!
