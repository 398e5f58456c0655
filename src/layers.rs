//! Layer descriptors: the kind of each layer and the shape metadata and
//! hyperparameters that define it, without its trainable values.
use vstd::prelude::*;

use crate::shape::{copy_shape, flat_shape};

verus! {

/// Shape and size of a fully connected layer.
#[derive(Clone, Copy, Debug)]
pub struct DenseLayerConfig {
    input_size: usize,
    output_size: usize,
}

impl DenseLayerConfig {
    pub fn new(input_size: usize, output_size: usize) -> (r: DenseLayerConfig)
        ensures
            r.input_size_spec() == input_size,
            r.output_size_spec() == output_size,
    {
        DenseLayerConfig { input_size, output_size }
    }

    pub closed spec fn input_size_spec(&self) -> usize {
        self.input_size
    }

    pub closed spec fn output_size_spec(&self) -> usize {
        self.output_size
    }

    pub fn input_size(&self) -> (r: usize)
        ensures
            r == self.input_size_spec(),
    {
        self.input_size
    }

    pub fn output_size(&self) -> (r: usize)
        ensures
            r == self.output_size_spec(),
    {
        self.output_size
    }
}

/// Shape of an elementwise rectifier; it may have any number of dimensions.
#[derive(Clone, Debug)]
pub struct ReluActivationConfig {
    size: Vec<usize>,
}

impl ReluActivationConfig {
    pub fn new(size: Vec<usize>) -> (r: ReluActivationConfig)
        ensures
            r.size_spec() == size@,
    {
        ReluActivationConfig { size }
    }

    pub closed spec fn size_spec(&self) -> Seq<usize> {
        self.size@
    }

    pub fn size(&self) -> (r: &Vec<usize>)
        ensures
            r@ == self.size_spec(),
    {
        &self.size
    }
}

/// Width of a softmax normalisation.
#[derive(Clone, Copy, Debug)]
pub struct SoftmaxActivationConfig {
    size: usize,
}

impl SoftmaxActivationConfig {
    pub fn new(size: usize) -> (r: SoftmaxActivationConfig)
        ensures
            r.size_spec() == size,
    {
        SoftmaxActivationConfig { size }
    }

    pub closed spec fn size_spec(&self) -> usize {
        self.size
    }

    pub fn size(&self) -> (r: usize)
        ensures
            r == self.size_spec(),
    {
        self.size
    }
}

/// Width of a dropout layer and how many of its positions are zeroed on
/// each training pass; never more than the width.
#[derive(Clone, Copy, Debug)]
pub struct DropoutActivationConfig {
    size: usize,
    remove: usize,
}

impl DropoutActivationConfig {
    #[verifier::type_invariant]
    closed spec fn inv(&self) -> bool {
        self.remove <= self.size
    }

    pub fn new(size: usize, remove: usize) -> (r: DropoutActivationConfig)
        requires
            remove <= size,
        ensures
            r.size_spec() == size,
            r.remove_spec() == remove,
    {
        DropoutActivationConfig { size, remove }
    }

    pub closed spec fn size_spec(&self) -> usize {
        self.size
    }

    pub closed spec fn remove_spec(&self) -> usize {
        self.remove
    }

    pub fn size(&self) -> (r: usize)
        ensures
            r == self.size_spec(),
    {
        self.size
    }

    pub fn remove(&self) -> (r: usize)
        ensures
            r == self.remove_spec(),
            r <= self.size_spec(),
    {
        proof {
            use_type_invariant(self);
        }
        self.remove
    }
}


/// The kinds of layer the engine knows.
#[derive(PartialEq, Eq, Structural, Clone, Copy, Debug)]
pub enum LayerKind {
    Dense,
    Relu,
    Softmax,
    Dropout,
}

/// The discriminator under which a descriptor of kind `k` is persisted.
pub open spec fn layer_tag(k: LayerKind) -> Seq<char> {
    match k {
        LayerKind::Dense => "Dense Layer"@,
        LayerKind::Relu => "Relu Activation"@,
        LayerKind::Softmax => "Softmax Activation"@,
        LayerKind::Dropout => "Dropout Layer"@,
    }
}

/// The human-readable name of a layer of kind `k`, used in diagnostics.
pub open spec fn layer_name(k: LayerKind) -> Seq<char> {
    match k {
        LayerKind::Dense => "Dense Layer"@,
        LayerKind::Relu => "Relu Activation"@,
        LayerKind::Softmax => "Softmax Activation"@,
        LayerKind::Dropout => "Dropout Activation"@,
    }
}

/// The kind that a persisted discriminator names, if any.
pub open spec fn kind_of_tag(t: Seq<char>) -> Option<LayerKind> {
    if t == "Dense Layer"@ {
        Some(LayerKind::Dense)
    } else if t == "Relu Activation"@ {
        Some(LayerKind::Relu)
    } else if t == "Softmax Activation"@ {
        Some(LayerKind::Softmax)
    } else if t == "Dropout Layer"@ {
        Some(LayerKind::Dropout)
    } else {
        None
    }
}

/// No two kinds share a discriminator.
pub proof fn lemma_layer_tags_distinct()
    ensures
        forall|a: LayerKind, b: LayerKind| layer_tag(a) == layer_tag(b) ==> a == b,
{
    reveal_strlit("Dense Layer");
    reveal_strlit("Relu Activation");
    reveal_strlit("Softmax Activation");
    reveal_strlit("Dropout Layer");
    assert("Dense Layer"@[0] != "Relu Activation"@[0]);
    assert("Dense Layer"@[0] != "Softmax Activation"@[0]);
    assert("Dense Layer"@[1] != "Dropout Layer"@[1]);
    assert("Relu Activation"@[0] != "Softmax Activation"@[0]);
    assert("Relu Activation"@[0] != "Dropout Layer"@[0]);
    assert("Softmax Activation"@[0] != "Dropout Layer"@[0]);
}

/// Reading back the discriminator written for a kind gives that kind.
pub proof fn lemma_layer_tag_round_trip(k: LayerKind)
    ensures
        kind_of_tag(layer_tag(k)) == Some(k),
{
    lemma_layer_tags_distinct();
    assert(layer_tag(LayerKind::Dense) != layer_tag(LayerKind::Relu));
    assert(layer_tag(LayerKind::Dense) != layer_tag(LayerKind::Softmax));
    assert(layer_tag(LayerKind::Dense) != layer_tag(LayerKind::Dropout));
    assert(layer_tag(LayerKind::Relu) != layer_tag(LayerKind::Softmax));
    assert(layer_tag(LayerKind::Relu) != layer_tag(LayerKind::Dropout));
    assert(layer_tag(LayerKind::Softmax) != layer_tag(LayerKind::Dropout));
}

/// Whether two pieces of text are the same characters.
fn same_text(a: &str, b: &str) -> (r: bool)
    ensures
        r == (a@ == b@),
{
    a.to_owned() == b.to_owned()
}

impl LayerKind {
    /// The discriminator written for this kind in a persisted configuration.
    pub fn tag(self) -> (r: &'static str)
        ensures
            r@ == layer_tag(self),
    {
        match self {
            LayerKind::Dense => "Dense Layer",
            LayerKind::Relu => "Relu Activation",
            LayerKind::Softmax => "Softmax Activation",
            LayerKind::Dropout => "Dropout Layer",
        }
    }

    /// The kind persisted under `tag`, if any kind is.
    pub fn from_tag(tag: &str) -> (r: Option<LayerKind>)
        ensures
            r == kind_of_tag(tag@),
            match r {
                Some(k) => layer_tag(k) == tag@,
                None => forall|k: LayerKind| layer_tag(k) != tag@,
            },
    {
        proof {
            lemma_layer_tags_distinct();
        }
        if same_text(tag, "Dense Layer") {
            Some(LayerKind::Dense)
        } else if same_text(tag, "Relu Activation") {
            Some(LayerKind::Relu)
        } else if same_text(tag, "Softmax Activation") {
            Some(LayerKind::Softmax)
        } else if same_text(tag, "Dropout Layer") {
            Some(LayerKind::Dropout)
        } else {
            proof {
                assert forall|k: LayerKind| layer_tag(k) != tag@ by {
                    match k {
                        LayerKind::Dense => {},
                        LayerKind::Relu => {},
                        LayerKind::Softmax => {},
                        LayerKind::Dropout => {},
                    }
                }
            }
            None
        }
    }

    /// How many trainable tensors a layer of this kind persists: a dense
    /// layer its weight matrix and its bias vector, the others none.
    pub fn trainable_parts(self) -> (r: usize)
        ensures
            r == (if self == LayerKind::Dense {
                2usize
            } else {
                0usize
            }),
    {
        match self {
            LayerKind::Dense => 2,
            _ => 0,
        }
    }

    /// The human-readable name of this kind.
    pub fn name(self) -> (r: &'static str)
        ensures
            r@ == layer_name(self),
    {
        match self {
            LayerKind::Dense => "Dense Layer",
            LayerKind::Relu => "Relu Activation",
            LayerKind::Softmax => "Softmax Activation",
            LayerKind::Dropout => "Dropout Activation",
        }
    }
}

/// The descriptor of one layer: its kind with the shape metadata and
/// hyperparameters of that kind.
#[derive(Clone, Debug)]
pub enum LayerConfig {
    Dense(DenseLayerConfig),
    Relu(ReluActivationConfig),
    Softmax(SoftmaxActivationConfig),
    Dropout(DropoutActivationConfig),
}

impl LayerConfig {
    pub open spec fn kind_spec(&self) -> LayerKind {
        match self {
            LayerConfig::Dense(_) => LayerKind::Dense,
            LayerConfig::Relu(_) => LayerKind::Relu,
            LayerConfig::Softmax(_) => LayerKind::Softmax,
            LayerConfig::Dropout(_) => LayerKind::Dropout,
        }
    }

    /// The shape of the tensor this layer takes.
    pub open spec fn input_shape_spec(&self) -> Seq<usize> {
        match self {
            LayerConfig::Dense(c) => seq![c.input_size_spec()],
            LayerConfig::Relu(c) => c.size_spec(),
            LayerConfig::Softmax(c) => seq![c.size_spec()],
            LayerConfig::Dropout(c) => seq![c.size_spec()],
        }
    }

    /// The shape of the tensor this layer produces.
    pub open spec fn output_shape_spec(&self) -> Seq<usize> {
        match self {
            LayerConfig::Dense(c) => seq![c.output_size_spec()],
            LayerConfig::Relu(c) => c.size_spec(),
            LayerConfig::Softmax(c) => seq![c.size_spec()],
            LayerConfig::Dropout(c) => seq![c.size_spec()],
        }
    }

    pub fn kind(&self) -> (r: LayerKind)
        ensures
            r == self.kind_spec(),
    {
        match self {
            LayerConfig::Dense(_) => LayerKind::Dense,
            LayerConfig::Relu(_) => LayerKind::Relu,
            LayerConfig::Softmax(_) => LayerKind::Softmax,
            LayerConfig::Dropout(_) => LayerKind::Dropout,
        }
    }

    pub fn input_shape(&self) -> (r: Vec<usize>)
        ensures
            r@ == self.input_shape_spec(),
    {
        match self {
            LayerConfig::Dense(c) => flat_shape(c.input_size()),
            LayerConfig::Relu(c) => copy_shape(c.size()),
            LayerConfig::Softmax(c) => flat_shape(c.size()),
            LayerConfig::Dropout(c) => flat_shape(c.size()),
        }
    }

    pub fn output_shape(&self) -> (r: Vec<usize>)
        ensures
            r@ == self.output_shape_spec(),
    {
        match self {
            LayerConfig::Dense(c) => flat_shape(c.output_size()),
            LayerConfig::Relu(c) => copy_shape(c.size()),
            LayerConfig::Softmax(c) => flat_shape(c.size()),
            LayerConfig::Dropout(c) => flat_shape(c.size()),
        }
    }

    /// The human-readable name of this layer's kind.
    pub fn name(&self) -> (r: &'static str)
        ensures
            r@ == layer_name(self.kind_spec()),
    {
        self.kind().name()
    }
}

} // verus!
