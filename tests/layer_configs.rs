use neuralnet::layers::{
    DenseLayerConfig, DropoutActivationConfig, LayerConfig, LayerKind, ReluActivationConfig,
    SoftmaxActivationConfig,
};
use neuralnet::loss::{LossConfig, MeanSquared};
use neuralnet::shape::{copy_shape, flat_shape, same_shape};

#[test]
fn dense_shapes_are_flat_sizes() {
    let l = LayerConfig::Dense(DenseLayerConfig::new(54, 27));
    assert_eq!(l.input_shape(), vec![54]);
    assert_eq!(l.output_shape(), vec![27]);
    assert_eq!(l.kind(), LayerKind::Dense);
    assert_eq!(l.name(), "Dense Layer");
}

#[test]
fn relu_keeps_multi_dimensional_shape() {
    let l = LayerConfig::Relu(ReluActivationConfig::new(vec![3, 4, 5]));
    assert_eq!(l.input_shape(), vec![3, 4, 5]);
    assert_eq!(l.output_shape(), vec![3, 4, 5]);
    assert_eq!(l.name(), "Relu Activation");
}

#[test]
fn softmax_and_dropout_keep_width() {
    let s = LayerConfig::Softmax(SoftmaxActivationConfig::new(2));
    assert_eq!(s.input_shape(), vec![2]);
    assert_eq!(s.output_shape(), vec![2]);
    assert_eq!(s.name(), "Softmax Activation");
    let d = LayerConfig::Dropout(DropoutActivationConfig::new(54, 13));
    assert_eq!(d.input_shape(), vec![54]);
    assert_eq!(d.output_shape(), vec![54]);
    assert_eq!(d.name(), "Dropout Activation");
}

#[test]
fn config_getters() {
    let d = DenseLayerConfig::new(3, 7);
    assert_eq!(d.input_size(), 3);
    assert_eq!(d.output_size(), 7);
    let r = DropoutActivationConfig::new(10, 4);
    assert_eq!(r.size(), 10);
    assert_eq!(r.remove(), 4);
    assert_eq!(SoftmaxActivationConfig::new(9).size(), 9);
    assert_eq!(ReluActivationConfig::new(vec![2, 2]).size(), &vec![2, 2]);
}

#[test]
fn layer_tags_round_trip() {
    for k in [LayerKind::Dense, LayerKind::Relu, LayerKind::Softmax, LayerKind::Dropout] {
        assert_eq!(LayerKind::from_tag(k.tag()), Some(k));
    }
    assert_eq!(LayerKind::Dropout.tag(), "Dropout Layer");
    assert_eq!(LayerKind::from_tag("Dense Layer"), Some(LayerKind::Dense));
    assert_eq!(LayerKind::from_tag("Dropout Activation"), None);
    assert_eq!(LayerKind::from_tag(""), None);
}

#[test]
fn trainable_parts_per_kind() {
    assert_eq!(LayerKind::Dense.trainable_parts(), 2);
    assert_eq!(LayerKind::Relu.trainable_parts(), 0);
    assert_eq!(LayerKind::Softmax.trainable_parts(), 0);
    assert_eq!(LayerKind::Dropout.trainable_parts(), 0);
}

#[test]
fn loss_tag_round_trip() {
    let l = LossConfig::MeanSquared(MeanSquared::new());
    assert_eq!(l.tag(), "Mean Squared Loss");
    assert_eq!(LossConfig::from_tag(l.tag()), Some(l));
    assert_eq!(LossConfig::from_tag("Cross Entropy"), None);
}

#[test]
fn shape_helpers() {
    assert!(same_shape(&vec![1, 2], &vec![1, 2]));
    assert!(!same_shape(&vec![1, 2], &vec![2, 1]));
    assert!(!same_shape(&vec![1, 2], &vec![1, 2, 3]));
    assert!(same_shape(&vec![], &vec![]));
    assert_eq!(copy_shape(&vec![4, 5, 6]), vec![4, 5, 6]);
    assert_eq!(flat_shape(8), vec![8]);
}
