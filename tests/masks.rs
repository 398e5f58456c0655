use neuralnet::layers::DropoutActivationConfig;
use neuralnet::mask::{apply_mask, dropout_mask};

#[test]
fn dropout_mask_removes_exactly() {
    for remove in 0..=10 {
        let m = dropout_mask(10, remove);
        assert_eq!(m.len(), 10);
        assert_eq!(m.iter().filter(|b| !**b).count(), remove);
    }
}

#[test]
fn dropout_without_removal_keeps_all() {
    let m = dropout_mask(6, 0);
    assert_eq!(m, vec![true; 6]);
    let v = vec![1.5f64, -2.0, 3.0, 0.0, 4.0, 5.0];
    assert_eq!(apply_mask(&v, &m, 0.0), v);
}

#[test]
fn dropout_removing_everything_zeroes_all() {
    let m = dropout_mask(6, 6);
    assert_eq!(m, vec![false; 6]);
    let v = vec![1.5f64, -2.0, 3.0, 0.0, 4.0, 5.0];
    assert_eq!(apply_mask(&v, &m, 0.0), vec![0.0; 6]);
}

#[test]
fn dropout_mask_of_empty_layer() {
    assert!(dropout_mask(0, 0).is_empty());
}

#[test]
fn dropout_mask_is_shuffled() {
    let unshuffled: Vec<bool> = (0..10).map(|i| i < 5).collect();
    let mut differs = false;
    for _ in 0..50 {
        if dropout_mask(10, 5) != unshuffled {
            differs = true;
        }
    }
    assert!(differs);
}

#[test]
fn dropout_positions_are_spread() {
    let mut dropped = vec![0usize; 4];
    for _ in 0..2000 {
        let m = dropout_mask(4, 1);
        for (i, keep) in m.iter().enumerate() {
            if !keep {
                dropped[i] += 1;
            }
        }
    }
    for d in dropped {
        assert!(d > 300);
    }
}

#[test]
fn rescaled_dropout_keeps_expected_value() {
    let config = DropoutActivationConfig::new(4, 1);
    let (num, den) = config.rescale().unwrap();
    assert_eq!((num, den), (4, 3));
    let input = vec![1.0f64, 2.0, 3.0, 4.0];
    let trials = 20000;
    let mut sums = vec![0.0f64; 4];
    for _ in 0..trials {
        let mask = config.draw_mask();
        let out = apply_mask(&input, &mask, 0.0);
        for i in 0..4 {
            sums[i] += out[i] * num as f64 / den as f64;
        }
    }
    for i in 0..4 {
        let mean = sums[i] / trials as f64;
        assert!((mean - input[i]).abs() < 0.1 * input[i]);
    }
}

#[test]
fn rescale_is_absent_when_all_removed() {
    assert_eq!(DropoutActivationConfig::new(3, 3).rescale(), None);
    assert_eq!(DropoutActivationConfig::new(3, 0).rescale(), Some((3, 3)));
}

#[test]
fn relu_indicator_mask_on_gradient() {
    let input = vec![-1.0f64, 0.0, 2.0];
    let indicator: Vec<bool> = input.iter().map(|x| *x > 0.0).collect();
    assert_eq!(indicator, vec![false, false, true]);
    assert_eq!(apply_mask(&input, &indicator, 0.0), vec![0.0, 0.0, 2.0]);
    let gradient = vec![0.5f64, -0.25, 0.75];
    assert_eq!(apply_mask(&gradient, &indicator, 0.0), vec![0.0, 0.0, 0.75]);
}

#[test]
fn apply_mask_on_integers() {
    assert_eq!(apply_mask(&vec![1, 2, 3, 4], &vec![true, false, false, true], -1), vec![1, -1, -1, 4]);
}
