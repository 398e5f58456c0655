use neuralnet::kfold::{fold_sizes, fold_split};

#[test]
fn fold_sizes_even_split() {
    assert_eq!(fold_sizes(12, 3), vec![4, 4, 4]);
}

#[test]
fn remainder_goes_to_last_fold() {
    assert_eq!(fold_sizes(1500, 6), vec![250; 6]);
    assert_eq!(fold_sizes(10, 3), vec![3, 3, 4]);
    assert_eq!(fold_sizes(11, 4), vec![2, 2, 2, 5]);
}

#[test]
fn fold_sizes_sum_to_rows() {
    for rows in 0..40usize {
        for folds in 1..8usize {
            assert_eq!(fold_sizes(rows, folds).iter().sum::<usize>(), rows);
        }
    }
}

#[test]
fn single_fold_holds_everything() {
    assert_eq!(fold_sizes(5, 1), vec![5]);
    let (train, test) = fold_split(5, 1, 0);
    assert!(train.is_empty());
    assert_eq!(test, vec![0, 1, 2, 3, 4]);
}

#[test]
fn split_middle_fold() {
    let (train, test) = fold_split(10, 3, 1);
    assert_eq!(test, vec![3, 4, 5]);
    assert_eq!(train, vec![0, 1, 2, 6, 7, 8, 9]);
}

#[test]
fn split_last_fold_takes_remainder() {
    let (train, test) = fold_split(10, 3, 2);
    assert_eq!(test, vec![6, 7, 8, 9]);
    assert_eq!(train, vec![0, 1, 2, 3, 4, 5]);
}

#[test]
fn splits_are_disjoint_and_cover() {
    for rows in 0..25usize {
        for folds in 1..6usize {
            for k in 0..folds {
                let (train, test) = fold_split(rows, folds, k);
                assert_eq!(train.len() + test.len(), rows);
                for r in &test {
                    assert!(!train.contains(r));
                }
                let mut all: Vec<usize> = train.iter().chain(test.iter()).cloned().collect();
                all.sort();
                assert_eq!(all, (0..rows).collect::<Vec<usize>>());
            }
        }
    }
}
