//! Tests of the outlier-trimming sample aggregator.

use plant_care::aggregate::calculate_average;

#[test]
fn too_few_samples_yield_nothing() {
    assert_eq!(calculate_average(&vec![]), None);
    assert_eq!(calculate_average(&vec![17]), None);
    assert_eq!(calculate_average(&vec![17, 40000]), None);
}

#[test]
fn three_samples_keep_only_the_middle_one() {
    assert_eq!(calculate_average(&vec![3, 1, 2]), Some(2));
    assert_eq!(calculate_average(&vec![1000, 1005, 4000]), Some(1005));
}

#[test]
fn average_truncates_instead_of_rounding() {
    // After trimming 1 and 100, the mean of [2, 3, 4] is 9 / 3 = 3.
    assert_eq!(calculate_average(&vec![1, 2, 3, 4, 100]), Some(3));
    // After trimming, the mean of [5, 6] is 11 / 2 = 5 (truncating).
    assert_eq!(calculate_average(&vec![0, 5, 6, 200]), Some(5));
}

#[test]
fn duplicates_of_the_extremes_are_trimmed_once_each() {
    // One instance of the minimum and one of the maximum go; the remaining
    // [5, 5] average to 5.
    assert_eq!(calculate_average(&vec![5, 5, 5, 5]), Some(5));
    assert_eq!(calculate_average(&vec![1, 1, 9, 9]), Some(5));
}

#[test]
fn matches_sort_and_trim_reference() {
    // The aggregate must equal sorting, dropping the first and the last
    // element, and averaging the rest, bit for bit.
    let sets: Vec<Vec<u16>> = vec![
        vec![1000, 1005, 1010, 8000, 1008],
        vec![65535, 65535, 65535],
        vec![0, 0, 0, 0, 65535],
        vec![7, 3, 9, 3, 7, 5, 1],
    ];
    for set in sets {
        let mut sorted = set.clone();
        sorted.sort_unstable();
        let trimmed = &sorted[1..sorted.len() - 1];
        let expected = (trimmed.iter().map(|&v| v as u32).sum::<u32>() / trimmed.len() as u32) as u16;
        assert_eq!(calculate_average(&set), Some(expected));
    }
}
