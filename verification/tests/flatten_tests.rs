use iso_catalog::flatten::flatten_lists;
use iso_catalog::flatten::flatten_opt_lists;
use iso_catalog::flatten::flatten_opt_lists_depth2;
use iso_catalog::flatten::flatten_options;

#[test]
fn depth_one_discards_absent_and_empty_units() {
    let units: Vec<Option<Vec<u64>>> = vec![Some(vec![1, 2]), None, Some(vec![])];
    assert_eq!(flatten_opt_lists(units), vec![1, 2]);
}

#[test]
fn depth_one_preserves_unit_and_intra_unit_order() {
    let units: Vec<Option<Vec<u64>>> = vec![Some(vec![3, 1]), Some(vec![2]), None, Some(vec![9, 8])];
    assert_eq!(flatten_opt_lists(units), vec![3, 1, 2, 9, 8]);
}

#[test]
fn flatten_options_keeps_present_values_in_order() {
    let units: Vec<Option<u64>> = vec![None, Some(4), Some(7), None, Some(1)];
    assert_eq!(flatten_options(units), vec![4, 7, 1]);
}

#[test]
fn flatten_lists_concatenates_in_order() {
    let units: Vec<Vec<u64>> = vec![vec![1], vec![], vec![2, 3]];
    assert_eq!(flatten_lists(units), vec![1, 2, 3]);
}

#[test]
fn depth_two_collapses_both_levels() {
    let units: Vec<Option<Vec<Option<Vec<u64>>>>> = vec![
        Some(vec![Some(vec![1]), None, Some(vec![2, 3])]),
        None,
        Some(vec![Some(vec![])]),
        Some(vec![None, Some(vec![4])]),
    ];
    assert_eq!(flatten_opt_lists_depth2(units), vec![1, 2, 3, 4]);
}

#[test]
fn flatten_of_no_units_is_empty() {
    let units: Vec<Option<Vec<u64>>> = vec![];
    assert_eq!(flatten_opt_lists(units), Vec::<u64>::new());
}
