use ratanotes::nav::{after_removal, next, previous};

#[test]
fn next_cycles_back_after_n_steps() {
    let n = 4usize;
    for start in 0..n {
        let mut sel = Some(start);
        for _ in 0..n {
            sel = next(n, sel);
        }
        assert_eq!(sel, Some(start));
    }
}

#[test]
fn previous_cycles_back_after_n_steps() {
    let n = 3usize;
    for start in 0..n {
        let mut sel = Some(start);
        for _ in 0..n {
            sel = previous(n, sel);
        }
        assert_eq!(sel, Some(start));
    }
}

#[test]
fn empty_list_is_noop() {
    assert_eq!(next(0, None), None);
    assert_eq!(previous(0, None), None);
}

#[test]
fn single_item_list_stays_at_zero() {
    assert_eq!(next(1, Some(0)), Some(0));
    assert_eq!(previous(1, Some(0)), Some(0));
    assert_eq!(next(1, None), Some(0));
    assert_eq!(previous(1, None), Some(0));
}

#[test]
fn previous_from_first_of_three_wraps_to_last() {
    assert_eq!(previous(3, Some(0)), Some(2));
}

#[test]
fn next_from_last_wraps_to_first() {
    assert_eq!(next(3, Some(2)), Some(0));
    assert_eq!(next(3, None), Some(1));
}

#[test]
fn removal_of_last_selects_new_last() {
    assert_eq!(after_removal(2, 2), Some(1));
}

#[test]
fn removal_of_only_item_clears_selection() {
    assert_eq!(after_removal(0, 0), None);
}

#[test]
fn removal_of_middle_item_keeps_index() {
    assert_eq!(after_removal(3, 1), Some(1));
}
