use klyx_extension_api::labels::{labels_for, LabeledResult};

#[test]
fn new_result_is_empty() {
    let result: LabeledResult<u8> = LabeledResult::new();
    assert_eq!(result.into_labels(), Vec::<Option<u8>>::new());
}

#[test]
fn absent_label_does_not_grow_the_result() {
    let mut result: LabeledResult<u8> = LabeledResult::new();
    result.record(0, None);
    result.record(1, None);
    result.record(7, None);
    assert_eq!(result.into_labels(), Vec::<Option<u8>>::new());
}

#[test]
fn present_label_fills_the_gap_with_absent() {
    let mut result: LabeledResult<&str> = LabeledResult::new();
    result.record(3, Some("d"));
    assert_eq!(result.into_labels(), vec![None, None, None, Some("d")]);
}

#[test]
fn labels_keep_their_positions() {
    let mut result: LabeledResult<u32> = LabeledResult::new();
    result.record(0, Some(10));
    result.record(1, None);
    result.record(2, None);
    result.record(3, Some(13));
    result.record(4, Some(14));
    result.record(5, None);
    assert_eq!(
        result.into_labels(),
        vec![Some(10), None, None, Some(13), Some(14)]
    );
}

#[test]
fn no_items_give_no_labels() {
    let labels: Vec<Option<u8>> = labels_for(Vec::<u8>::new(), |item: u8| Some(item));
    assert_eq!(labels, Vec::<Option<u8>>::new());
}

#[test]
fn no_label_at_all_gives_an_empty_result() {
    let labels: Vec<Option<u8>> = labels_for(vec![1u8, 2, 3, 4], |_item: u8| None);
    assert_eq!(labels, Vec::<Option<u8>>::new());
}

#[test]
fn result_ends_with_the_last_label() {
    let labels = labels_for(vec![1u32, 8, 3, 4, 5], |item: u32| {
        if item % 2 == 0 {
            Some(item * 10)
        } else {
            None
        }
    });
    assert_eq!(labels, vec![None, Some(80), None, Some(40)]);
}

#[test]
fn every_item_labeled_gives_a_full_result() {
    let labels = labels_for(vec!["a", "b", "c"], |item: &str| Some(item.len()));
    assert_eq!(labels, vec![Some(1), Some(1), Some(1)]);
}

#[test]
fn only_first_item_labeled_gives_one_entry() {
    let labels = labels_for(vec![0u8, 1, 2], |item: u8| {
        if item == 0 {
            Some('x')
        } else {
            None
        }
    });
    assert_eq!(labels, vec![Some('x')]);
}

#[test]
fn only_last_item_labeled_gives_full_length() {
    let labels = labels_for(vec![0u8, 1, 2], |item: u8| {
        if item == 2 {
            Some('z')
        } else {
            None
        }
    });
    assert_eq!(labels, vec![None, None, Some('z')]);
}

#[test]
fn sparse_result_matches_the_labeled_positions() {
    // For every subset of six positions: the length is one more than the
    // greatest labeled position (0 for the empty subset), and a position
    // holds a label exactly where it lies in the subset.
    for subset in 0u32..64 {
        let items: Vec<u32> = (0..6).collect();
        let labels = labels_for(items, |position: u32| {
            if subset & (1 << position) != 0 {
                Some(position)
            } else {
                None
            }
        });
        let expected_len = (32 - subset.leading_zeros()) as usize;
        assert_eq!(labels.len(), expected_len);
        for position in 0..6u32 {
            let present = labels
                .get(position as usize)
                .map_or(false, |label| label.is_some());
            assert_eq!(present, subset & (1 << position) != 0);
            if present {
                assert_eq!(labels[position as usize], Some(position));
            }
        }
    }
}

#[test]
fn each_item_is_asked_once_and_in_order() {
    let asked = std::cell::RefCell::new(Vec::new());
    let labels = labels_for(vec![5u8, 6, 7], |item: u8| {
        asked.borrow_mut().push(item);
        None::<u8>
    });
    assert_eq!(labels, Vec::<Option<u8>>::new());
    assert_eq!(asked.into_inner(), vec![5, 6, 7]);
}
