use flac_adapter::OutputAccumulator;

#[test]
fn new_accumulator_is_empty() {
    let acc = OutputAccumulator::new();
    assert_eq!(acc.len(), 0);
    assert_eq!(acc.snapshot(), Vec::<u8>::new());
}

#[test]
fn append_concatenates_in_call_order() {
    let mut acc = OutputAccumulator::new();
    acc.append(&[1, 2]);
    acc.append(&[]);
    acc.append(&[3]);
    assert_eq!(acc.len(), 3);
    assert_eq!(acc.snapshot(), vec![1, 2, 3]);
    assert_eq!(acc.byte_at(0), 1);
    assert_eq!(acc.byte_at(2), 3);
}

#[test]
fn clear_removes_all_bytes() {
    let mut acc = OutputAccumulator::new();
    acc.append(&[9, 8, 7]);
    acc.clear();
    assert_eq!(acc.len(), 0);
    assert_eq!(acc.snapshot(), Vec::<u8>::new());
}

#[test]
fn snapshot_does_not_mutate() {
    let mut acc = OutputAccumulator::new();
    acc.append(&[4, 5]);
    let first = acc.snapshot();
    let second = acc.snapshot();
    assert_eq!(first, second);
    assert_eq!(acc.len(), 2);
    assert_eq!(first, vec![4, 5]);
}
