use ic_kit::ic::IcContext;
use ic_kit::memory::copy_range;
use ic_kit::storage::{maybe_with, maybe_with_mut, swap, take, with, with_mut, Storage};

#[derive(Default, Debug, PartialEq)]
struct Counter {
    count: u64,
    label: String,
}

#[test]
fn with_inserts_the_default() {
    let mut storage: Storage<Counter> = Storage::new();
    assert!(!storage.is_set());
    let count = with(&mut storage, |counter: &Counter| counter.count);
    assert_eq!(count, 0);
    assert!(storage.is_set());
    assert_eq!(take(&mut storage), Some(Counter::default()));
}

#[test]
fn with_reads_what_is_held() {
    let mut storage = Storage::new();
    swap(&mut storage, Counter { count: 3, label: "three".to_string() });
    let label = with(&mut storage, |counter: &Counter| counter.label.clone());
    assert_eq!(label, "three");
    assert_eq!(with(&mut storage, |counter: &Counter| counter.count), 3);
}

#[test]
fn maybe_with_inserts_nothing() {
    let mut storage: Storage<Counter> = Storage::new();
    assert_eq!(maybe_with(&storage, |counter: &Counter| counter.count), None);
    assert!(!storage.is_set());
    swap(&mut storage, Counter { count: 8, label: String::new() });
    assert_eq!(maybe_with(&storage, |counter: &Counter| counter.count), Some(8));
}

#[test]
fn with_mut_keeps_what_the_callback_wrote() {
    let mut storage: Storage<Counter> = Storage::new();
    let before = with_mut(&mut storage, |counter: &mut Counter| {
        let before = counter.count;
        counter.count += 5;
        before
    });
    assert_eq!(before, 0);
    let before = with_mut(&mut storage, |counter: &mut Counter| {
        let before = counter.count;
        counter.count += 5;
        before
    });
    assert_eq!(before, 5);
    assert_eq!(maybe_with(&storage, |counter: &Counter| counter.count), Some(10));
}

#[test]
fn maybe_with_mut_inserts_nothing() {
    let mut storage: Storage<Counter> = Storage::new();
    assert_eq!(maybe_with_mut(&mut storage, |counter: &mut Counter| counter.count += 1), None);
    assert!(!storage.is_set());
    swap(&mut storage, Counter { count: 1, label: String::new() });
    assert_eq!(
        maybe_with_mut(&mut storage, |counter: &mut Counter| {
            counter.count *= 7;
            counter.count
        }),
        Some(7)
    );
    assert_eq!(take(&mut storage).map(|counter| counter.count), Some(7));
}

#[test]
fn take_empties_the_place() {
    let mut storage: Storage<u32> = Storage::new();
    assert_eq!(take(&mut storage), None);
    swap(&mut storage, 4);
    assert_eq!(take(&mut storage), Some(4));
    assert_eq!(take(&mut storage), None);
    assert!(!storage.is_set());
}

#[test]
fn swap_returns_the_old_value() {
    let mut storage: Storage<u32> = Storage::new();
    assert_eq!(swap(&mut storage, 1), None);
    assert_eq!(swap(&mut storage, 2), Some(1));
    assert_eq!(swap(&mut storage, 3), Some(2));
    assert_eq!(take(&mut storage), Some(3));
}

#[test]
fn storage_get_mut_and_clear() {
    let mut storage: Storage<u32> = Storage::new();
    *storage.get_mut() += 6;
    assert_eq!(*storage.get_mut(), 6);
    assert!(storage.clear());
    assert!(!storage.clear());
}

#[test]
fn context_hands_out_its_state() {
    let mut context: IcContext<Counter> = IcContext::new();
    assert!(!context.delete());
    context.get_mut().count = 12;
    context.get_mut().label.push_str("dozen");
    assert_eq!(*context.get_mut(), Counter { count: 12, label: "dozen".to_string() });
    assert!(context.delete());
    assert!(!context.delete());
    assert_eq!(*context.get_mut(), Counter::default());
}

#[test]
fn copy_range_is_bounded() {
    let data = [10u8, 20, 30, 40];
    assert_eq!(copy_range(0, 4, &data), Ok(vec![10, 20, 30, 40]));
    assert_eq!(copy_range(1, 2, &data), Ok(vec![20, 30]));
    assert_eq!(copy_range(4, 0, &data), Ok(vec![]));
    assert_eq!(copy_range(0, 0, &[]), Ok(vec![]));
    let out_of_bounds = Err("Out of bound read.".to_string());
    assert_eq!(copy_range(0, 5, &data), out_of_bounds);
    assert_eq!(copy_range(4, 1, &data), out_of_bounds);
    assert_eq!(copy_range(5, 0, &data), out_of_bounds);
    assert_eq!(copy_range(-1, 2, &data), out_of_bounds);
    assert_eq!(copy_range(2, -2, &data), out_of_bounds);
    assert_eq!(copy_range(isize::MAX, 1, &data), out_of_bounds);
    assert_eq!(copy_range(1, isize::MAX, &data), out_of_bounds);
    assert_eq!(copy_range(isize::MIN, isize::MIN, &data), out_of_bounds);
    assert_eq!(copy_range(0, 1, &[]), out_of_bounds);
}
