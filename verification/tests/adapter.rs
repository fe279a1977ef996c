use napje::Items;
use napje::PinIter;
use napje::PinRef;

#[test]
fn pin_ref_wraps_without_altering_value() {
    let x: u64 = 42;
    let h = PinRef::new(&x);
    assert_eq!(*h.get_ref(), 42);
    let h2 = PinRef::new_unchecked(&x);
    assert_eq!(*h2.get_ref(), 42);
}

#[test]
fn adapter_preserves_order_and_count() {
    let v: Vec<u64> = vec![10, 20, 30];
    let mut it = PinIter::new(v.items());
    let mut got: Vec<u64> = Vec::new();
    while let Some(h) = it.next() {
        got.push(*h.get_ref());
    }
    assert_eq!(got, vec![10, 20, 30]);
}

#[test]
fn adapter_exhaustion_is_permanent() {
    let v: Vec<u64> = vec![1];
    let mut it = PinIter::new_unchecked(v.items());
    assert!(it.next().is_some());
    assert!(it.next().is_none());
    assert!(it.next().is_none());
}

#[test]
fn adapter_over_empty_source() {
    let v: Vec<u64> = Vec::new();
    let mut it = PinIter::new(v.items());
    assert!(it.next().is_none());
}

#[test]
fn adapter_handles_point_at_source_elements() {
    let v: Vec<String> = vec![String::from("left"), String::from("right")];
    let mut it = PinIter::new(v.items());
    let first = it.next().unwrap();
    let second = it.next().unwrap();
    assert_eq!(first.get_ref(), "left");
    assert_eq!(second.get_ref(), "right");
    assert!(std::ptr::eq(first.get_ref(), &v[0]));
    assert!(std::ptr::eq(second.get_ref(), &v[1]));
}
