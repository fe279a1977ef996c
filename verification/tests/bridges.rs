use napje::bounded_push;
use napje::role::Items as ItemsRole;
use napje::Block;
use napje::Items;
use napje::ItemsMut;
use napje::ItemsPin;

fn pinned_vec(elems: Vec<String>) -> ItemsPin<ItemsRole, Vec<String>> {
    ItemsPin::<ItemsRole, Vec<String>>::pin(elems)
}

fn s(text: &str) -> String {
    String::from(text)
}

#[test]
fn bounded_push_succeeds_below_capacity() {
    let mut v: Vec<u64> = vec![1, 2];
    assert_eq!(bounded_push(&mut v, 4, 3), Ok(()));
    assert_eq!(v, vec![1, 2, 3]);
}

#[test]
fn bounded_push_fails_at_capacity_and_returns_value() {
    let mut v: Vec<u64> = vec![1, 2, 3];
    assert_eq!(bounded_push(&mut v, 3, 9), Err(9));
    assert_eq!(v, vec![1, 2, 3]);
}

#[test]
fn bounded_push_zero_capacity() {
    let mut v: Vec<u64> = Vec::new();
    assert_eq!(bounded_push(&mut v, 0, 5), Err(5));
    assert!(v.is_empty());
}

#[test]
fn growable_append_scenario() {
    // Growable storage with capacity 4 holding [A, B]: appends C and D
    // succeed, E is rejected and handed back intact.
    let mut v: Vec<String> = Vec::with_capacity(4);
    v.push(s("A"));
    v.push(s("B"));
    let mut p = pinned_vec(v);

    assert_eq!(p.push_pinned(s("C")), Ok(()));
    assert_eq!(p.as_slice(), &[s("A"), s("B"), s("C")]);

    assert_eq!(p.push_pinned(s("D")), Ok(()));
    assert_eq!(p.push_pinned(s("E")), Err(s("E")));
    assert_eq!(p.as_slice(), &[s("A"), s("B"), s("C"), s("D")]);
}

#[test]
fn pop_pinned_nonempty_then_empty() {
    let mut p = ItemsPin::<ItemsRole, Vec<u64>>::pin(vec![1, 2]);
    assert!(p.pop_pinned());
    assert_eq!(p.as_slice(), &[1]);
    assert!(p.pop_pinned());
    assert_eq!(p.as_slice(), &[] as &[u64]);
    assert!(!p.pop_pinned());
    assert_eq!(p.as_slice(), &[] as &[u64]);
}

#[test]
fn truncate_pinned_shortens() {
    let mut p = ItemsPin::<ItemsRole, Vec<u64>>::pin(vec![1, 2, 3]);
    p.truncate_pinned(1);
    assert_eq!(p.as_slice(), &[1]);
}

#[test]
fn truncate_pinned_beyond_length_is_noop() {
    let mut p = ItemsPin::<ItemsRole, Vec<u64>>::pin(vec![1, 2, 3]);
    p.truncate_pinned(10);
    assert_eq!(p.as_slice(), &[1, 2, 3]);
}

#[test]
fn slice_views_read_and_write() {
    let mut p = ItemsPin::<ItemsRole, Vec<u64>>::pin(vec![1, 2, 3]);
    assert_eq!(p.as_slice(), &[1, 2, 3]);
    p.as_mut_slice()[1] = 20;
    assert_eq!(p.as_slice(), &[1, 20, 3]);
}

#[test]
fn leak_keeps_contents() {
    let p = ItemsPin::<ItemsRole, Vec<u64>>::pin(vec![8, 9]);
    let b = p.leak();
    assert_eq!(b.get_ref().as_slice(), &[8, 9]);
}

#[test]
fn block_truncate_scenario() {
    // Fixed-length storage [A, B, C, D, E]: truncating to [1, 4) destroys A
    // and E and leaves the narrowed view [B, C, D].
    let elems = vec![s("A"), s("B"), s("C"), s("D"), s("E")];
    let p = ItemsPin::<ItemsRole, Block<String>>::pin(Block::new(elems));
    let narrowed = p.truncate(1..4);
    assert_eq!(narrowed.get_ref().as_slice(), &[s("B"), s("C"), s("D")]);
}

#[test]
fn block_truncate_full_range_keeps_everything() {
    let p = ItemsPin::<ItemsRole, Block<u64>>::pin(Block::new(vec![1, 2, 3]));
    let narrowed = p.truncate(0..3);
    assert_eq!(narrowed.get_ref().as_slice(), &[1, 2, 3]);
}

#[test]
fn block_truncate_empty_range_destroys_everything() {
    let p = ItemsPin::<ItemsRole, Block<u64>>::pin(Block::new(vec![1, 2, 3]));
    let narrowed = p.truncate(2..2);
    assert_eq!(narrowed.get_ref().len(), 0);
}

#[test]
fn block_drop_in_place_consumes() {
    let p = ItemsPin::<ItemsRole, Block<String>>::pin(Block::new(vec![s("x"), s("y")]));
    p.drop_in_place();
}

#[test]
fn block_iteration_and_mutation() {
    let mut b = Block::new(vec![4u64, 5, 6]);
    assert_eq!(b.len(), 3);
    let got: Vec<u64> = b.items().into_iter().copied().collect();
    assert_eq!(got, vec![4, 5, 6]);
    *b.item_mut(2) = 60;
    assert_eq!(b.as_slice(), &[4, 5, 60]);
}
