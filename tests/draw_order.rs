use sketchbook::{draw_order_of, PrimitiveStore};

#[test]
fn descending_depths_are_drawn_in_reverse() {
    assert_eq!(draw_order_of(&vec![2, 1, 0]), vec![2, 1, 0]);
}

#[test]
fn equal_depths_keep_insertion_order() {
    assert_eq!(draw_order_of(&vec![0, 0]), vec![0, 1]);
    assert_eq!(draw_order_of(&vec![5, 5, 5, 5]), vec![0, 1, 2, 3]);
}

#[test]
fn mixed_depths_sort_stably() {
    assert_eq!(draw_order_of(&vec![1, 0, 1, 0]), vec![1, 3, 0, 2]);
    assert_eq!(draw_order_of(&vec![-3, 7, i32::MIN, i32::MAX, 0]), vec![2, 0, 4, 1, 3]);
}

#[test]
fn no_depths_give_an_empty_order() {
    assert_eq!(draw_order_of(&vec![]), Vec::<usize>::new());
}

#[test]
fn store_insertions_return_consecutive_handles() {
    let mut store: PrimitiveStore<&str> = PrimitiveStore::new();
    assert_eq!(store.len(), 0);
    assert_eq!(store.add("a", 2), 0);
    assert_eq!(store.add("b", 1), 1);
    assert_eq!(store.add("c", 0), 2);
    assert_eq!(store.len(), 3);
    assert_eq!(*store.get(1), "b");
    assert_eq!(store.z_index(0), 2);
}

#[test]
fn store_draw_order_after_descending_insertions() {
    let mut store: PrimitiveStore<char> = PrimitiveStore::new();
    let z2 = store.add('x', 2);
    let z1 = store.add('y', 1);
    let z0 = store.add('z', 0);
    assert_eq!(store.draw_order(), &vec![z0, z1, z2]);
}

#[test]
fn store_draw_order_keeps_equal_depths_in_insertion_order() {
    let mut store: PrimitiveStore<u32> = PrimitiveStore::new();
    let first = store.add(10, 4);
    let deeper = store.add(11, -1);
    let second = store.add(12, 4);
    assert_eq!(store.draw_order(), &vec![deeper, first, second]);
}

#[test]
fn store_order_matches_a_fresh_computation() {
    let depths = vec![0, 1, 2, 1, 2, 0, -4];
    let mut store: PrimitiveStore<usize> = PrimitiveStore::new();
    for (i, z) in depths.iter().enumerate() {
        store.add(i, *z);
    }
    assert_eq!(store.draw_order(), &draw_order_of(&depths));
    assert_eq!(store.draw_order(), &vec![6, 0, 5, 1, 3, 2, 4]);
}

#[test]
fn get_mut_changes_only_the_item() {
    let mut store: PrimitiveStore<(i32, i32)> = PrimitiveStore::new();
    let a = store.add((100, 100), 2);
    let b = store.add((0, 0), 1);
    store.get_mut(a).0 = 42;
    assert_eq!(*store.get(a), (42, 100));
    assert_eq!(*store.get(b), (0, 0));
    assert_eq!(store.z_index(a), 2);
    assert_eq!(store.draw_order(), &vec![b, a]);
}
