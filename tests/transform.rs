use sketchbook::TransformPair;

#[test]
fn transform_with_inverse_replaces_both() {
    let mut pair = TransformPair::new(1i64, 1i64);
    assert!(pair.set_transform(4, Some(-4)));
    assert_eq!(*pair.get_transform(), 4);
    assert_eq!(*pair.get_inverse(), -4);
}

#[test]
fn singular_transform_leaves_pair_unchanged() {
    let mut pair = TransformPair::new(2i64, -2i64);
    assert!(!pair.set_transform(0, None));
    assert_eq!(*pair.get_transform(), 2);
    assert_eq!(*pair.get_inverse(), -2);
}
