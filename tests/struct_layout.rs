use eva::struct_layout::{Field, StructLayout};

#[test]
fn empty_layout_has_size_zero() {
    let l = StructLayout::new();
    assert_eq!(l.size(), 0);
    assert!(!l.store_indirect());
    assert_eq!(l.get("x"), None);
}

#[test]
fn size_is_the_largest_field_end() {
    let mut l = StructLayout::new();
    l.push("a".to_string(), 0, 8);
    l.push("b".to_string(), 8, 4);
    l.push("c".to_string(), 4, 2);
    assert_eq!(l.size(), 12);
    assert!(!l.store_indirect());
    l.push("d".to_string(), 12, 5);
    assert_eq!(l.size(), 17);
    assert!(l.store_indirect());
    assert_eq!(l.get("b"), Some(Field { start_offs: 8, size: 4 }));
    assert_eq!(l.get("d").unwrap().endpoint(), 17);
}

#[test]
fn pushing_a_name_again_replaces_its_field() {
    let mut l = StructLayout::new();
    l.push("a".to_string(), 0, 32);
    l.push("b".to_string(), 0, 4);
    assert!(l.store_indirect());
    l.push("a".to_string(), 4, 4);
    assert_eq!(l.get("a"), Some(Field { start_offs: 4, size: 4 }));
    assert_eq!(l.size(), 8);
    assert!(!l.store_indirect());
}
