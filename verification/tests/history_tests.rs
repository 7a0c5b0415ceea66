use cleverbot::History;

#[test]
fn push_below_capacity_grows_and_keeps_order() {
    let mut h = History::new(3);
    h.push("a".to_string());
    h.push("b".to_string());
    assert_eq!(h.len(), 2);
    assert_eq!(h.snapshot(), vec!["a".to_string(), "b".to_string()]);
}

#[test]
fn push_at_capacity_drops_exactly_the_oldest() {
    let mut h = History::new(3);
    h.push("a".to_string());
    h.push("b".to_string());
    h.push("c".to_string());
    assert_eq!(h.len(), 3);
    h.push("d".to_string());
    assert_eq!(h.len(), 3);
    assert_eq!(h.snapshot(), vec!["b".to_string(), "c".to_string(), "d".to_string()]);
}

#[test]
fn capacity_one_keeps_only_the_newest() {
    let mut h = History::new(1);
    h.push("a".to_string());
    h.push("b".to_string());
    assert_eq!(h.snapshot(), vec!["b".to_string()]);
}

#[test]
fn clear_empties_but_keeps_capacity() {
    let mut h = History::new(2);
    h.push("a".to_string());
    h.push("b".to_string());
    h.clear();
    assert_eq!(h.len(), 0);
    assert_eq!(h.snapshot(), Vec::<String>::new());
    // Capacity still bounds the buffer after a clear.
    h.push("x".to_string());
    h.push("y".to_string());
    h.push("z".to_string());
    assert_eq!(h.snapshot(), vec!["y".to_string(), "z".to_string()]);
}
