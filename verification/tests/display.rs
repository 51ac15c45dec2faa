use keyscreen::buffer::DisplayBuffer;

fn shown(b: &DisplayBuffer) -> String {
    b.chars().iter().collect()
}

#[test]
fn append_keeps_order_within_capacity() {
    let mut b = DisplayBuffer::new(10);
    b.append(&vec!['F', '1']);
    b.append(&vec!['a']);
    assert_eq!(shown(&b), "F1a");
    assert_eq!(b.len(), 3);
}

#[test]
fn eviction_removes_exactly_the_overflow_from_the_front() {
    let mut b = DisplayBuffer::new(5);
    b.append(&vec!['a', 'b', 'c', 'd', 'e']);
    assert_eq!(shown(&b), "abcde");
    b.append(&vec!['F', '1']);
    assert_eq!(shown(&b), "cdeF1");
    assert_eq!(b.len(), 5);
}

#[test]
fn multi_scalar_glyph_can_be_partially_evicted() {
    let mut b = DisplayBuffer::new(2);
    b.append(&vec!['x']);
    b.append(&vec!['F', '1', '0']);
    // only the trailing scalars of the glyph survive
    assert_eq!(shown(&b), "10");
}

#[test]
fn glyph_longer_than_capacity_leaves_its_tail() {
    let mut b = DisplayBuffer::new(3);
    b.append(&vec!['a', 'b']);
    b.append(&vec!['v', 'w', 'x', 'y', 'z']);
    assert_eq!(shown(&b), "xyz");
}

#[test]
fn length_never_exceeds_capacity() {
    let mut b = DisplayBuffer::new(4);
    for chunk in [vec!['a'], vec!['b', 'c'], vec!['d', 'e', 'f'], vec!['g', 'h', 'i', 'j', 'k']] {
        b.append(&chunk);
        assert!(b.len() <= 4);
    }
    assert_eq!(shown(&b), "hijk");
}

#[test]
fn empty_glyph_changes_nothing() {
    let mut b = DisplayBuffer::new(3);
    b.append(&vec!['a']);
    b.append(&vec![]);
    assert_eq!(shown(&b), "a");
}
