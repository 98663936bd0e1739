use concmd::{Bounds, ListCursor, TextField};

#[test]
fn next_wraps_around_after_length_steps() {
    let len: usize = 4;
    for start in 0..len {
        let mut c = ListCursor::new();
        c.select(Some(start));
        for _ in 0..len {
            c.next(len);
        }
        assert_eq!(c.selected(), Some(start));
    }
}

#[test]
fn previous_then_next_and_boundaries() {
    let len: usize = 3;
    let mut c = ListCursor::new();
    c.select(Some(1));
    c.previous(len);
    assert_eq!(c.selected(), Some(0));
    c.next(len);
    assert_eq!(c.selected(), Some(1));
    c.select(Some(0));
    c.previous(len);
    assert_eq!(c.selected(), Some(2));
    c.select(Some(2));
    c.next(len);
    assert_eq!(c.selected(), Some(0));
}

#[test]
fn cursor_from_nothing_and_on_empty_list() {
    let mut c = ListCursor::new();
    c.next(5);
    assert_eq!(c.selected(), Some(0));
    let mut d = ListCursor::new();
    d.previous(5);
    assert_eq!(d.selected(), Some(4));
    let mut e = ListCursor::new();
    e.next(0);
    e.previous(0);
    assert_eq!(e.selected(), None);
}

#[test]
fn mouse_select_rows_and_misses() {
    let b = Bounds::of_area(10, 2, 20);
    assert_eq!(b.right, 30);
    let mut c = ListCursor::new();
    c.mouse_select(&b, 5, 15, 3);
    assert_eq!(c.selected(), Some(0));
    c.mouse_select(&b, 5, 15, 7);
    assert_eq!(c.selected(), Some(4));
    c.mouse_select(&b, 5, 15, 8);
    assert_eq!(c.selected(), None);
    c.mouse_select(&b, 5, 15, 4);
    c.mouse_select(&b, 5, 10, 4);
    assert_eq!(c.selected(), None);
    c.set_offset(2);
    c.mouse_select(&b, 5, 15, 3);
    assert_eq!(c.selected(), Some(2));
    c.mouse_select(&b, 5, 15, 6);
    assert_eq!(c.selected(), None);
    let edge = Bounds::of_area(65530, 0, 20);
    assert_eq!(edge.right, u16::MAX);
}

#[test]
fn type_then_backspace_restores() {
    let mut f = TextField::with_text("hello");
    f.cursor_left();
    f.cursor_left();
    f.type_char('x');
    assert_eq!(f.text(), "helxlo");
    assert_eq!(f.offset(), 2);
    f.backspace();
    assert_eq!(f.text(), "hello");
    assert_eq!(f.offset(), 2);
}

#[test]
fn backspace_at_start_does_nothing() {
    let mut f = TextField::with_text("ab");
    f.cursor_left();
    f.cursor_left();
    f.backspace();
    assert_eq!(f.text(), "ab");
    let mut g = TextField::new();
    g.backspace();
    assert_eq!(g.text(), "");
}

#[test]
fn cursor_moves_are_clamped() {
    let mut f = TextField::with_text("abc");
    for _ in 0..10 {
        f.cursor_left();
    }
    assert_eq!(f.offset(), 3);
    for _ in 0..10 {
        f.cursor_right();
    }
    assert_eq!(f.offset(), 0);
    f.cursor_left();
    f.type_char('\u{e9}');
    assert_eq!(f.text(), "ab\u{e9}c");
}
