use vec_cursor::{Cursor, CursorMut};

#[test]
fn ghost_then_next_lands_on_front_and_insert_after_keeps_current() {
    let mut v = vec![1, 2, 3];
    {
        let mut c = CursorMut::new(&mut v, 3);
        assert_eq!(c.index(), None);
        c.move_next();
        assert_eq!(c.current().map(|r| *r), Some(1));
        c.insert_after(9);
        assert_eq!(c.current().map(|r| *r), Some(1));
        assert_eq!(c.index(), Some(0));
    }
    assert_eq!(v, vec![1, 9, 2, 3]);
}

#[test]
fn three_steps_back_from_last_visit_middle_front_ghost() {
    let v = vec![1, 2, 3];
    let mut c = Cursor::new(&v, 2);
    assert_eq!(c.current(), Some(&3));
    c.move_prev();
    assert_eq!(c.index(), Some(1));
    assert_eq!(c.current(), Some(&2));
    c.move_prev();
    assert_eq!(c.index(), Some(0));
    assert_eq!(c.current(), Some(&1));
    c.move_prev();
    assert_eq!(c.index(), None);
    assert_eq!(c.current(), None);
}

#[test]
fn three_steps_back_from_last_on_write_cursor() {
    let mut v = vec![1, 2, 3];
    let mut c = CursorMut::new(&mut v, 2);
    c.move_prev();
    assert_eq!(c.index(), Some(1));
    c.move_prev();
    assert_eq!(c.index(), Some(0));
    c.move_prev();
    assert_eq!(c.index(), None);
    assert_eq!(c.index, 3);
}

#[test]
fn empty_sequence_stays_at_ghost() {
    let v: Vec<i32> = Vec::new();
    let mut c = Cursor::new(&v, 0);
    c.move_prev();
    assert_eq!(c.index(), None);
    assert_eq!(c.peek_next(), None);
    assert_eq!(c.peek_prev(), None);
    assert_eq!(c.current(), None);
    c.move_next();
    assert_eq!(c.index(), None);
    assert_eq!(c.current(), None);
}

#[test]
fn empty_sequence_stays_at_ghost_on_write_cursor() {
    let mut v: Vec<i32> = Vec::new();
    let mut c = CursorMut::new(&mut v, 0);
    c.move_prev();
    assert_eq!(c.index, 0);
    assert_eq!(c.index(), None);
    assert!(c.peek_next().is_none());
    assert!(c.peek_prev().is_none());
    assert!(c.current().is_none());
    c.move_next();
    assert_eq!(c.index, 0);
}

#[test]
fn forward_circle_has_length_plus_one_steps() {
    let v = vec![10, 20, 30];
    let mut c = Cursor::new(&v, 3);
    let mut seen = Vec::new();
    for _ in 0..4 {
        c.move_next();
        seen.push(c.index());
    }
    assert_eq!(seen, vec![Some(0), Some(1), Some(2), None]);
}

#[test]
fn backward_circle_has_length_plus_one_steps() {
    let v = vec![10, 20, 30];
    let mut c = Cursor::new(&v, 3);
    let mut seen = Vec::new();
    for _ in 0..4 {
        c.move_prev();
        seen.push(c.index());
    }
    assert_eq!(seen, vec![Some(2), Some(1), Some(0), None]);
}

#[test]
fn write_cursor_circles_both_ways() {
    let mut v = vec![10, 20];
    let mut c = CursorMut::new(&mut v, 2);
    let mut raw = Vec::new();
    for _ in 0..3 {
        c.move_next();
        raw.push(c.index);
    }
    assert_eq!(raw, vec![0, 1, 2]);
    raw.clear();
    for _ in 0..3 {
        c.move_prev();
        raw.push(c.index);
    }
    assert_eq!(raw, vec![1, 0, 2]);
}

#[test]
fn index_bounds_are_kept_by_every_step() {
    let v = vec![1, 2, 3, 4];
    for start in 0..=4 {
        let mut c = Cursor::new(&v, start);
        for _ in 0..11 {
            c.move_next();
            assert!(c.index().map_or(true, |i| i < 4));
        }
        for _ in 0..11 {
            c.move_prev();
            assert!(c.index().map_or(true, |i| i < 4));
        }
    }
}

#[test]
fn index_is_given_for_valid_positions_only() {
    let v = vec![7, 8];
    assert_eq!(Cursor::new(&v, 0).index(), Some(0));
    assert_eq!(Cursor::new(&v, 1).index(), Some(1));
    assert_eq!(Cursor::new(&v, 2).index(), None);
}

#[test]
fn peek_next_looks_one_step_forward() {
    let v = vec![7, 8, 9];
    assert_eq!(Cursor::new(&v, 0).peek_next(), Some(&8));
    assert_eq!(Cursor::new(&v, 1).peek_next(), Some(&9));
    assert_eq!(Cursor::new(&v, 2).peek_next(), None);
    assert_eq!(Cursor::new(&v, 3).peek_next(), Some(&7));
}

#[test]
fn peek_prev_looks_one_step_backward() {
    let v = vec![7, 8, 9];
    assert_eq!(Cursor::new(&v, 0).peek_prev(), None);
    assert_eq!(Cursor::new(&v, 1).peek_prev(), Some(&7));
    assert_eq!(Cursor::new(&v, 2).peek_prev(), Some(&8));
    assert_eq!(Cursor::new(&v, 3).peek_prev(), Some(&9));
}

#[test]
fn peek_prev_leaves_the_cursor_alone() {
    let v = vec![7, 8, 9];
    let mut c = Cursor::new(&v, 2);
    assert_eq!(c.peek_prev(), Some(&8));
    assert_eq!(c.index(), Some(2));
    assert_eq!(c.current(), Some(&9));
}

#[test]
fn write_cursor_peeks_match_read_cursor_peeks() {
    let mut v = vec![7, 8, 9];
    for start in 0..=3 {
        let expected_next = Cursor::new(&v, start).peek_next().copied();
        let expected_prev = Cursor::new(&v, start).peek_prev().copied();
        let mut c = CursorMut::new(&mut v, start);
        assert_eq!(c.peek_next().map(|r| *r), expected_next);
        assert_eq!(c.peek_prev().map(|r| *r), expected_prev);
        assert_eq!(c.index, start);
    }
}

#[test]
fn writes_through_current_and_peeks_reach_the_vector() {
    let mut v = vec![1, 2, 3];
    {
        let mut c = CursorMut::new(&mut v, 1);
        *c.current().unwrap() = 20;
        *c.peek_next().unwrap() = 30;
        *c.peek_prev().unwrap() = 10;
        assert_eq!(c.index(), Some(1));
    }
    assert_eq!(v, vec![10, 20, 30]);
}

#[test]
fn as_cursor_is_a_snapshot_of_the_position() {
    let mut v = vec![1, 2, 3];
    let mut c = CursorMut::new(&mut v, 1);
    {
        let mut r = c.as_cursor();
        assert_eq!(r.index(), Some(1));
        assert_eq!(r.current(), Some(&2));
        r.move_next();
        assert_eq!(r.current(), Some(&3));
    }
    assert_eq!(c.index(), Some(1));
    c.move_next();
    assert_eq!(c.as_cursor().index(), Some(2));
    c.move_next();
    assert_eq!(c.as_cursor().index(), None);
}

#[test]
fn debug_output_shows_elements_and_position() {
    let mut v = vec![4, 5, 6];
    let shown = format!("{:?}", Cursor::new(&v, 1));
    assert!(shown.contains("[4, 5, 6]"));
    assert!(shown.contains('1'));
    let shown = format!("{:?}", CursorMut::new(&mut v, 2));
    assert!(shown.contains("[4, 5, 6]"));
    assert!(shown.contains('2'));
}
