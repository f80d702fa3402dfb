use ec_demo::scroll::ScrollState;

fn state(viewport: u16, content: usize) -> ScrollState {
    let mut s = ScrollState::default();
    s.resize(viewport);
    s.extend(content);
    s
}

/// A state whose position shows the newest content.
fn tail(viewport: u16, content: usize) -> ScrollState {
    let mut s = ScrollState::default();
    s.resize(viewport);
    s.follow(content);
    s
}

fn in_range(s: &ScrollState) -> bool {
    let range = s
        .content_extent()
        .saturating_sub(s.viewport_extent() as usize);
    s.max_offset() == range && s.position() <= range
}

#[test]
fn starts_at_the_top_of_nothing() {
    let s = ScrollState::default();
    assert_eq!(s.position(), 0);
    assert_eq!(s.viewport_extent(), u16::MAX);
    assert_eq!(s.content_extent(), 0);
    assert_eq!(s.max_offset(), 0);
}

#[test]
fn position_follows_the_tail_once_content_outgrows_the_viewport() {
    let mut s = ScrollState::default();
    s.resize(10);
    for content in 1..=10 {
        s.follow(content);
        assert_eq!(s.position(), 0);
    }
    for content in 11..=40 {
        s.follow(content);
        assert_eq!(s.position(), content - 10);
    }
}

#[test]
fn position_at_the_tail_moves_to_the_new_tail() {
    let mut s = tail(10, 25);
    assert_eq!(s.position(), 15);
    s.follow(32);
    assert_eq!(s.position(), 22);
    assert_eq!(s.content_extent(), 32);
}

#[test]
fn position_short_of_the_tail_stays() {
    let mut s = tail(10, 25);
    s.scroll_back();
    s.scroll_back();
    assert_eq!(s.position(), 13);
    s.follow(32);
    assert_eq!(s.position(), 13);
    s.follow(33);
    assert_eq!(s.position(), 13);
    assert_eq!(s.max_offset(), 23);
}

#[test]
fn position_short_of_the_tail_stays_where_lines_leave_for_the_new() {
    // A full history takes a line and drops a line: the content stays as
    // long as it was.
    let mut s = tail(10, 1000);
    s.scroll_back();
    assert_eq!(s.position(), 989);
    s.follow(1000);
    assert_eq!(s.position(), 989);
    assert_eq!(s.max_offset(), 990);
}

#[test]
fn position_at_the_tail_moves_on_where_fewer_lines_stay_than_came() {
    // Four lines come in and two leave for them.
    let mut s = tail(10, 998);
    assert_eq!(s.position(), 988);
    s.follow(1000);
    assert_eq!(s.position(), 990);
    s.follow(1000);
    assert_eq!(s.position(), 990);
}

#[test]
fn position_at_the_tail_follows_content_that_shrinks() {
    let mut s = tail(10, 30);
    s.follow(12);
    assert_eq!(s.position(), 2);
    s.follow(4);
    assert_eq!(s.position(), 0);
    s.follow(40);
    assert_eq!(s.position(), 30);
}

#[test]
fn steps_stop_at_either_end() {
    let mut s = state(10, 12);
    s.scroll_back();
    assert_eq!(s.position(), 0);
    s.scroll_forward();
    assert_eq!(s.position(), 1);
    s.scroll_forward();
    assert_eq!(s.position(), 2);
    s.scroll_forward();
    assert_eq!(s.position(), 2);
    s.scroll_back();
    assert_eq!(s.position(), 1);
}

#[test]
fn steps_do_nothing_where_the_content_fits() {
    let mut s = state(10, 10);
    s.scroll_forward();
    assert_eq!(s.position(), 0);
    s.scroll_back();
    assert_eq!(s.position(), 0);
    let mut s = state(10, 3);
    s.scroll_forward();
    assert_eq!(s.position(), 0);
}

#[test]
fn larger_viewport_pulls_the_position_back() {
    let mut s = tail(10, 30);
    assert_eq!(s.position(), 20);
    s.resize(25);
    assert_eq!(s.position(), 5);
    assert_eq!(s.max_offset(), 5);
    s.resize(40);
    assert_eq!(s.position(), 0);
    s.resize(10);
    assert_eq!(s.position(), 0);
    assert_eq!(s.max_offset(), 20);
}

#[test]
fn extend_leaves_the_position() {
    let mut s = state(10, 30);
    s.scroll_forward();
    s.extend(50);
    assert_eq!(s.position(), 1);
    assert_eq!(s.content_extent(), 50);
    s.extend(5);
    assert_eq!(s.position(), 0);
}

#[test]
fn position_is_in_range_after_every_operation() {
    let mut s = ScrollState::default();
    let mut seed: u32 = 12345;
    for _ in 0..5000 {
        seed = seed.wrapping_mul(1664525).wrapping_add(1013904223);
        let pick = (seed >> 16) % 5;
        let n = ((seed >> 8) % 60) as usize;
        match pick {
            0 => s.scroll_back(),
            1 => s.scroll_forward(),
            2 => s.resize(n as u16),
            3 => s.extend(n),
            _ => s.follow(n),
        }
        assert!(in_range(&s));
    }
}
