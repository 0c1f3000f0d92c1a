use logview::pager::{content_height, pager_action, Pager, PagerAction, PagerOutcome};
use logview::selector::{reversed_entries, selector_action, Selector, SelectorAction, SelectorOutcome};
use logview::session::{OpenError, Session, SessionEvent, SessionState};
use logview::viewport::{clamp_offset, jump_bottom, jump_top, scroll_down, scroll_up};

#[test]
fn clamp_offset_values() {
    assert_eq!(clamp_offset(3, 4, 10), 0);
    assert_eq!(clamp_offset(3, 10, 10), 0);
    assert_eq!(clamp_offset(3, 20, 10), 3);
    assert_eq!(clamp_offset(15, 20, 10), 10);
    assert_eq!(clamp_offset(10, 20, 10), 10);
}

#[test]
fn clamp_offset_is_idempotent() {
    for total in 0..15usize {
        for height in 0..15usize {
            for offset in 0..20usize {
                let once = clamp_offset(offset, total, height);
                assert_eq!(clamp_offset(once, total, height), once);
            }
        }
    }
}

#[test]
fn scroll_values() {
    assert_eq!(scroll_down(0, 10, 5, 1), 1);
    assert_eq!(scroll_down(4, 10, 5, 1), 5);
    assert_eq!(scroll_down(5, 10, 5, 1), 5);
    assert_eq!(scroll_down(3, 10, 5, 5), 5);
    assert_eq!(scroll_down(0, 3, 5, 1), 0);
    assert_eq!(scroll_down(0, 100, 10, usize::MAX), 90);
    assert_eq!(scroll_up(0, 10, 5, 1), 0);
    assert_eq!(scroll_up(3, 10, 5, 1), 2);
    assert_eq!(scroll_up(3, 10, 5, 5), 0);
    assert_eq!(scroll_up(40, 100, 10, 10), 30);
    assert_eq!(jump_top(), 0);
    assert_eq!(jump_bottom(10, 5), 5);
    assert_eq!(jump_bottom(3, 5), 0);
    assert_eq!(jump_bottom(5, 5), 0);
}

#[test]
fn content_height_reserves_chrome() {
    assert_eq!(content_height(24), 18);
    assert_eq!(content_height(7), 1);
    assert_eq!(content_height(6), 0);
    assert_eq!(content_height(0), 0);
}

#[test]
fn pager_key_map() {
    assert_eq!(pager_action('j'), PagerAction::ScrollDown);
    assert_eq!(pager_action('k'), PagerAction::ScrollUp);
    assert_eq!(pager_action('d'), PagerAction::PageDown);
    assert_eq!(pager_action(' '), PagerAction::PageDown);
    assert_eq!(pager_action('b'), PagerAction::PageUp);
    assert_eq!(pager_action('g'), PagerAction::Top);
    assert_eq!(pager_action('G'), PagerAction::Bottom);
    assert_eq!(pager_action('s'), PagerAction::Select);
    assert_eq!(pager_action('\n'), PagerAction::Select);
    assert_eq!(pager_action('q'), PagerAction::Quit);
    assert_eq!(pager_action('x'), PagerAction::Noop);
    assert_eq!(pager_action('J'), PagerAction::Noop);
}

#[test]
fn pager_scrolls_down_to_last_page_and_stops() {
    let mut p = Pager::new(12, 5);
    let mut seen = Vec::new();
    for _ in 0..10 {
        assert_eq!(p.handle_key('j'), PagerOutcome::Continue);
        seen.push(p.offset);
    }
    assert_eq!(seen, vec![1, 2, 3, 4, 5, 6, 7, 7, 7, 7]);
}

#[test]
fn pager_top_and_bottom_are_stable() {
    let mut p = Pager::new(10, 5);
    p.handle_key('G');
    assert_eq!(p.offset, 5);
    for _ in 0..4 {
        p.handle_key('j');
        assert_eq!(p.offset, 5);
    }
    p.handle_key('g');
    assert_eq!(p.offset, 0);
    for _ in 0..4 {
        p.handle_key('k');
        assert_eq!(p.offset, 0);
    }
}

#[test]
fn pager_pages() {
    let mut p = Pager::new(23, 5);
    p.handle_key('d');
    assert_eq!(p.offset, 5);
    p.handle_key(' ');
    assert_eq!(p.offset, 10);
    p.handle_key('d');
    assert_eq!(p.offset, 15);
    p.handle_key('d');
    assert_eq!(p.offset, 18);
    p.handle_key('d');
    assert_eq!(p.offset, 18);
    p.handle_key('b');
    assert_eq!(p.offset, 13);
    p.handle_key('b');
    p.handle_key('b');
    assert_eq!(p.offset, 3);
    p.handle_key('b');
    assert_eq!(p.offset, 0);
}

#[test]
fn pager_small_buffer_never_scrolls() {
    let mut p = Pager::new(3, 5);
    for key in ['j', 'd', ' ', 'G', 'b', 'k', 'g'] {
        p.handle_key(key);
        assert_eq!(p.offset, 0);
    }
    assert_eq!(p.visible_range(), (0, 3));
}

#[test]
fn pager_empty_buffer() {
    let mut p = Pager::new(0, 5);
    p.handle_key('G');
    assert_eq!(p.offset, 0);
    assert_eq!(p.visible_range(), (0, 0));
}

#[test]
fn pager_zero_height() {
    let mut p = Pager::new(4, content_height(3));
    assert_eq!(p.height, 0);
    p.handle_key('j');
    assert_eq!(p.offset, 1);
    p.handle_key('G');
    assert_eq!(p.offset, 4);
    assert_eq!(p.visible_range(), (4, 4));
}

#[test]
fn pager_outcomes() {
    let mut p = Pager::new(10, 5);
    assert_eq!(p.handle_key('s'), PagerOutcome::SelectAnother);
    assert_eq!(p.handle_key('\n'), PagerOutcome::SelectAnother);
    assert_eq!(p.handle_key('q'), PagerOutcome::Quit);
    assert_eq!(p.handle_key('z'), PagerOutcome::Continue);
    assert_eq!(p.offset, 0);
}

#[test]
fn pager_offset_stays_in_bounds_under_key_sequences() {
    let keys = ['j', 'k', 'd', 'b', 'g', 'G', ' ', 'x'];
    for total in 0..12usize {
        for height in 0..8usize {
            let mut p = Pager::new(total, height);
            let mut seed: usize = total * 31 + height * 7 + 1;
            for _ in 0..60 {
                seed = (seed * 1103515245 + 12345) % 2147483648;
                p.handle_key(keys[seed % keys.len()]);
                if total <= height {
                    assert_eq!(p.offset, 0);
                } else {
                    assert!(p.offset <= total - height);
                }
            }
        }
    }
}

#[test]
fn visible_range_of_pager() {
    let mut p = Pager::new(12, 5);
    assert_eq!(p.visible_range(), (0, 5));
    p.handle_key('G');
    assert_eq!(p.visible_range(), (7, 12));
}

#[test]
fn selector_key_map() {
    assert_eq!(selector_action('j'), SelectorAction::Down);
    assert_eq!(selector_action('k'), SelectorAction::Up);
    assert_eq!(selector_action('s'), SelectorAction::Choose);
    assert_eq!(selector_action('\n'), SelectorAction::Choose);
    assert_eq!(selector_action('q'), SelectorAction::Quit);
    assert_eq!(selector_action('d'), SelectorAction::Noop);
}

#[test]
fn selector_moves_highlight_then_scrolls() {
    let mut s = Selector::new(5, 3);
    assert_eq!(s.display_limit, 3);
    s.handle_key('j');
    assert_eq!((s.offset, s.current_line), (0, 1));
    s.handle_key('j');
    assert_eq!((s.offset, s.current_line), (0, 2));
    s.handle_key('j');
    assert_eq!((s.offset, s.current_line), (1, 2));
    s.handle_key('j');
    assert_eq!((s.offset, s.current_line), (2, 2));
    s.handle_key('j');
    assert_eq!((s.offset, s.current_line), (2, 2));
    assert_eq!(s.highlighted(), 4);
    assert_eq!(s.visible_range(), (2, 5));
    s.handle_key('k');
    assert_eq!((s.offset, s.current_line), (2, 1));
    s.handle_key('k');
    assert_eq!((s.offset, s.current_line), (2, 0));
    s.handle_key('k');
    assert_eq!((s.offset, s.current_line), (1, 0));
    s.handle_key('k');
    s.handle_key('k');
    assert_eq!((s.offset, s.current_line), (0, 0));
}

#[test]
fn selector_short_list() {
    let mut s = Selector::new(2, 10);
    assert_eq!(s.display_limit, 2);
    s.handle_key('j');
    s.handle_key('j');
    s.handle_key('j');
    assert_eq!((s.offset, s.current_line), (0, 1));
    assert_eq!(s.handle_key('s'), SelectorOutcome::Chosen(1));
}

#[test]
fn selector_outcomes() {
    let mut s = Selector::new(4, 2);
    assert_eq!(s.handle_key('x'), SelectorOutcome::Continue);
    assert_eq!(s.handle_key('q'), SelectorOutcome::Quit);
    assert_eq!(s.handle_key('\n'), SelectorOutcome::Chosen(0));
}

#[test]
fn selector_highlight_stays_valid_under_key_sequences() {
    let keys = ['j', 'k', 'j', 'x'];
    for total in 1..9usize {
        for rows in 1..6usize {
            let mut s = Selector::new(total, rows);
            let mut seed: usize = total * 13 + rows;
            for _ in 0..50 {
                seed = (seed * 1103515245 + 12345) % 2147483648;
                s.handle_key(keys[(seed / 7) % keys.len()]);
                assert!(s.current_line < s.display_limit);
                assert!(s.offset + s.current_line < total);
                assert!(s.offset + s.display_limit <= total);
            }
        }
    }
}

#[test]
fn reversed_entries_most_recent_first() {
    let v = vec!["a.log".to_string(), "b.log".to_string(), "c.log".to_string()];
    assert_eq!(reversed_entries(&v), vec!["c.log".to_string(), "b.log".to_string(), "a.log".to_string()]);
    assert!(reversed_entries(&Vec::new()).is_empty());
}

#[test]
fn session_transitions() {
    let mut s = Session::open(3).unwrap();
    assert_eq!(s.state, SessionState::Paging(2));
    s.step(SessionEvent::SelectorChose(0));
    assert_eq!(s.state, SessionState::Paging(2));
    s.step(SessionEvent::PagerSelect);
    assert_eq!(s.state, SessionState::Selecting);
    s.step(SessionEvent::PagerQuit);
    assert_eq!(s.state, SessionState::Selecting);
    s.step(SessionEvent::SelectorChose(3));
    assert_eq!(s.state, SessionState::Selecting);
    s.step(SessionEvent::SelectorChose(2));
    assert_eq!(s.state, SessionState::Paging(0));
    assert_eq!(s.current_file(), Some(0));
    s.step(SessionEvent::PagerSelect);
    assert_eq!(s.current_file(), None);
    s.step(SessionEvent::SelectorQuit);
    assert!(s.is_terminated());
}

#[test]
fn zero_files_fails_before_rendering() {
    assert_eq!(Session::open(0).unwrap_err(), OpenError::NoLogFiles);
}

#[test]
fn end_to_end_two_logs() {
    let files = vec!["run1.log".to_string(), "run2.log".to_string()];
    let mut session = Session::open(files.len()).unwrap();
    let opened = session.current_file().unwrap();
    assert_eq!(files[opened], "run2.log");

    // The pager over run2.log (3 lines) hands over to the selector on `s`.
    let mut pager = Pager::new(3, 5);
    assert_eq!(pager.handle_key('s'), PagerOutcome::SelectAnother);
    session.step(SessionEvent::PagerSelect);
    assert_eq!(session.state, SessionState::Selecting);

    // The selector lists run2.log then run1.log, run2.log highlighted.
    let listed = reversed_entries(&files);
    assert_eq!(listed, vec!["run2.log".to_string(), "run1.log".to_string()]);
    let mut selector = Selector::new(files.len(), 10);
    assert_eq!(listed[selector.highlighted()], "run2.log");
    assert_eq!(selector.handle_key('j'), SelectorOutcome::Continue);
    let row = match selector.handle_key('s') {
        SelectorOutcome::Chosen(row) => row,
        other => panic!("unexpected outcome {:?}", other),
    };
    assert_eq!(listed[row], "run1.log");
    session.step(SessionEvent::SelectorChose(row));
    assert_eq!(files[session.current_file().unwrap()], "run1.log");

    // run1.log has 10 lines; with 5 rows, `G` shows the last page.
    let mut pager = Pager::new(10, 5);
    pager.handle_key('G');
    assert_eq!(pager.offset, 5);
    assert_eq!(pager.handle_key('q'), PagerOutcome::Quit);
    session.step(SessionEvent::PagerQuit);
    assert!(session.is_terminated());
}
