use better::dir::{Dir, Entry};
use better::frame::Frame;
use better::intro::Intro;
use better::key::Key;

fn entry(path: &str, is_dir: bool) -> Entry {
    Entry { path: path.to_string(), is_dir }
}

fn listing(names: &[&str]) -> Dir {
    Dir::new(names.iter().map(|n| entry(n, false)).collect())
}

fn cursor_of(frame: &Frame) -> usize {
    match frame {
        Frame::Dir(dir) => dir.cursor(),
        other => panic!("not a directory frame: {:?}", other),
    }
}

fn press(frame: Frame, key: Key) -> Frame {
    let (frame, open) = frame.manage_key(key);
    assert_eq!(open, None);
    frame
}

#[test]
fn a_session_begins_with_the_intro() {
    assert!(matches!(Frame::begin(), Frame::Intro(_)));
    assert!(!Frame::begin().is_end());
    assert!(Frame::begin().is_intro());
}

#[test]
fn escape_on_the_intro_ends() {
    let (frame, open) = Intro::new().manage_key(Key::Escape);
    assert!(frame.is_end());
    assert_eq!(open, None);
}

#[test]
fn f_on_the_intro_asks_for_the_working_directory() {
    let (frame, open) = Frame::begin().manage_key(Key::Char('f'));
    assert!(frame.is_intro());
    assert_eq!(open, Some(".".to_string()));
}

#[test]
fn other_keys_leave_the_intro_up() {
    let mut frame = Frame::begin();
    for key in [
        Key::Char('a'),
        Key::Char('j'),
        Key::Char('k'),
        Key::Char('F'),
        Key::Char('\n'),
        Key::Enter,
        Key::Other,
        Key::Char('q'),
    ] {
        frame = press(frame, key);
        assert!(frame.is_intro());
    }
}

#[test]
fn the_end_takes_no_key() {
    for key in [Key::Escape, Key::Char('f'), Key::Enter, Key::Other] {
        let (frame, open) = Frame::End.manage_key(key);
        assert!(frame.is_end());
        assert_eq!(open, None);
    }
}

#[test]
fn a_new_listing_keeps_the_order_and_starts_at_the_top() {
    let dir = listing(&["zeta", "alpha", "mid"]);
    assert_eq!(dir.cursor(), 0);
    let paths: Vec<&str> = dir.entries().iter().map(|e| e.path.as_str()).collect();
    assert_eq!(paths, vec!["zeta", "alpha", "mid"]);
}

#[test]
fn j_moves_down_and_wraps() {
    let mut frame = Frame::Dir(listing(&["a", "b", "c"]));
    frame = press(frame, Key::Char('j'));
    assert_eq!(cursor_of(&frame), 1);
    frame = press(frame, Key::Char('j'));
    assert_eq!(cursor_of(&frame), 2);
    frame = press(frame, Key::Char('j'));
    assert_eq!(cursor_of(&frame), 0);
}

#[test]
fn k_moves_up_and_wraps() {
    let mut frame = Frame::Dir(listing(&["a", "b", "c"]));
    frame = press(frame, Key::Char('k'));
    assert_eq!(cursor_of(&frame), 2);
    frame = press(frame, Key::Char('k'));
    assert_eq!(cursor_of(&frame), 1);
    frame = press(frame, Key::Char('k'));
    assert_eq!(cursor_of(&frame), 0);
}

#[test]
fn as_many_moves_as_entries_come_back() {
    for n in 1..=7usize {
        let names: Vec<String> = (0..n).map(|i| format!("e{}", i)).collect();
        let names: Vec<&str> = names.iter().map(|s| s.as_str()).collect();
        for start in 0..n {
            for key in [Key::Char('j'), Key::Char('k')] {
                let mut frame = Frame::Dir(listing(&names));
                for _ in 0..start {
                    frame = press(frame, Key::Char('j'));
                }
                assert_eq!(cursor_of(&frame), start);
                for _ in 0..n {
                    frame = press(frame, key);
                }
                assert_eq!(cursor_of(&frame), start);
            }
        }
    }
}

#[test]
fn one_entry_keeps_the_cursor() {
    let mut frame = Frame::Dir(listing(&["only"]));
    frame = press(frame, Key::Char('j'));
    assert_eq!(cursor_of(&frame), 0);
    frame = press(frame, Key::Char('k'));
    assert_eq!(cursor_of(&frame), 0);
}

#[test]
fn an_empty_listing_is_still() {
    let mut frame = Frame::Dir(Dir::new(Vec::new()));
    for key in [Key::Char('j'), Key::Char('k'), Key::Char('j'), Key::Enter, Key::Char('\n')] {
        frame = press(frame, key);
        assert_eq!(cursor_of(&frame), 0);
    }
    match &frame {
        Frame::Dir(dir) => {
            assert!(dir.entries().is_empty());
            assert_eq!(dir.selected_path(), None);
        },
        other => panic!("not a directory frame: {:?}", other),
    }
}

#[test]
fn escape_on_a_directory_goes_back_to_the_intro() {
    let (frame, open) = Frame::Dir(listing(&["a", "b"])).manage_key(Key::Escape);
    assert!(frame.is_intro());
    assert_eq!(open, None);
}

#[test]
fn enter_asks_for_the_selected_entry() {
    let dir = Dir::new(vec![entry("/srv/a", true), entry("/srv/b", true)]);
    let frame = press(Frame::Dir(dir), Key::Char('j'));
    let (frame, open) = frame.manage_key(Key::Enter);
    assert_eq!(open, Some("/srv/b".to_string()));
    assert_eq!(cursor_of(&frame), 1);
}

#[test]
fn a_line_feed_is_enter() {
    assert!(Key::Enter.enter());
    assert!(Key::Char('\n').enter());
    assert!(!Key::Char('\r').enter());
    assert!(!Key::Char('j').enter());
    assert!(!Key::Escape.enter());
    assert!(!Key::Other.enter());
    let dir = Dir::new(vec![entry("/srv/a", true)]);
    let (_, open) = Frame::Dir(dir).manage_key(Key::Char('\n'));
    assert_eq!(open, Some("/srv/a".to_string()));
}

#[test]
fn other_keys_leave_a_directory_as_it_is() {
    let mut frame = press(Frame::Dir(listing(&["a", "b", "c"])), Key::Char('j'));
    for key in [Key::Char('x'), Key::Char('f'), Key::Char('J'), Key::Other] {
        frame = press(frame, key);
        assert_eq!(cursor_of(&frame), 1);
    }
}

#[test]
fn browsing_two_entries() {
    let dir = Dir::new(vec![entry("/tmp/x/a", true), entry("/tmp/x/b", false)]);
    assert_eq!(dir.cursor(), 0);
    assert_eq!(dir.selected_path(), Some("/tmp/x/a".to_string()));
    let frame = press(Frame::Dir(dir), Key::Char('j'));
    assert_eq!(cursor_of(&frame), 1);
    let frame = press(frame, Key::Char('j'));
    assert_eq!(cursor_of(&frame), 0);
    let frame = press(frame, Key::Char('j'));
    assert_eq!(cursor_of(&frame), 1);
    let (frame, open) = frame.manage_key(Key::Enter);
    assert_eq!(open, Some("/tmp/x/b".to_string()));
    assert_eq!(cursor_of(&frame), 1);
}
