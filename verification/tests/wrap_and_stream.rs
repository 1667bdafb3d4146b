use twopane::{wrapped_lines, ScrollCommand, StreamState};

#[test]
fn test_wrap() {
    let chunks = vec!["hello world\n\n".to_string()];
    let w = wrapped_lines(&chunks, 20);
    assert_eq!(w, vec!["hello world".to_string(), "".to_string(), "".to_string()]);
}

#[test]
fn wrap_breaks_at_whitespace() {
    let chunks = vec!["Foo   bar baz".to_string()];
    assert_eq!(
        wrapped_lines(&chunks, 10),
        vec!["Foo   bar".to_string(), "baz".to_string()]
    );
    assert_eq!(
        wrapped_lines(&chunks, 8),
        vec!["Foo".to_string(), "bar baz".to_string()]
    );
}

#[test]
fn wrap_is_pure_and_respects_width() {
    let chunks = vec!["one two three four five six seven".to_string()];
    let a = wrapped_lines(&chunks, 9);
    let b = wrapped_lines(&chunks, 9);
    assert_eq!(a, b);
    for line in &a {
        assert!(line.chars().count() <= 9);
    }
    let rejoined = a.join(" ");
    assert_eq!(rejoined, "one two three four five six seven");
}

#[test]
fn wrap_splits_overlong_token() {
    let chunks = vec!["abcdefghij".to_string()];
    let lines = wrapped_lines(&chunks, 4);
    assert!(lines.len() > 1);
    for line in &lines {
        assert!(line.chars().count() <= 4);
    }
    assert_eq!(lines.concat(), "abcdefghij");
}

#[test]
fn wrap_empty_text_is_empty() {
    let chunks: Vec<String> = Vec::new();
    assert_eq!(wrapped_lines(&chunks, 10), Vec::<String>::new());
    let blank = vec!["".to_string()];
    assert_eq!(wrapped_lines(&blank, 10), Vec::<String>::new());
}

#[test]
fn append_accumulates_in_order() {
    let mut s = StreamState::new();
    s.append(b"hello ");
    let before = s.chunks.concat();
    s.append(b"world");
    let after = s.chunks.concat();
    assert!(after.starts_with(&before));
    assert_eq!(after, "hello world");
    assert!(s.open);
}

#[test]
fn append_decodes_invalid_utf8_lossily() {
    let mut s = StreamState::new();
    s.append(&[0x41, 0xFF, 0x42]);
    assert_eq!(s.chunks.concat(), "A\u{FFFD}B");
}

#[test]
fn close_is_permanent_under_append() {
    let mut s = StreamState::new();
    s.close();
    assert!(!s.open);
    s.append(b"more");
    assert!(!s.open);
}

#[test]
fn line_scroll_commands() {
    let mut s = StreamState::new();
    s.offset = 5;
    s.autoscroll = true;
    s.apply_scroll(ScrollCommand::LineUp, 3);
    assert_eq!(s.offset, 4);
    assert!(!s.autoscroll);
    s.apply_scroll(ScrollCommand::LineDown, 3);
    assert_eq!(s.offset, 5);
    assert!(!s.autoscroll);
    s.apply_scroll(ScrollCommand::Home, 3);
    assert_eq!(s.offset, 0);
    assert!(!s.autoscroll);
    s.apply_scroll(ScrollCommand::LineUp, 3);
    assert_eq!(s.offset, 0);
    s.apply_scroll(ScrollCommand::End, 3);
    assert!(s.autoscroll);
    assert_eq!(s.offset, 0);
}

#[test]
fn page_scroll_on_small_terminal() {
    assert_eq!(twopane::page_size(Some(9)), 3);
    let mut s = StreamState::new();
    s.offset = 49;
    s.autoscroll = false;
    s.apply_scroll(ScrollCommand::PageUp, 3);
    assert_eq!(s.offset, 46);
    assert!(!s.autoscroll);
}

#[test]
fn page_scroll_saturates_at_top() {
    let mut s = StreamState::new();
    s.offset = 2;
    s.apply_scroll(ScrollCommand::PageUp, 10);
    assert_eq!(s.offset, 0);
    assert!(!s.autoscroll);
}

#[test]
fn reconcile_keeps_offset_in_bounds() {
    let mut s = StreamState::new();
    s.offset = 100;
    s.autoscroll = false;
    s.reconcile(50, 7);
    assert!(s.offset <= 43);
    s.offset = 10;
    s.autoscroll = false;
    s.reconcile(50, 7);
    assert_eq!(s.offset, 10);
    assert!(!s.autoscroll);
}

#[test]
fn reconcile_autoscroll_follows_tail() {
    let mut s = StreamState::new();
    s.autoscroll = true;
    s.reconcile(50, 7);
    assert_eq!(s.offset, 43);
    assert!(s.autoscroll);
    s.reconcile(5, 7);
    assert_eq!(s.offset, 0);
    assert!(s.autoscroll);
}

#[test]
fn reconcile_sticky_bottom() {
    let mut s = StreamState::new();
    s.offset = 44;
    s.autoscroll = false;
    s.reconcile(50, 7);
    assert!(s.autoscroll);
    assert_eq!(s.offset, 43);
}

#[test]
fn page_size_fallback() {
    assert_eq!(twopane::page_size(None), 10);
    assert_eq!(twopane::page_size(Some(30)), 10);
}

#[test]
fn inner_size_strips_borders() {
    assert_eq!(twopane::inner_size(80, 24), (78, 22));
    assert_eq!(twopane::inner_size(1, 1), (0, 0));
}
