use term_bridge::viewer::{InputBuffer, KeyInput};

fn chars(s: &str) -> Vec<char> {
    s.chars().collect()
}

#[test]
fn typing_then_enter_submits_the_line_and_clears() {
    let mut b = InputBuffer::new();
    assert_eq!(b.on_key(KeyInput::Character('h')), None);
    assert_eq!(b.on_key(KeyInput::Character('i')), None);
    assert_eq!(b.on_key(KeyInput::Enter), Some(chars("hi")));
    assert_eq!(b.on_key(KeyInput::Enter), None);
}

#[test]
fn enter_on_empty_buffer_submits_nothing() {
    let mut b = InputBuffer::new();
    assert_eq!(b.on_key(KeyInput::Enter), None);
}

#[test]
fn backspace_drops_the_last_character() {
    let mut b = InputBuffer::new();
    b.on_key(KeyInput::Character('a'));
    b.on_key(KeyInput::Character('b'));
    assert_eq!(b.on_key(KeyInput::Backspace), None);
    assert_eq!(b.on_key(KeyInput::Enter), Some(chars("a")));
}

#[test]
fn backspace_on_empty_buffer_changes_nothing() {
    let mut b = InputBuffer::new();
    assert_eq!(b.on_key(KeyInput::Backspace), None);
    assert_eq!(b.on_key(KeyInput::Enter), None);
}

#[test]
fn other_keys_are_ignored() {
    let mut b = InputBuffer::new();
    b.on_key(KeyInput::Character('x'));
    assert_eq!(b.on_key(KeyInput::Other), None);
    assert_eq!(b.on_key(KeyInput::Enter), Some(chars("x")));
}
