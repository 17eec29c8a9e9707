use term_bridge::ansi::{parse_ansi, TextColor};

fn chars(s: &str) -> Vec<char> {
    s.chars().collect()
}

#[test]
fn plain_text_is_one_default_span() {
    let spans = parse_ansi("hello");
    assert_eq!(spans.len(), 1);
    assert_eq!(spans[0].text, chars("hello"));
    assert_eq!(spans[0].color, TextColor::Default);
}

#[test]
fn empty_input_has_no_spans() {
    assert_eq!(parse_ansi("").len(), 0);
}

#[test]
fn color_codes_split_the_message_into_spans() {
    let spans = parse_ansi("\u{1b}[31mred\u{1b}[39mplain");
    assert_eq!(spans.len(), 2);
    assert_eq!(spans[0].text, chars("red"));
    assert_eq!(spans[0].color, TextColor::Red);
    assert_eq!(spans[1].text, chars("plain"));
    assert_eq!(spans[1].color, TextColor::Default);
}

#[test]
fn text_before_a_code_keeps_the_previous_color() {
    let spans = parse_ansi("ab\u{1b}[32mcd");
    assert_eq!(spans.len(), 2);
    assert_eq!(spans[0].text, chars("ab"));
    assert_eq!(spans[0].color, TextColor::Default);
    assert_eq!(spans[1].text, chars("cd"));
    assert_eq!(spans[1].color, TextColor::Green);
}

#[test]
fn every_recognized_code_selects_its_color() {
    let cases = [
        ("31", TextColor::Red),
        ("32", TextColor::Green),
        ("33", TextColor::Yellow),
        ("34", TextColor::Blue),
        ("35", TextColor::Magenta),
        ("36", TextColor::Cyan),
        ("37", TextColor::White),
        ("39", TextColor::Default),
        ("90", TextColor::Gray),
    ];
    for (code, color) in cases {
        let input = format!("\u{1b}[{}mx", code);
        let spans = parse_ansi(&input);
        assert_eq!(spans.len(), 1);
        assert_eq!(spans[0].text, chars("x"));
        assert_eq!(spans[0].color, color);
    }
}

#[test]
fn unknown_code_keeps_the_current_color() {
    let spans = parse_ansi("\u{1b}[31ma\u{1b}[77mb");
    assert_eq!(spans.len(), 2);
    assert_eq!(spans[0].color, TextColor::Red);
    assert_eq!(spans[1].text, chars("b"));
    assert_eq!(spans[1].color, TextColor::Red);
}

#[test]
fn escape_without_bracket_drops_two_characters() {
    let spans = parse_ansi("a\u{1b}Zb");
    assert_eq!(spans.len(), 1);
    assert_eq!(spans[0].text, chars("ab"));
    assert_eq!(spans[0].color, TextColor::Default);
}

#[test]
fn unterminated_code_still_ends_the_current_span() {
    let spans = parse_ansi("a\u{1b}[31");
    assert_eq!(spans.len(), 1);
    assert_eq!(spans[0].text, chars("a"));
    assert_eq!(spans[0].color, TextColor::Default);
}

#[test]
fn trailing_escape_is_dropped() {
    let spans = parse_ansi("ok\u{1b}");
    assert_eq!(spans.len(), 1);
    assert_eq!(spans[0].text, chars("ok"));
    assert_eq!(spans[0].color, TextColor::Default);
}
