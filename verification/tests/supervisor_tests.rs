use term_bridge::supervisor::{encode_line, reader_step, trim_message, InputWriter, ReadEvent, ReaderStep};

#[test]
fn writer_hands_lines_out_in_submission_order() {
    let mut w = InputWriter::new();
    w.enqueue_line("one".to_string());
    w.enqueue_line("two".to_string());
    assert_eq!(w.next_to_write(), Some("one\n".to_string()));
    assert_eq!(w.next_to_write(), Some("two\n".to_string()));
    assert_eq!(w.next_to_write(), None);
}

#[test]
fn writer_failure_is_latched_but_enqueues_still_succeed() {
    let mut w = InputWriter::new();
    w.enqueue_line("a".to_string());
    w.on_write_failure();
    assert_eq!(w.next_to_write(), None);
    // callers keep succeeding locally; nothing is delivered any more
    w.enqueue_line("b".to_string());
    assert_eq!(w.next_to_write(), None);
}

#[test]
fn trim_removes_trailing_whitespace_only() {
    assert_eq!(trim_message("hi there \r\n"), "hi there");
    assert_eq!(trim_message("abc"), "abc");
    assert_eq!(trim_message("\n"), "");
    assert_eq!(trim_message(""), "");
    assert_eq!(trim_message("  x\t\n"), "  x");
}

#[test]
fn encode_line_appends_one_newline() {
    assert_eq!(encode_line("hello"), "hello\n");
    assert_eq!(encode_line(""), "\n");
}

#[test]
fn reader_publishes_trimmed_lines_and_stops_on_end_or_error() {
    match reader_step(ReadEvent::Line("out\n".to_string())) {
        ReaderStep::Publish(m) => assert_eq!(m, "out"),
        ReaderStep::Stop => panic!("a line must be published"),
    }
    assert!(matches!(reader_step(ReadEvent::EndOfStream), ReaderStep::Stop));
    assert!(matches!(reader_step(ReadEvent::ReadFailure), ReaderStep::Stop));
}
