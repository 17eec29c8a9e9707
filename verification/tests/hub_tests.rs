use term_bridge::bridge::{attach, detach, on_viewer_input, next_outbound, OutboundStep};
use term_bridge::history::History;
use term_bridge::hub::{Hub, RecvOutcome};
use term_bridge::supervisor::InputWriter;
use term_bridge::MAX_MESSAGES;

fn deliver(step: OutboundStep) -> String {
    match step {
        OutboundStep::Deliver(m) => m,
        OutboundStep::Wait => panic!("expected a delivery, relay would wait"),
        OutboundStep::Finish => panic!("expected a delivery, relay finished"),
    }
}

#[test]
fn history_evicts_oldest_at_capacity() {
    let mut h = History::new(3);
    for m in ["a", "b", "c", "d"] {
        h.push(m.to_string());
    }
    assert_eq!(h.len(), 3);
    assert_eq!(h.snapshot(), vec!["b".to_string(), "c".to_string(), "d".to_string()]);
}

#[test]
fn history_below_capacity_keeps_everything() {
    let mut h = History::new(8);
    h.push("x".to_string());
    h.push("y".to_string());
    assert_eq!(h.snapshot(), vec!["x".to_string(), "y".to_string()]);
}

#[test]
fn first_and_second_viewer_get_same_history() {
    let mut hub = Hub::new(MAX_MESSAGES, MAX_MESSAGES);
    hub.publish("ready".to_string());

    let (viewer_a, snap_a) = attach(&mut hub);
    assert_eq!(snap_a, vec!["ready".to_string()]);
    assert!(matches!(next_outbound(&mut hub, &viewer_a), OutboundStep::Wait));

    let (viewer_b, snap_b) = attach(&mut hub);
    assert_eq!(snap_b, vec!["ready".to_string()]);
    assert!(matches!(next_outbound(&mut hub, &viewer_b), OutboundStep::Wait));
}

#[test]
fn viewer_input_reaches_everyone_and_the_process() {
    let mut hub = Hub::new(MAX_MESSAGES, MAX_MESSAGES);
    let mut writer = InputWriter::new();
    let (viewer_a, _) = attach(&mut hub);
    let (viewer_b, _) = attach(&mut hub);

    on_viewer_input(&mut hub, &mut writer, "hello".to_string());

    assert_eq!(deliver(next_outbound(&mut hub, &viewer_a)), "hello");
    assert_eq!(deliver(next_outbound(&mut hub, &viewer_b)), "hello");
    assert!(matches!(next_outbound(&mut hub, &viewer_a), OutboundStep::Wait));
    assert!(matches!(next_outbound(&mut hub, &viewer_b), OutboundStep::Wait));
    assert_eq!(writer.next_to_write(), Some("hello\n".to_string()));
    assert_eq!(writer.next_to_write(), None);
}

#[test]
fn late_subscriber_sees_exactly_the_last_messages() {
    let mut hub = Hub::new(MAX_MESSAGES, MAX_MESSAGES);
    for i in 1..=300 {
        hub.publish(format!("m{}", i));
    }
    let (_viewer, snap) = attach(&mut hub);
    assert_eq!(snap.len(), 256);
    assert_eq!(snap[0], "m45");
    assert_eq!(snap[255], "m300");
    for (k, msg) in snap.iter().enumerate() {
        assert_eq!(*msg, format!("m{}", 45 + k));
    }
}

#[test]
fn snapshot_and_live_stream_neither_miss_nor_duplicate() {
    let mut hub = Hub::new(MAX_MESSAGES, MAX_MESSAGES);
    hub.publish("before".to_string());
    let (viewer, snap) = attach(&mut hub);
    hub.publish("after".to_string());

    assert_eq!(snap, vec!["before".to_string()]);
    assert_eq!(deliver(next_outbound(&mut hub, &viewer)), "after");
    assert!(matches!(next_outbound(&mut hub, &viewer), OutboundStep::Wait));
}

#[test]
fn slow_subscriber_breaks_alone_and_others_continue() {
    let mut hub = Hub::new(8, 2);
    let (slow, _) = attach(&mut hub);
    let (fast, _) = attach(&mut hub);

    hub.publish("x1".to_string());
    assert_eq!(deliver(next_outbound(&mut hub, &fast)), "x1");
    hub.publish("x2".to_string());
    assert_eq!(deliver(next_outbound(&mut hub, &fast)), "x2");
    // the slow viewer's buffer is now full; the next publish breaks it
    hub.publish("x3".to_string());
    assert_eq!(deliver(next_outbound(&mut hub, &fast)), "x3");
    assert!(matches!(next_outbound(&mut hub, &slow), OutboundStep::Finish));
    // and later messages still reach the unaffected viewer
    hub.publish("x4".to_string());
    assert_eq!(deliver(next_outbound(&mut hub, &fast)), "x4");
}

#[test]
fn both_viewers_see_interleaved_messages_in_the_same_order() {
    let mut hub = Hub::new(MAX_MESSAGES, MAX_MESSAGES);
    let mut writer = InputWriter::new();
    let (viewer_a, _) = attach(&mut hub);
    let (viewer_b, _) = attach(&mut hub);

    hub.publish("out1".to_string());
    on_viewer_input(&mut hub, &mut writer, "in1".to_string());
    hub.publish("out2".to_string());

    for viewer in [&viewer_a, &viewer_b] {
        assert_eq!(deliver(next_outbound(&mut hub, viewer)), "out1");
        assert_eq!(deliver(next_outbound(&mut hub, viewer)), "in1");
        assert_eq!(deliver(next_outbound(&mut hub, viewer)), "out2");
    }
}

#[test]
fn detach_releases_the_subscription() {
    let mut hub = Hub::new(8, 8);
    let (viewer_a, _) = attach(&mut hub);
    let (viewer_b, _) = attach(&mut hub);
    hub.publish("one".to_string());
    detach(&mut hub, viewer_a);
    hub.publish("two".to_string());

    let id_a: usize = 0;
    assert!(matches!(hub.recv(id_a), RecvOutcome::Closed));
    assert_eq!(deliver(next_outbound(&mut hub, &viewer_b)), "one");
    assert_eq!(deliver(next_outbound(&mut hub, &viewer_b)), "two");
}
