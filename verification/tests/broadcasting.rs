use bytes::Bytes;
use stellarust::broadcaster::{retain_flagged, Broadcaster, Client, CLIENT_QUEUE_CAPACITY, PING_INTERVAL_SECS};
use stellarust::broadcasterr::{Broadcasterr, TBroadcaster};
use stellarust::sse::{connected_frame, message_frame, ping_frame};
use tokio::sync::mpsc::Receiver;

fn drain(rx: &mut Receiver<Bytes>) -> Vec<String> {
    let mut frames = Vec::new();
    while let Ok(b) = rx.try_recv() {
        frames.push(String::from_utf8(b.to_vec()).unwrap());
    }
    frames
}

#[test]
fn frames_are_sse_events() {
    assert_eq!(connected_frame(), "event: connected\ndata: connected\n\n");
    assert_eq!(ping_frame(), "event: ping\ndata: ping\n\n");
    assert_eq!(message_frame("hello"), "event: message\ndata: hello\n\n");
    assert_eq!(message_frame(""), "event: message\ndata: \n\n");
}

#[test]
fn new_client_is_greeted() {
    let mut b = Broadcaster::new();
    let Client(mut rx) = b.new_client();
    assert_eq!(drain(&mut rx), vec!["event: connected\ndata: connected\n\n".to_string()]);
}

#[test]
fn send_reaches_every_client() {
    let mut b = Broadcaster::new();
    let Client(mut rx1) = b.new_client();
    let Client(mut rx2) = b.new_client();
    drain(&mut rx1);
    drain(&mut rx2);
    b.send("file.txt");
    let expected = vec!["event: message\ndata: file.txt\n\n".to_string()];
    assert_eq!(drain(&mut rx1), expected);
    assert_eq!(drain(&mut rx2), expected);
}

#[test]
fn send_without_clients_does_nothing() {
    let mut b = Broadcaster::new();
    b.send("nobody listens");
}

#[test]
fn stale_clients_are_dropped_and_live_ones_pinged() {
    let mut b = Broadcaster::new();
    let Client(mut live) = b.new_client();
    let Client(gone) = b.new_client();
    drop(gone);
    drain(&mut live);
    b.remove_stale_clients();
    assert_eq!(drain(&mut live), vec!["event: ping\ndata: ping\n\n".to_string()]);
    b.send("after");
    assert_eq!(drain(&mut live), vec!["event: message\ndata: after\n\n".to_string()]);
}

#[test]
fn a_client_with_a_full_queue_is_dropped() {
    let mut b = Broadcaster::new();
    let Client(mut slow) = b.new_client();
    // The greeting occupies one slot; fill the rest.
    for i in 0..(CLIENT_QUEUE_CAPACITY - 1) {
        b.send(&format!("m{}", i));
    }
    b.remove_stale_clients();
    let frames = drain(&mut slow);
    assert_eq!(frames.len(), CLIENT_QUEUE_CAPACITY);
    assert!(!frames.contains(&"event: ping\ndata: ping\n\n".to_string()));
    b.send("later");
    assert!(drain(&mut slow).is_empty());
}

#[test]
fn a_full_client_misses_messages_but_stays() {
    let mut b = Broadcaster::new();
    let Client(mut slow) = b.new_client();
    for i in 0..CLIENT_QUEUE_CAPACITY {
        b.send(&format!("m{}", i));
    }
    let frames = drain(&mut slow);
    assert_eq!(frames.len(), CLIENT_QUEUE_CAPACITY);
    assert_eq!(frames[1], "event: message\ndata: m0\n\n");
    b.send("again");
    assert_eq!(drain(&mut slow), vec!["event: message\ndata: again\n\n".to_string()]);
}

#[test]
fn timing_constants() {
    assert_eq!(CLIENT_QUEUE_CAPACITY, 100);
    assert_eq!(PING_INTERVAL_SECS, 10);
}

#[test]
fn retain_flagged_keeps_flagged_in_order() {
    let kept = retain_flagged(vec![1, 2, 3, 4, 5], &vec![true, false, true, false, true]);
    assert_eq!(kept, vec![1, 3, 5]);
    let none: Vec<i32> = retain_flagged(vec![1, 2], &vec![false, false]);
    assert!(none.is_empty());
    assert_eq!(retain_flagged(vec!["a", "b"], &vec![true, true]), vec!["a", "b"]);
    let empty: Vec<u8> = retain_flagged(Vec::new(), &Vec::new());
    assert!(empty.is_empty());
}

#[test]
fn broadcasterr_behaves_like_the_broadcaster() {
    let mut b = Broadcasterr::new();
    let stellarust::broadcasterr::Client(mut rx) = b.new_client();
    b.send("x");
    assert_eq!(
        drain(&mut rx),
        vec![
            "event: connected\ndata: connected\n\n".to_string(),
            "event: message\ndata: x\n\n".to_string()
        ]
    );
}

#[test]
fn client_channel_holds_one_hundred_frames() {
    let mut b = Broadcaster::new();
    let Client(rx) = b.new_client();
    assert_eq!(rx.max_capacity(), CLIENT_QUEUE_CAPACITY);
    let mut br = Broadcasterr::new();
    let stellarust::broadcasterr::Client(rx) = br.new_client();
    assert_eq!(rx.max_capacity(), 100);
}
