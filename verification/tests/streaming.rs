//! Updates of a streaming turn, and the frames around them.
use pa_daemon::streaming::TurnStreamCoalescer;
use pa_daemon::worker::EventPump;

fn payloads(pump: &EventPump) -> Vec<Vec<u8>> {
    pump.frames.iter().map(|frame| frame.payload.clone()).collect()
}

#[test]
fn direct_sends_flush_the_parked_update_first() {
    let mut pump = EventPump::new();
    let mut coalescer = TurnStreamCoalescer::new();
    assert!(coalescer.park_update(b"update-1".to_vec()));
    // The parked update waits for the flusher until a direct frame arrives:
    // the direct send must broadcast the parked snapshot first.
    coalescer.send_direct(&vec![b"message-end".to_vec()], &mut pump);
    let sent = payloads(&pump);
    assert_eq!(sent[0], b"update-1".to_vec());
    assert_eq!(sent[1], b"message-end".to_vec());
    assert!(sent.len() == 2, "no further frames");
    assert!(pump.frames.iter().all(|f| f.outbound_type == "session_event"));
}

#[test]
fn a_newer_snapshot_replaces_the_parked_one() {
    let mut pump = EventPump::new();
    let mut coalescer = TurnStreamCoalescer::new();
    assert!(coalescer.park_update(b"update-1".to_vec()));
    assert!(coalescer.park_update(b"update-2".to_vec()));
    assert!(coalescer.flush_pending(&mut pump));
    let sent = payloads(&pump);
    assert_eq!(sent[0], b"update-2".to_vec());
    assert!(sent.len() == 1, "the superseded snapshot is dropped");
}

#[test]
fn close_stops_parking_and_flushing() {
    let mut pump = EventPump::new();
    let mut coalescer = TurnStreamCoalescer::new();
    assert!(coalescer.park_update(b"update-1".to_vec()));
    coalescer.close();
    assert!(!coalescer.park_update(b"update-2".to_vec()));
    assert!(!coalescer.flush_pending(&mut pump), "the flusher stops");
    assert!(payloads(&pump).is_empty(), "a closed turn parks nothing");
}

#[test]
fn flush_without_parked_frames_is_a_kept_alive_noop() {
    let mut pump = EventPump::new();
    let mut coalescer = TurnStreamCoalescer::new();
    assert!(coalescer.flush_pending(&mut pump));
    assert!(payloads(&pump).is_empty());
}

#[test]
fn direct_sends_keep_their_order() {
    let mut pump = EventPump::new();
    let mut coalescer = TurnStreamCoalescer::new();
    coalescer.send_direct(&vec![b"a".to_vec(), b"b".to_vec()], &mut pump);
    assert_eq!(payloads(&pump), vec![b"a".to_vec(), b"b".to_vec()]);
}
