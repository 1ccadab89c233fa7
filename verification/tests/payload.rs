use temporal_lens::shmem::FrameData;
use temporal_lens::shmem::HeapData;
use temporal_lens::shmem::Payload;
use temporal_lens::shmem::ShouldStopQuery;
use temporal_lens::shmem::NUM_ENTRIES;

fn frame(number: u64) -> FrameData {
    FrameData { number, end: number * 10, duration: 3 }
}

fn drain(payload: &mut Payload<FrameData>) -> (usize, usize, Vec<FrameData>) {
    let mut out = vec![FrameData::new(); NUM_ENTRIES];
    let (retrieved, lost) = payload.retrieve(&mut out);
    (retrieved, lost, out)
}

#[test]
fn push_then_retrieve_returns_entries_in_order() {
    let mut payload = Payload::new(FrameData::new());
    assert!(payload.push(&frame(1)));
    assert!(payload.push(&frame(2)));
    assert!(payload.push(&frame(3)));
    assert_eq!(payload.size(), 3);
    let (retrieved, lost, out) = drain(&mut payload);
    assert_eq!((retrieved, lost), (3, 0));
    assert_eq!(out[0].number, 1);
    assert_eq!(out[1].number, 2);
    assert_eq!(out[2].number, 3);
    assert_eq!(out[2].end, 30);
    assert_eq!(out[2].duration, 3);
    assert_eq!(out[3].number, 0);
    assert_eq!(payload.size(), 0);
}

#[test]
fn new_payload_is_empty() {
    let mut payload = Payload::new(frame(9));
    assert_eq!(payload.size(), 0);
    let (retrieved, lost, _) = drain(&mut payload);
    assert_eq!((retrieved, lost), (0, 0));
}

#[test]
fn drain_accounts_for_every_push() {
    for pushes in [0usize, 1, 2, 255, 256, 257, 300, 1000] {
        let mut payload = Payload::new(FrameData::new());
        for n in 0..pushes {
            payload.push(&frame(n as u64));
        }
        let (retrieved, lost, _) = drain(&mut payload);
        assert_eq!(retrieved, pushes.min(NUM_ENTRIES));
        assert_eq!(lost, pushes.saturating_sub(NUM_ENTRIES));
        assert_eq!(retrieved + lost, pushes);
    }
}

#[test]
fn two_drains_of_an_empty_payload_report_nothing() {
    let mut payload = Payload::new(FrameData::new());
    let (retrieved, lost, _) = drain(&mut payload);
    assert_eq!((retrieved, lost), (0, 0));
    let (retrieved, lost, _) = drain(&mut payload);
    assert_eq!((retrieved, lost), (0, 0));
}

#[test]
fn second_drain_after_pushes_reports_nothing() {
    let mut payload = Payload::new(FrameData::new());
    for n in 0..5 {
        payload.push(&frame(n));
    }
    let (retrieved, lost, _) = drain(&mut payload);
    assert_eq!((retrieved, lost), (5, 0));
    let (retrieved, lost, _) = drain(&mut payload);
    assert_eq!((retrieved, lost), (0, 0));
    let (retrieved, lost, _) = drain(&mut payload);
    assert_eq!((retrieved, lost), (0, 0));
}

#[test]
fn exactly_num_entries_pushes_are_stored() {
    let mut payload = Payload::new(FrameData::new());
    for n in 0..NUM_ENTRIES {
        assert!(payload.push(&frame(n as u64)), "push {} was not stored", n);
    }
    assert_eq!(payload.size(), NUM_ENTRIES);
    assert!(!payload.push(&frame(1000)));
    assert_eq!(payload.size(), NUM_ENTRIES + 1);
    assert!(!payload.push(&frame(1001)));
    assert_eq!(payload.size(), NUM_ENTRIES + 2);
    let (retrieved, lost, out) = drain(&mut payload);
    assert_eq!((retrieved, lost), (256, 2));
    assert_eq!(out[0].number, 0);
    assert_eq!(out[255].number, 255);
}

#[test]
fn a_push_that_finds_no_room_leaves_the_slots_alone() {
    let mut payload = Payload::new(FrameData::new());
    for n in 0..NUM_ENTRIES {
        payload.push(&frame(n as u64));
    }
    payload.push(&frame(7777));
    let (_, _, out) = drain(&mut payload);
    for n in 0..NUM_ENTRIES {
        assert_eq!(out[n].number, n as u64);
    }
}

#[test]
fn retrieve_leaves_the_rest_of_the_destination_alone() {
    let mut payload = Payload::new(FrameData::new());
    payload.push(&frame(1));
    payload.push(&frame(2));
    let mut out = vec![frame(99); NUM_ENTRIES + 10];
    let (retrieved, lost) = payload.retrieve(&mut out);
    assert_eq!((retrieved, lost), (2, 0));
    assert_eq!(out[0].number, 1);
    assert_eq!(out[1].number, 2);
    for n in 2..NUM_ENTRIES + 10 {
        assert_eq!(out[n].number, 99);
    }
}

#[test]
fn payload_can_be_refilled_after_a_drain() {
    let mut payload = Payload::new(FrameData::new());
    for n in 0..300 {
        payload.push(&frame(n));
    }
    let (retrieved, lost, _) = drain(&mut payload);
    assert_eq!((retrieved, lost), (256, 44));
    assert!(payload.push(&frame(5)));
    let (retrieved, lost, out) = drain(&mut payload);
    assert_eq!((retrieved, lost), (1, 0));
    assert_eq!(out[0].number, 5);
    assert_eq!(out[1].number, 0);
}

#[test]
fn init_empties_a_payload_and_frees_its_lock() {
    let mut payload = Payload::new(FrameData::new());
    payload.push(&frame(1));
    assert!(payload.lock().try_lock());
    payload.init();
    assert_eq!(payload.size(), 0);
    assert!(payload.lock().try_lock());
    payload.lock().unlock();
}

#[test]
fn heap_events_pass_through_unchanged() {
    let mut payload = Payload::new(HeapData::new());
    let event = HeapData { time: 12, addr: 0x1000, size: 64, is_free: true };
    assert!(payload.push(&event));
    let mut out = vec![HeapData::new(); NUM_ENTRIES];
    let (retrieved, lost) = payload.retrieve(&mut out);
    assert_eq!((retrieved, lost), (1, 0));
    assert_eq!(out[0].time, 12);
    assert_eq!(out[0].addr, 0x1000);
    assert_eq!(out[0].size, 64);
    assert!(out[0].is_free);
}

#[test]
fn frame_query_stops_past_the_window() {
    let f = FrameData { number: 1, end: 100, duration: 30 };
    assert!(f.should_stop_query(100, 69));
    assert!(!f.should_stop_query(100, 70));
    assert!(!f.should_stop_query(100, 71));
    assert!(!f.should_stop_query(20, 0));
    assert!(f.should_stop_query(31, 0));
    assert!(!f.should_stop_query(0, 0));
}

#[test]
fn lock_hands_out_the_channels_own_lock() {
    let payload = Payload::new(FrameData::new());
    let other = Payload::new(FrameData::new());
    assert!(std::ptr::eq(payload.lock(), payload.lock()));
    assert!(!std::ptr::eq(payload.lock(), other.lock()));
    assert!(payload.lock().try_lock());
    assert!(!payload.lock().try_lock());
    assert!(other.lock().try_lock());
    payload.lock().unlock();
    assert!(payload.lock().try_lock());
}
