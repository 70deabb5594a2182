use sequencer_engine::channels::{
    command_dequeue, command_queue, hot_dequeue, hot_event_channel, large_dequeue, large_event_channel, overflow_event,
    push_command, push_hot_slot, push_large_event,
};
use sequencer_engine::command::Command;
use sequencer_engine::event::EngineEvent;
use sequencer_engine::midi_out::{HotEventSlot, COMMAND_DEPTH, HOT_EVENT_DEPTH, LARGE_EVENT_DEPTH};

#[test]
fn large_channel_round_trips_owned_serialized_event() {
    let mut ch = large_event_channel();
    let bytes = vec![0xABu8; 256];
    let ev = EngineEvent::Serialized { bytes };
    let dropped = push_large_event(&mut ch, ev.clone());
    assert_eq!(dropped, 0);
    let back = large_dequeue(&mut ch).expect("one large event");
    assert_eq!(back, ev);
    assert!(large_dequeue(&mut ch).is_none(), "channel drained");
}

#[test]
fn large_channel_drops_oldest_when_full() {
    let mut ch = large_event_channel();
    for i in 0..(LARGE_EVENT_DEPTH + 1) {
        let dropped = push_large_event(&mut ch, EngineEvent::Serialized { bytes: vec![i as u8] });
        if i < LARGE_EVENT_DEPTH {
            assert_eq!(dropped, 0, "push {i} should fit");
        } else {
            assert_eq!(dropped, 1, "push {i} should drop oldest");
        }
    }
    for expected in 1..=(LARGE_EVENT_DEPTH as u8) {
        match large_dequeue(&mut ch) {
            Some(EngineEvent::Serialized { bytes }) => {
                assert_eq!(bytes, vec![expected]);
            },
            other => panic!("expected Serialized{{ {expected} }}, got {other:?}"),
        }
    }
    assert!(large_dequeue(&mut ch).is_none(), "channel drained");
}

#[test]
fn command_queue_drops_oldest_and_reports_overflow() {
    let mut q = command_queue();
    for i in 0..COMMAND_DEPTH {
        assert_eq!(push_command(&mut q, Command::SetBpm { bpm: i as u64 }), 0);
        assert!(overflow_event(0).is_none());
    }
    let dropped = push_command(&mut q, Command::SetBpm { bpm: 999 });
    assert_eq!(dropped, 1);
    assert_eq!(overflow_event(dropped), Some(EngineEvent::Overflow { dropped: 1 }));
    // the oldest (bpm 0) is gone; 1 ..= 63 then 999 remain, in order
    for expected in 1..COMMAND_DEPTH as u64 {
        assert!(matches!(command_dequeue(&mut q), Some(Command::SetBpm { bpm }) if bpm == expected));
    }
    assert!(matches!(command_dequeue(&mut q), Some(Command::SetBpm { bpm: 999 })));
    assert!(command_dequeue(&mut q).is_none());
}

#[test]
fn hot_channel_drops_oldest_when_full() {
    let mut ch = hot_event_channel();
    for i in 0..=HOT_EVENT_DEPTH {
        let mut bytes = [0u8; 128];
        bytes[0] = i as u8;
        let dropped = push_hot_slot(&mut ch, HotEventSlot { len: 1, bytes });
        assert_eq!(dropped, if i < HOT_EVENT_DEPTH { 0 } else { 1 });
    }
    for expected in 1..=(HOT_EVENT_DEPTH as u8) {
        let slot = hot_dequeue(&mut ch).expect("slot");
        assert_eq!((slot.len, slot.bytes[0]), (1, expected));
    }
    assert!(hot_dequeue(&mut ch).is_none());
}
