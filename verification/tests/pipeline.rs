use video_pipeline::channel::{Packet, PacketChannel, RecvOutcome, SendOutcome};
use video_pipeline::demux::{filter_container, DemuxAction, DemuxDriver, ReadEvent};
use video_pipeline::frame::DisplayBuffer;
use video_pipeline::host::{open_stream, DisplaySlot, MediaKind, PlayerError, StreamInfo};
use video_pipeline::worker::{
    ControlCommand, PacingEvent, PacingStep, VideoDecoder, WorkerState, WorkerStep,
};

fn packet(stream_index: usize, pts: i64) -> Packet {
    Packet { stream_index, data: vec![0xAB, 0xCD], pts: Some(pts), dts: Some(pts) }
}

#[test]
fn channel_full_hands_packet_back() {
    let mut chan = PacketChannel::new(2);
    assert!(matches!(chan.try_send(packet(0, 0)), SendOutcome::Sent));
    assert!(matches!(chan.try_send(packet(0, 1)), SendOutcome::Sent));
    match chan.try_send(packet(0, 2)) {
        SendOutcome::Full(back) => assert_eq!(back.pts, Some(2)),
        _ => panic!("a full channel must refuse and return the packet"),
    }
    assert_eq!(chan.len(), 2);
}

#[test]
fn channel_delivers_in_order_then_disconnects() {
    let mut chan = PacketChannel::new(4);
    for pts in 0..3 {
        assert!(matches!(chan.try_send(packet(0, pts)), SendOutcome::Sent));
    }
    chan.close_sender();
    for pts in 0..3 {
        match chan.try_recv() {
            RecvOutcome::Received(p) => assert_eq!(p.pts, Some(pts)),
            _ => panic!("queued packets stay deliverable after the sender closes"),
        }
    }
    assert!(matches!(chan.try_recv(), RecvOutcome::Disconnected));
}

#[test]
fn channel_empty_while_sender_attached() {
    let mut chan = PacketChannel::new(4);
    assert!(matches!(chan.try_recv(), RecvOutcome::Empty));
}

#[test]
fn channel_closed_receiver_refuses_packets() {
    let mut chan = PacketChannel::new(4);
    chan.close_receiver();
    match chan.try_send(packet(0, 9)) {
        SendOutcome::Closed(back) => assert_eq!(back.pts, Some(9)),
        _ => panic!("a closed channel must return the packet"),
    }
}

#[test]
fn backpressure_loses_no_packet() {
    // counted producer, slow consumer, capacity far under the sequence length
    let mut worker = VideoDecoder::start(4);
    let mut delivered: Vec<i64> = Vec::new();
    for pts in 0..10i64 {
        let mut p = packet(0, pts);
        loop {
            match worker.receive_packet(p) {
                SendOutcome::Sent => break,
                SendOutcome::Full(back) => {
                    p = back;
                    match worker.next_step() {
                        WorkerStep::Decode(q) => delivered.push(q.pts.unwrap()),
                        _ => panic!("a playing worker with queued packets decodes"),
                    }
                }
                SendOutcome::Closed(_) => panic!("worker is alive"),
            }
        }
    }
    // drain the rest
    worker.end_of_input();
    loop {
        match worker.next_step() {
            WorkerStep::Decode(q) => delivered.push(q.pts.unwrap()),
            WorkerStep::Exit => break,
            _ => panic!("unexpected wait"),
        }
    }
    // every packet arrived, in order
    assert_eq!(delivered, (0..10).collect::<Vec<i64>>());
}

#[test]
fn worker_terminates_after_sender_dropped() {
    let mut worker = VideoDecoder::start(8);
    worker.end_of_input();
    // the next loop iteration observes the disconnect and exits
    assert!(matches!(worker.next_step(), WorkerStep::Exit));
    assert!(matches!(worker.state(), WorkerState::Terminated));
    // the disconnect is the normal end, nothing is reported
    let mut other = VideoDecoder::start(8);
    let report = other.absorb_error(&PlayerError::ChannelClosed);
    assert!(!report);
    assert!(matches!(other.state(), WorkerState::Terminated));
}

#[test]
fn worker_drains_queue_before_terminating() {
    let mut worker = VideoDecoder::start(8);
    assert!(matches!(worker.receive_packet(packet(0, 5)), SendOutcome::Sent));
    worker.end_of_input();
    match worker.next_step() {
        WorkerStep::Decode(p) => assert_eq!(p.pts, Some(5)),
        _ => panic!("queued packet must still be decoded"),
    }
    assert!(matches!(worker.next_step(), WorkerStep::Exit));
}

#[test]
fn worker_control_transitions() {
    let mut worker = VideoDecoder::start(8);
    assert!(matches!(worker.state(), WorkerState::Playing));
    worker.send_control_message(ControlCommand::Pause);
    assert!(matches!(worker.state(), WorkerState::Paused));
    // paused: no packet is consumed, the worker waits on control alone
    assert!(matches!(worker.next_step(), WorkerStep::WaitControl));
    worker.send_control_message(ControlCommand::Play);
    assert!(matches!(worker.state(), WorkerState::Playing));
    worker.send_control_message(ControlCommand::Stop);
    assert!(matches!(worker.state(), WorkerState::Terminated));
    // terminated is absorbing
    worker.send_control_message(ControlCommand::Play);
    assert!(matches!(worker.state(), WorkerState::Terminated));
    assert!(matches!(worker.next_step(), WorkerStep::Exit));
    // and the producer sees the closed channel
    match worker.receive_packet(packet(0, 0)) {
        SendOutcome::Closed(back) => assert_eq!(back.pts, Some(0)),
        _ => panic!("a terminated worker accepts no packet"),
    }
}

#[test]
fn stop_mid_wait_preempts_the_delay() {
    // a long pacing delay is under way; Stop must act now, not after it
    let mut worker = VideoDecoder::start(8);
    let step = worker.pacing_wait(PacingEvent::ControlArrived(ControlCommand::Stop));
    assert!(matches!(step, PacingStep::Abandon));
    assert!(matches!(worker.state(), WorkerState::Terminated));
}

#[test]
fn pause_mid_wait_presents_frame_and_holds() {
    let mut worker = VideoDecoder::start(8);
    let step = worker.pacing_wait(PacingEvent::ControlArrived(ControlCommand::Pause));
    assert!(matches!(step, PacingStep::Deliver));
    assert!(matches!(worker.state(), WorkerState::Paused));
    assert!(matches!(worker.next_step(), WorkerStep::WaitControl));
}

#[test]
fn undisturbed_wait_delivers() {
    let mut worker = VideoDecoder::start(8);
    assert!(matches!(worker.pacing_wait(PacingEvent::DelayElapsed), PacingStep::Deliver));
    assert!(matches!(worker.state(), WorkerState::Playing));
    let step = worker.pacing_wait(PacingEvent::ControlArrived(ControlCommand::Play));
    assert!(matches!(step, PacingStep::KeepWaiting));
}

#[test]
fn decode_error_is_reported_and_skipped() {
    let mut worker = VideoDecoder::start(8);
    let report = worker.absorb_error(&PlayerError::DecodeError);
    assert!(report);
    assert!(matches!(worker.state(), WorkerState::Playing));
    // anything unclassified mid-stream is fatal to the session
    let report = worker.absorb_error(&PlayerError::OpenError);
    assert!(report);
    assert!(matches!(worker.state(), WorkerState::Terminated));
}

#[test]
fn error_kinds_classify() {
    assert!(PlayerError::OpenError.is_fatal_at_open());
    assert!(PlayerError::UnsupportedStreamError.is_fatal_at_open());
    assert!(PlayerError::DecoderInitError.is_fatal_at_open());
    assert!(!PlayerError::DecodeError.is_fatal_at_open());
    assert!(PlayerError::DecodeError.is_recoverable());
    assert!(!PlayerError::ChannelClosed.is_recoverable());
    assert!(PlayerError::ChannelClosed.is_normal_termination());
    assert!(!PlayerError::DecodeError.is_normal_termination());
}

#[test]
fn demux_forwards_only_selected_stream() {
    let mut driver = DemuxDriver::new(1);
    match driver.on_read(ReadEvent::Packet(packet(1, 0))) {
        DemuxAction::Forward(p) => assert_eq!(p.stream_index, 1),
        other => panic!("expected a forward, got {:?}", other),
    }
    assert!(matches!(driver.on_read(ReadEvent::Packet(packet(0, 0))), DemuxAction::Skip));
    assert!(matches!(driver.on_read(ReadEvent::EndOfStream), DemuxAction::Finish));
    // finished: even a packet read yields no more forwards
    assert!(matches!(driver.on_read(ReadEvent::Packet(packet(1, 1))), DemuxAction::Finish));
}

#[test]
fn demux_read_error_finishes() {
    let mut driver = DemuxDriver::new(0);
    assert!(matches!(driver.on_read(ReadEvent::ReadError), DemuxAction::Finish));
    assert!(matches!(driver.on_read(ReadEvent::Packet(packet(0, 0))), DemuxAction::Finish));
}

#[test]
fn filter_keeps_container_order() {
    let container = vec![
        packet(2, 10),
        packet(1, 0),
        packet(2, 11),
        packet(1, 1),
        packet(1, 2),
        packet(0, 99),
    ];
    let selected = filter_container(container, 1);
    let pts: Vec<i64> = selected.iter().map(|p| p.pts.unwrap()).collect();
    assert_eq!(pts, vec![0, 1, 2]);
    assert!(selected.iter().all(|p| p.stream_index == 1));
}

#[test]
fn open_prefers_first_video_stream() {
    let streams = vec![
        StreamInfo { kind: MediaKind::Audio, time_base_num: 1, time_base_den: 48000 },
        StreamInfo { kind: MediaKind::Video, time_base_num: 1, time_base_den: 25 },
        StreamInfo { kind: MediaKind::Video, time_base_num: 1, time_base_den: 30 },
    ];
    let opened = open_stream(&streams).unwrap();
    assert_eq!(opened.stream_index, 1);
    assert_eq!(opened.clock.convert_pts_to_instant(Some(25), 0), Some(1_000_000));
}

#[test]
fn open_without_video_is_unsupported() {
    let streams = vec![
        StreamInfo { kind: MediaKind::Audio, time_base_num: 1, time_base_den: 48000 },
        StreamInfo { kind: MediaKind::Other, time_base_num: 1, time_base_den: 1 },
    ];
    match open_stream(&streams) {
        Err(PlayerError::UnsupportedStreamError) => {}
        other => panic!("expected an unsupported-stream error, got {:?}", other),
    }
    match open_stream(&Vec::new()) {
        Err(PlayerError::UnsupportedStreamError) => {}
        other => panic!("expected an unsupported-stream error, got {:?}", other),
    }
}

#[test]
fn open_with_degenerate_time_base_fails_at_init() {
    let streams = vec![StreamInfo { kind: MediaKind::Video, time_base_num: 1, time_base_den: 0 }];
    match open_stream(&streams) {
        Err(PlayerError::DecoderInitError) => {}
        other => panic!("expected a decoder-init error, got {:?}", other),
    }
}

#[test]
fn display_slot_swaps_whole_buffers() {
    let first = DisplayBuffer { width: 1, height: 1, data: vec![1, 2, 3] };
    let mut slot = DisplaySlot::new(first);
    assert_eq!(slot.current_frame().data, vec![1, 2, 3]);
    slot.publish(DisplayBuffer { width: 1, height: 1, data: vec![4, 5, 6] });
    let seen = slot.current_frame();
    assert_eq!(seen.width, 1);
    assert_eq!(seen.data, vec![4, 5, 6]);
}

#[test]
fn end_to_end_synthetic_source() {
    // a synthetic 10 second, 25 fps source: one audio stream, one video stream
    let streams = vec![
        StreamInfo { kind: MediaKind::Audio, time_base_num: 1, time_base_den: 48000 },
        StreamInfo { kind: MediaKind::Video, time_base_num: 1, time_base_den: 25 },
    ];
    let opened = open_stream(&streams).unwrap();
    let mut container = Vec::new();
    for pts in 0..250i64 {
        container.push(packet(0, pts * 1920));
        container.push(packet(1, pts));
    }
    let selected = filter_container(container, opened.stream_index);
    assert_eq!(selected.len(), 250);

    let mut worker = VideoDecoder::start(128);
    let mut delivered: Vec<i64> = Vec::new();
    for p in selected {
        let mut p = p;
        loop {
            match worker.receive_packet(p) {
                SendOutcome::Sent => break,
                SendOutcome::Full(back) => {
                    p = back;
                    match worker.next_step() {
                        WorkerStep::Decode(q) => delivered.push(q.pts.unwrap()),
                        _ => panic!("expected a decode step"),
                    }
                }
                SendOutcome::Closed(_) => panic!("worker is alive"),
            }
        }
    }
    worker.end_of_input();
    loop {
        match worker.next_step() {
            WorkerStep::Decode(q) => delivered.push(q.pts.unwrap()),
            WorkerStep::Exit => break,
            _ => panic!("expected decode or exit"),
        }
    }
    assert!(matches!(worker.state(), WorkerState::Terminated));
    assert_eq!(delivered.len(), 250);
    for (i, pts) in delivered.iter().enumerate() {
        assert_eq!(*pts, i as i64);
    }

    // the first five delivered frames, paced from the start instant
    let mut delays: Vec<u64> = Vec::new();
    for pts in &delivered[..5] {
        delays.push(opened.clock.convert_pts_to_instant(Some(*pts), 0).unwrap());
    }
    assert_eq!(delays, vec![0, 40_000, 80_000, 120_000, 160_000]);
}
