use pixelblaze_stream::{
    decode_frame, encode_outbound, session_setup_command, Control, ControlQueue, DisplaySink,
    Error, MonitorState, Rgb, Session, WsFrameType, CONTROL_QUEUE_DEPTH,
};
use rand::SeedableRng;

fn rng() -> rand::rngs::SmallRng {
    rand::rngs::SmallRng::seed_from_u64(42)
}

#[test]
fn control_queue_is_fifo_and_bounded() {
    let mut queue = ControlQueue::new();
    assert_eq!(queue.len(), 0);
    assert!(queue.try_send(Control::GetConfig));
    assert!(queue.try_send(Control::SendPong));
    assert_eq!(queue.try_receive(), Some(Control::GetConfig));
    assert_eq!(queue.try_receive(), Some(Control::SendPong));
    assert_eq!(queue.try_receive(), None);
    for _ in 0..CONTROL_QUEUE_DEPTH {
        assert!(queue.try_send(Control::SendPong));
    }
    // the queue is full now: the next command is refused, not queued
    assert!(!queue.try_send(Control::Close));
    assert_eq!(queue.len(), CONTROL_QUEUE_DEPTH);
}

#[test]
fn drain_empties_stale_commands() {
    let mut queue = ControlQueue::new();
    queue.try_send(Control::SendPong);
    queue.try_send(Control::Close);
    queue.drain();
    assert_eq!(queue.len(), 0);
    assert_eq!(queue.try_receive(), None);
}

#[test]
fn full_sink_drops_and_counts_exactly_once() {
    let mut session = Session::new();
    let mut sink = DisplaySink::new();
    let first = pixelblaze_stream::decode_preview_frame(&[5, 1, 2, 3]).unwrap();
    let second = pixelblaze_stream::decode_preview_frame(&[5, 4, 5, 6]).unwrap();
    let third = pixelblaze_stream::decode_preview_frame(&[5, 7, 8, 9]).unwrap();

    assert!(session.handle_preview_frame(first, &mut sink));
    assert_eq!(session.received_frames, 1);
    assert_eq!(session.dropped_frames, 0);

    // the sink still holds the first frame: the next two are dropped,
    // one counter increment per attempt
    assert!(!session.handle_preview_frame(second, &mut sink));
    assert_eq!(session.received_frames, 1);
    assert_eq!(session.dropped_frames, 1);
    assert!(!session.handle_preview_frame(third, &mut sink));
    assert_eq!(session.dropped_frames, 2);

    // the consumer drains the slot: the stored frame is the first one
    let stored = sink.take().unwrap();
    assert_eq!(stored.get(0), Rgb { r: 1, g: 2, b: 3 });
    assert!(sink.take().is_none());
}

#[test]
fn receive_step_decodes_preview_into_sink() {
    let mut session = Session::new();
    let mut sink = DisplaySink::new();
    let step = session.receive_step(
        WsFrameType::Binary(false),
        &[5, 10, 0, 0, 0, 10, 0],
        &mut sink,
    );
    assert_eq!(step.command, None);
    assert_eq!(step.exit, None);
    assert_eq!(session.received_frames, 1);
    let frame = sink.take().unwrap();
    assert_eq!(frame.len(), 2);
    assert_eq!(frame.get(0), Rgb { r: 10, g: 0, b: 0 });
    assert_eq!(frame.get(1), Rgb { r: 0, g: 10, b: 0 });
}

#[test]
fn receive_step_ignores_bad_preview_and_other_tags() {
    let mut session = Session::new();
    let mut sink = DisplaySink::new();
    // not divisible by three: logged, not fatal, nothing enqueued
    let step = session.receive_step(WsFrameType::Binary(false), &[5, 1, 2, 3, 4, 5], &mut sink);
    assert_eq!(step.exit, None);
    // another message kind: observed only
    let step = session.receive_step(WsFrameType::Binary(false), &[7, 1, 2, 3], &mut sink);
    assert_eq!(step.exit, None);
    // an empty binary payload carries no tag at all
    let step = session.receive_step(WsFrameType::Binary(false), &[], &mut sink);
    assert_eq!(step.exit, None);
    assert_eq!(session.received_frames, 0);
    assert_eq!(session.dropped_frames, 0);
    assert!(sink.take().is_none());
}

#[test]
fn receive_step_text_pong_continue_change_nothing() {
    let mut session = Session::new();
    let mut sink = DisplaySink::new();
    for frame_type in [
        WsFrameType::Text(false),
        WsFrameType::Pong,
        WsFrameType::Continue(true),
        WsFrameType::Continue(false),
    ] {
        let step = session.receive_step(frame_type, b"whatever", &mut sink);
        assert_eq!(step.command, None);
        assert_eq!(step.exit, None);
    }
    assert_eq!(session.received_frames, 0);
    assert!(sink.take().is_none());
}

#[test]
fn receive_step_close_requests_close_and_exits() {
    let mut session = Session::new();
    let mut sink = DisplaySink::new();
    let step = session.receive_step(WsFrameType::Close, &[], &mut sink);
    assert_eq!(step.command, Some(Control::Close));
    assert_eq!(step.exit, Some(Error::Close));
}

#[test]
fn ping_becomes_exactly_one_pong_on_the_wire() {
    // a ping received by the receive loop yields one reply command,
    // which the send loop turns into one pong frame
    let mut session = Session::new();
    let mut sink = DisplaySink::new();
    let mut queue = ControlQueue::new();

    let step = session.receive_step(WsFrameType::Ping, &[], &mut sink);
    assert_eq!(step.exit, None);
    assert!(queue.try_send(step.command.unwrap()));
    assert_eq!(queue.len(), 1);

    let command = queue.try_receive().unwrap();
    assert_eq!(command, Control::SendPong);
    assert_eq!(queue.try_receive(), None);

    let plan = session.send_step(command);
    assert_eq!(plan.exit, None);
    assert_eq!(plan.frames.len(), 1);
    let bytes = encode_outbound(&plan.frames[0], &mut rng());
    let (header, payload, _) = decode_frame(&bytes).unwrap();
    assert_eq!(header.frame_type, WsFrameType::Pong);
    assert_eq!(payload.len(), 0);
}

#[test]
fn wire_frame_lands_on_the_grid() {
    // a complete unmasked binary preview frame, as the pattern source sends
    // it, from wire bytes to the display sink
    let wire = [0x82u8, 0x07, 5, 10, 0, 0, 0, 10, 0];
    let (header, payload, consumed) = decode_frame(&wire).unwrap();
    assert_eq!(consumed, wire.len());
    let mut session = Session::new();
    let mut sink = DisplaySink::new();
    let step = session.receive_step(header.frame_type, &payload, &mut sink);
    assert_eq!(step.exit, None);
    let frame = sink.take().unwrap();
    assert_eq!(frame.len(), 2);
    assert_eq!(frame.get(0), Rgb { r: 10, g: 0, b: 0 });
    assert_eq!(frame.get(1), Rgb { r: 0, g: 10, b: 0 });
}

#[test]
fn send_step_texts_match_commands() {
    let mut session = Session::new();
    let plan = session.send_step(Control::SubscribePreviewFrames);
    assert_eq!(plan.frames.len(), 1);
    assert_eq!(plan.frames[0].frame_type, WsFrameType::Text(false));
    assert_eq!(plan.frames[0].payload, b"{\"sendUpdates\":true}");
    assert_eq!(plan.exit, None);

    let plan = session.send_step(Control::GetConfig);
    assert_eq!(plan.frames[0].payload, b"{\"getConfig\":true}");

    let plan = session.send_step(Control::SetActivePattern);
    assert_eq!(plan.frames.len(), 3);
    assert_eq!(
        plan.frames[0].payload,
        b"{\"setActivePattern\":\"kuJfFyCSkCKNasyNE\"}"
    );
    assert_eq!(plan.frames[1].payload, b"{\"setControls\":{}}");
    assert_eq!(plan.frames[2].payload, b"{\"pause\":false}");
    assert_eq!(session.current_pattern_id.as_deref(), Some("kuJfFyCSkCKNasyNE"));
    assert_eq!(session.current_pattern_name.as_deref(), Some("Editor: blink fade"));
}

#[test]
fn send_step_close_ends_the_loop() {
    let mut session = Session::new();
    let plan = session.send_step(Control::Close);
    assert_eq!(plan.exit, Some(Error::Close));
    assert_eq!(plan.frames.len(), 1);
    assert_eq!(plan.frames[0].frame_type, WsFrameType::Close);
    let bytes = encode_outbound(&plan.frames[0], &mut rng());
    let (header, payload, _) = decode_frame(&bytes).unwrap();
    assert_eq!(header.frame_type, WsFrameType::Close);
    assert!(payload.is_empty());
}

#[test]
fn setup_asks_for_configuration() {
    assert_eq!(session_setup_command(), Control::GetConfig);
}

#[test]
fn monitor_rearms_once_per_quiet_interval() {
    // no frames at all: each tick enqueues exactly one subscribe command
    let mut monitor = MonitorState::new();
    let mut queue = ControlQueue::new();
    let tick = monitor.tick(0, 0, &mut queue);
    assert!(tick.subscribed);
    assert_eq!(tick.received_delta, 0);
    assert_eq!(queue.len(), 1);
    assert_eq!(queue.try_receive(), Some(Control::SubscribePreviewFrames));

    let tick = monitor.tick(0, 0, &mut queue);
    assert!(tick.subscribed);
    assert_eq!(queue.len(), 1);
    assert_eq!(queue.try_receive(), Some(Control::SubscribePreviewFrames));
    assert_eq!(queue.try_receive(), None);
}

#[test]
fn monitor_stays_quiet_while_frames_flow() {
    let mut monitor = MonitorState::new();
    let mut queue = ControlQueue::new();
    let tick = monitor.tick(30, 2, &mut queue);
    assert!(!tick.subscribed);
    assert_eq!(tick.received_delta, 30);
    assert_eq!(tick.dropped_delta, 2);
    assert_eq!(queue.len(), 0);

    // one more frame since the last tick: still active
    let tick = monitor.tick(31, 2, &mut queue);
    assert!(!tick.subscribed);
    assert_eq!(tick.received_delta, 1);
    assert_eq!(queue.len(), 0);

    // stalled stream: deltas are zero, one re-arm command
    let tick = monitor.tick(31, 2, &mut queue);
    assert!(tick.subscribed);
    assert_eq!(tick.received_delta, 0);
    assert_eq!(queue.len(), 1);
}
