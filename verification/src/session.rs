//! Session-internal control commands, the session error type, and the shared
//! counters with the step logic of the three session loops.
use vstd::prelude::*;

use vstd::string::StringSliceAdditionalSpecFns;
use vstd::string::StrSliceExecFns;

use crate::codec::encode_frame;
use crate::codec::frame_bytes;
use crate::codec::WsFrameHeader;
use crate::codec::WsFrameType;
use crate::codec::MAX_FRAME_PAYLOAD;
use crate::preview::decode_preview_frame;
use crate::preview::preview_pixels;
use crate::preview::valid_preview_payload;
use crate::queue::ControlQueue;
use crate::queue::DisplaySink;
use crate::queue::CONTROL_QUEUE_DEPTH;
use crate::rng::next_mask_key;

verus! {

/// How long the supervisor waits after a failed attempt or a finished
/// session before reconnecting, in milliseconds.
pub const RECONNECT_BACKOFF_MS: u64 = 5000;

/// The monitor loop's fixed interval between throughput checks, in
/// milliseconds.
pub const MONITOR_INTERVAL_MS: u64 = 10000;

/// Pause between the session-setup commands, in milliseconds.
pub const SETUP_DELAY_MS: u64 = 500;

/// Pause between the frames of the pattern-activation exchange, in
/// milliseconds.
pub const ACTIVATE_DELAY_MS: u64 = 100;

/// Commands flowing through the bounded control queue. Produced by the
/// receive loop (reply to a ping, close), the monitor loop (re-subscribe),
/// and session setup (request the configuration); consumed exactly once by
/// the send loop.
#[derive(Clone, Copy, Debug, PartialEq, Eq, Structural)]
pub enum Control {
    SendPong,
    SubscribePreviewFrames,
    GetConfig,
    Close,
    SetActivePattern,
}

/// Outcome of a session loop. `Close` is the controlled termination after a
/// close frame; `Error` covers transport and protocol failures. Either way
/// the supervisor tears the session down and retries after its backoff.
#[derive(Clone, Copy, Debug, PartialEq, Eq, Structural)]
pub enum Error {
    Error,
    Close,
}

/// The subscription request that asks the pattern source to push preview
/// frames, as UTF-8 bytes.
pub open spec fn subscribe_updates_text() -> Seq<u8> {
    "{\"sendUpdates\":true}".spec_bytes()
}

/// The configuration request sent at session setup.
pub open spec fn get_config_text() -> Seq<u8> {
    "{\"getConfig\":true}".spec_bytes()
}

/// The three texts of the pattern-activation exchange, in send order.
pub open spec fn set_active_pattern_texts() -> Seq<Seq<u8>> {
    seq![
        "{\"setActivePattern\":\"kuJfFyCSkCKNasyNE\"}".spec_bytes(),
        "{\"setControls\":{}}".spec_bytes(),
        "{\"pause\":false}".spec_bytes(),
    ]
}

/// One frame the send loop is to put on the wire: kind and unmasked payload.
#[derive(Clone, Debug)]
pub struct OutboundFrame {
    pub frame_type: WsFrameType,
    pub payload: Vec<u8>,
}

/// What the send loop does with one dequeued command: the frames to write in
/// order, and whether the loop ends afterwards.
#[derive(Debug)]
pub struct SendStep {
    pub frames: Vec<OutboundFrame>,
    pub exit: Option<Error>,
}

/// What the receive loop does with one received frame beyond its own state
/// changes: the command to enqueue, if any, and whether the loop ends.
#[derive(Clone, Copy, Debug, PartialEq, Eq, Structural)]
pub struct RecvStep {
    pub command: Option<Control>,
    pub exit: Option<Error>,
}

/// Shared session state: counters written by the receive loop and read by
/// the monitor loop, and the pattern currently activated by the send loop.
/// Counters start at zero at session creation and never decrease.
#[derive(Debug)]
pub struct Session {
    pub received_frames: u64,
    pub dropped_frames: u64,
    pub current_pattern_id: Option<String>,
    pub current_pattern_name: Option<String>,
}

impl Session {
    /// A fresh session: zero counters, no active pattern.
    pub fn new() -> (s: Session)
        ensures
            s.received_frames == 0,
            s.dropped_frames == 0,
            s.current_pattern_id is None,
            s.current_pattern_name is None,
    {
        Session {
            received_frames: 0,
            dropped_frames: 0,
            current_pattern_id: None,
            current_pattern_name: None,
        }
    }

    /// Forward one decoded preview frame to the display sink without ever
    /// blocking: a free sink takes the frame and the received counter grows
    /// by one; a full sink drops it and the dropped counter grows by one —
    /// exactly one of the two, per attempt.
    pub fn handle_preview_frame(
        &mut self,
        frame: crate::pixel::PixelFrame,
        sink: &mut DisplaySink,
    ) -> (accepted: bool)
        requires
            old(self).received_frames < u64::MAX,
            old(self).dropped_frames < u64::MAX,
        ensures
            accepted <==> old(sink)@ is None,
            accepted ==> final(sink)@ == Some(frame@) && final(self).received_frames == old(self).received_frames + 1 && final(self).dropped_frames == old(self).dropped_frames,
            !accepted ==> final(sink)@ == old(sink)@ && final(self).dropped_frames == old(self).dropped_frames + 1 && final(self).received_frames == old(self).received_frames,
            final(self).current_pattern_id == old(self).current_pattern_id,
            final(self).current_pattern_name == old(self).current_pattern_name,
    {
        if sink.try_enqueue(frame) {
            self.received_frames = self.received_frames + 1;
            true
        } else {
            self.dropped_frames = self.dropped_frames + 1;
            false
        }
    }

    /// One step of the receive loop: dispatch one received frame.
    ///
    /// A binary frame holding a well-formed preview payload goes to the
    /// display sink (with the counter effects of `handle_preview_frame`); any
    /// other binary payload is observed and ignored. A ping asks the send
    /// loop for a pong; a close frame asks it to close and ends this loop.
    /// Text, pong and continuation frames change nothing.
    pub fn receive_step(
        &mut self,
        frame_type: WsFrameType,
        payload: &[u8],
        sink: &mut DisplaySink,
    ) -> (r: RecvStep)
        requires
            old(self).received_frames < u64::MAX,
            old(self).dropped_frames < u64::MAX,
        ensures
            r.command == (if frame_type is Ping {
                Some(Control::SendPong)
            } else if frame_type is Close {
                Some(Control::Close)
            } else {
                None::<Control>
            }),
            r.exit == (if frame_type is Close {
                Some(Error::Close)
            } else {
                None::<Error>
            }),
            frame_type is Binary && valid_preview_payload(payload@) ==> {
                &&& old(sink)@ is None ==> final(sink)@ == Some(preview_pixels(payload@)) && final(self).received_frames == old(self).received_frames + 1 && final(self).dropped_frames
                    == old(self).dropped_frames
                &&& old(sink)@ is Some ==> final(sink)@ == old(sink)@ && final(self).dropped_frames
                    == old(self).dropped_frames + 1 && final(self).received_frames == old(self).received_frames
            },
            !(frame_type is Binary && valid_preview_payload(payload@)) ==> final(sink)@ == old(sink)@ && final(self).received_frames == old(self).received_frames && final(self).dropped_frames == old(self).dropped_frames,
            final(self).current_pattern_id == old(self).current_pattern_id,
            final(self).current_pattern_name == old(self).current_pattern_name,
    {
        match frame_type {
            WsFrameType::Binary(_) => {
                match decode_preview_frame(payload) {
                    Ok(frame) => {
                        self.handle_preview_frame(frame, sink);
                    },
                    Err(_) => {},
                }
                RecvStep { command: None, exit: None }
            },
            WsFrameType::Ping => RecvStep { command: Some(Control::SendPong), exit: None },
            WsFrameType::Close => RecvStep {
                command: Some(Control::Close),
                exit: Some(Error::Close),
            },
            _ => RecvStep { command: None, exit: None },
        }
    }

    /// One step of the send loop: turn one dequeued command into the frames
    /// to write, in order. A pong reply and a close are bare control frames;
    /// the subscription and configuration commands are single text messages;
    /// activating a pattern sends three text messages and records the
    /// pattern's id and name. Only a close command ends the loop.
    pub fn send_step(&mut self, command: Control) -> (r: SendStep)
        ensures
            r.exit == (if command is Close {
                Some(Error::Close)
            } else {
                None::<Error>
            }),
            command is SendPong ==> r.frames@.len() == 1 && r.frames@[0].frame_type == (
            WsFrameType::Pong) && r.frames@[0].payload@ == Seq::<u8>::empty(),
            command is SubscribePreviewFrames ==> r.frames@.len() == 1 && r.frames@[0].frame_type
                == (WsFrameType::Text(false)) && r.frames@[0].payload@ == subscribe_updates_text(),
            command is GetConfig ==> r.frames@.len() == 1 && r.frames@[0].frame_type == (
            WsFrameType::Text(false)) && r.frames@[0].payload@ == get_config_text(),
            command is Close ==> r.frames@.len() == 1 && r.frames@[0].frame_type == (
            WsFrameType::Close) && r.frames@[0].payload@ == Seq::<u8>::empty(),
            command is SetActivePattern ==> r.frames@.len() == 3 && (forall|i: int|
                0 <= i < 3 ==> r.frames@[i].frame_type == (WsFrameType::Text(false))
                    && r.frames@[i].payload@ == set_active_pattern_texts()[i]),
            command is SetActivePattern ==> (final(self).current_pattern_id matches Some(id)
                && id@ == "kuJfFyCSkCKNasyNE"@) && (final(self).current_pattern_name matches Some(name) && name@ == "Editor: blink fade"@),
            !(command is SetActivePattern) ==> final(self).current_pattern_id == old(self).current_pattern_id && final(self).current_pattern_name == old(self).current_pattern_name,
            final(self).received_frames == old(self).received_frames,
            final(self).dropped_frames == old(self).dropped_frames,
    {
        match command {
            Control::SendPong => SendStep {
                frames: vec![OutboundFrame { frame_type: WsFrameType::Pong, payload: Vec::new() }],
                exit: None,
            },
            Control::SubscribePreviewFrames => SendStep {
                frames: vec![
                    OutboundFrame {
                        frame_type: WsFrameType::Text(false),
                        payload: "{\"sendUpdates\":true}".as_bytes_vec(),
                    },
                ],
                exit: None,
            },
            Control::GetConfig => SendStep {
                frames: vec![
                    OutboundFrame {
                        frame_type: WsFrameType::Text(false),
                        payload: "{\"getConfig\":true}".as_bytes_vec(),
                    },
                ],
                exit: None,
            },
            Control::SetActivePattern => {
                self.current_pattern_id = Some("kuJfFyCSkCKNasyNE".to_owned());
                self.current_pattern_name = Some("Editor: blink fade".to_owned());
                SendStep {
                    frames: vec![
                        OutboundFrame {
                            frame_type: WsFrameType::Text(false),
                            payload: "{\"setActivePattern\":\"kuJfFyCSkCKNasyNE\"}".as_bytes_vec(),
                        },
                        OutboundFrame {
                            frame_type: WsFrameType::Text(false),
                            payload: "{\"setControls\":{}}".as_bytes_vec(),
                        },
                        OutboundFrame {
                            frame_type: WsFrameType::Text(false),
                            payload: "{\"pause\":false}".as_bytes_vec(),
                        },
                    ],
                    exit: None,
                }
            },
            Control::Close => SendStep {
                frames: vec![OutboundFrame { frame_type: WsFrameType::Close, payload: Vec::new() }],
                exit: Some(Error::Close),
            },
        }
    }
}

/// The command session setup enqueues once the connection is up: ask the
/// pattern source for its configuration.
pub fn session_setup_command() -> (c: Control)
    ensures
        c == Control::GetConfig,
{
    Control::GetConfig
}

/// Encode one outbound frame for the wire with a fresh random mask key, as
/// the client role demands. Which key was drawn is not specified; the bytes
/// are the frame's exact encoding under some key.
pub fn encode_outbound(frame: &OutboundFrame, rng: &mut rand::rngs::SmallRng) -> (r: Vec<u8>)
    requires
        frame.payload@.len() <= MAX_FRAME_PAYLOAD,
    ensures
        exists|k: u32|
            r@ == frame_bytes(
                WsFrameHeader {
                    frame_type: frame.frame_type,
                    payload_len: frame.payload@.len() as u64,
                    mask_key: Some(k),
                },
                frame.payload@,
            ),
{
    let key = next_mask_key(rng);
    let header = WsFrameHeader {
        frame_type: frame.frame_type,
        payload_len: frame.payload.len() as u64,
        mask_key: Some(key),
    };
    encode_frame(&header, frame.payload.as_slice())
}

/// State of the monitor loop: the counter values it saw at its last tick.
#[derive(Clone, Copy, Debug, PartialEq, Eq, Structural)]
pub struct MonitorState {
    pub last_received_frames: u64,
    pub last_dropped_frames: u64,
}

/// What one monitor tick observed: the counter deltas over the interval.
#[derive(Clone, Copy, Debug, PartialEq, Eq, Structural)]
pub struct MonitorTick {
    pub received_delta: u64,
    pub dropped_delta: u64,
    pub subscribed: bool,
}

impl MonitorState {
    /// Monitor state at session start: nothing seen yet.
    pub fn new() -> (s: MonitorState)
        ensures
            s.last_received_frames == 0,
            s.last_dropped_frames == 0,
    {
        MonitorState { last_received_frames: 0, last_dropped_frames: 0 }
    }

    /// One tick of the monitor loop, run once per interval: compute the
    /// counter deltas since the last tick and, when not even one frame
    /// arrived in the whole interval, re-arm the stream by enqueueing one —
    /// and only one — subscription command, without blocking. The monitor
    /// never ends the session.
    pub fn tick(
        &mut self,
        received_frames: u64,
        dropped_frames: u64,
        queue: &mut ControlQueue,
    ) -> (t: MonitorTick)
        requires
            old(self).last_received_frames <= received_frames,
            old(self).last_dropped_frames <= dropped_frames,
            old(queue).wf(),
        ensures
            final(queue).wf(),
            t.received_delta == received_frames - old(self).last_received_frames,
            t.dropped_delta == dropped_frames - old(self).last_dropped_frames,
            t.subscribed <==> t.received_delta < 1,
            final(self).last_received_frames == received_frames,
            final(self).last_dropped_frames == dropped_frames,
            t.subscribed && old(queue)@.len() < CONTROL_QUEUE_DEPTH ==> final(queue)@ =~= old(queue)@.push(Control::SubscribePreviewFrames),
            t.subscribed && old(queue)@.len() >= CONTROL_QUEUE_DEPTH ==> final(queue)@ =~= old(queue)@,
            !t.subscribed ==> final(queue)@ =~= old(queue)@,
    {
        let received_delta = received_frames - self.last_received_frames;
        let dropped_delta = dropped_frames - self.last_dropped_frames;
        self.last_received_frames = received_frames;
        self.last_dropped_frames = dropped_frames;
        let subscribed = received_delta < 1;
        if subscribed {
            let _ = queue.try_send(Control::SubscribePreviewFrames);
        }
        MonitorTick { received_delta, dropped_delta, subscribed }
    }
}

} // verus!
