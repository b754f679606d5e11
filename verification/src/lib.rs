//! Core of a streaming client that feeds a fixed-size LED grid from a remote
//! pattern source over a WebSocket tunnel: frame codec, handshake checks,
//! preview-frame decoding, bounded queues, and the session step logic.
pub mod animate;
pub mod codec;
pub mod handshake;
pub mod message;
pub mod pixel;
pub mod preview;
pub mod queue;
pub mod rng;
pub mod session;

pub use animate::pattern_frame;
pub use animate::wait_animation_frame;
pub use animate::wait_animation_pattern;
pub use animate::RGBPattern;
pub use animate::ANIMATION_BRIGHTNESS;
pub use animate::WAIT_ANIMATION_SLEEP_MS;
pub use codec::decode_frame;
pub use codec::encode_frame;
pub use codec::FrameDecodeErr;
pub use codec::WsFrameHeader;
pub use codec::WsFrameType;
pub use codec::MAX_FRAME_PAYLOAD;
pub use handshake::build_upgrade_request;
pub use handshake::check_upgrade_response;
pub use handshake::handshake_request;
pub use handshake::scan_head_end;
pub use handshake::verify_upgrade_response;
pub use handshake::split_head_lines;
pub use handshake::HandshakeError;
pub use handshake::WS_HOST;
pub use handshake::WS_ORIGIN;
pub use handshake::WS_URI;
pub use message::PixelblazeMessageType;
pub use pixel::GRID_PIXELS;
pub use pixel::PixelFrame;
pub use pixel::Rgb;
pub use preview::decode_preview_frame;
pub use preview::PreviewFrameErr;
pub use queue::ControlQueue;
pub use queue::DisplaySink;
pub use queue::CONTROL_QUEUE_DEPTH;
pub use session::encode_outbound;
pub use session::session_setup_command;
pub use session::Control;
pub use session::Error;
pub use session::MonitorState;
pub use session::MonitorTick;
pub use session::OutboundFrame;
pub use session::RecvStep;
pub use session::SendStep;
pub use session::Session;
pub use session::ACTIVATE_DELAY_MS;
pub use session::MONITOR_INTERVAL_MS;
pub use session::RECONNECT_BACKOFF_MS;
pub use session::SETUP_DELAY_MS;
