//! Tagged wire messages: the first byte of a binary payload names the message
//! kind; every byte maps to a kind, unrecognized values land in `Unknown`.
use vstd::prelude::*;

verus! {

/// Kinds of application-level messages carried in binary WebSocket frames.
/// Only `PreviewFrame` is acted on by this library; the rest are observed.
#[derive(Clone, Copy, Debug, PartialEq, Eq, Structural)]
pub enum PixelblazeMessageType {
    PutSourceCode,
    PutByteCode,
    PreviewImage,
    GetProgramList,
    PutPixelMap,
    PreviewFrame,
    GetSourceCode,
    ExpanderConfig,
    Unknown(u8),
}

/// The total tag-to-kind mapping: every byte has a kind, with `Unknown(tag)`
/// as the catch-all, so no input can be rejected here.
pub open spec fn spec_message_type_of(tag: u8) -> PixelblazeMessageType {
    match tag {
        1u8 => PixelblazeMessageType::PutSourceCode,
        3u8 => PixelblazeMessageType::PutByteCode,
        4u8 => PixelblazeMessageType::PreviewImage,
        5u8 => PixelblazeMessageType::PreviewFrame,
        6u8 => PixelblazeMessageType::GetSourceCode,
        7u8 => PixelblazeMessageType::GetProgramList,
        8u8 => PixelblazeMessageType::PutPixelMap,
        9u8 => PixelblazeMessageType::ExpanderConfig,
        v => PixelblazeMessageType::Unknown(v),
    }
}

impl From<u8> for PixelblazeMessageType {
    fn from(value: u8) -> (r: Self) {
        match value {
            1u8 => Self::PutSourceCode,
            3u8 => Self::PutByteCode,
            4u8 => Self::PreviewImage,
            5u8 => Self::PreviewFrame,
            6u8 => Self::GetSourceCode,
            7u8 => Self::GetProgramList,
            8u8 => Self::PutPixelMap,
            9u8 => Self::ExpanderConfig,
            v => Self::Unknown(v),
        }
    }
}

impl vstd::std_specs::convert::FromSpecImpl<u8> for PixelblazeMessageType {
    open spec fn obeys_from_spec() -> bool {
        true
    }

    open spec fn from_spec(value: u8) -> Self {
        spec_message_type_of(value)
    }
}

} // verus!
