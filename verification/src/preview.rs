//! Decoder for the vendor's binary preview-frame message: a one-byte tag
//! followed by R,G,B triplets, one per pixel.
use vstd::prelude::*;

use crate::message::{spec_message_type_of, PixelblazeMessageType};
use crate::pixel::{PixelFrame, Rgb, GRID_PIXELS};

verus! {

/// Failure of the preview-frame decoder. Never fatal to the session: the
/// receive loop logs it and goes on.
#[derive(Clone, Copy, Debug, PartialEq, Eq, Structural)]
pub enum PreviewFrameErr {
    Invalid,
}

/// A payload is a well-formed preview-frame message when it is long enough,
/// its tag names a preview frame, and the bytes after the tag form whole
/// R,G,B triplets.
pub open spec fn valid_preview_payload(payload: Seq<u8>) -> bool {
    &&& payload.len() >= 4
    &&& spec_message_type_of(payload[0]) is PreviewFrame
    &&& (payload.len() - 1) % 3 == 0
}

/// The `i`-th pixel encoded in a valid payload: the triplet starting right
/// after the tag byte.
pub open spec fn payload_pixel(payload: Seq<u8>, i: int) -> Rgb {
    Rgb { r: payload[1 + 3 * i], g: payload[2 + 3 * i], b: payload[3 + 3 * i] }
}

/// Number of whole triplets a valid payload encodes.
pub open spec fn payload_triplets(payload: Seq<u8>) -> int {
    (payload.len() - 1) / 3
}

/// The pixels a valid payload decodes to: its triplets in order, truncated to
/// the grid capacity.
pub open spec fn preview_pixels(payload: Seq<u8>) -> Seq<Rgb> {
    Seq::new(
        if payload_triplets(payload) <= GRID_PIXELS {
            payload_triplets(payload) as nat
        } else {
            GRID_PIXELS as nat
        },
        |i: int| payload_pixel(payload, i),
    )
}

/// Decode a preview-frame payload into a pixel frame.
///
/// Succeeds exactly on well-formed payloads. Of the `k` encoded triplets the
/// first `min(k, GRID_PIXELS)` become the frame's pixels in order; triplets
/// beyond the grid capacity are dropped without error. On error no partial
/// frame escapes.
pub fn decode_preview_frame(payload: &[u8]) -> (r: Result<PixelFrame, PreviewFrameErr>)
    ensures
        r is Ok <==> valid_preview_payload(payload@),
        r matches Ok(frame) ==> {
            &&& frame.wf()
            &&& frame@.len() == if payload_triplets(payload@) <= GRID_PIXELS {
                payload_triplets(payload@)
            } else {
                GRID_PIXELS as int
            }
            &&& forall|i: int| 0 <= i < frame@.len() ==> frame@[i] == payload_pixel(payload@, i)
            &&& frame@ =~= preview_pixels(payload@)
        },
        r matches Err(e) ==> e == PreviewFrameErr::Invalid,
{
    if payload.len() < 4 {
        return Err(PreviewFrameErr::Invalid);
    }
    let tag = PixelblazeMessageType::from(payload[0]);
    if tag != PixelblazeMessageType::PreviewFrame {
        return Err(PreviewFrameErr::Invalid);
    }
    let rgb_bytes = payload.len() - 1;
    if rgb_bytes % 3 != 0 {
        return Err(PreviewFrameErr::Invalid);
    }
    let triplets = rgb_bytes / 3;
    let count = if triplets < GRID_PIXELS {
        triplets
    } else {
        GRID_PIXELS
    };
    let mut pixels: Vec<Rgb> = Vec::new();
    let mut i: usize = 0;
    while i < count
        invariant
            count <= triplets,
            triplets == payload_triplets(payload@),
            3 * triplets + 1 == payload@.len(),
            i <= count,
            count <= GRID_PIXELS,
            pixels@.len() == i,
            forall|j: int| 0 <= j < i ==> pixels@[j] == payload_pixel(payload@, j),
        decreases count - i,
    {
        let base = 1 + 3 * i;
        let p = Rgb { r: payload[base], g: payload[base + 1], b: payload[base + 2] };
        pixels.push(p);
        i = i + 1;
    }
    Ok(PixelFrame { pixels })
}

} // verus!
