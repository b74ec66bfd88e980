//! Frame encoding: a raw frame in, a JPEG payload out.

use crate::error::AppError;
use crate::frame::{packed_rows, EncodedFrame, EncodedFrameView, RawFrame, RawFrameView};
use vstd::prelude::*;
use vstd::string::StringExecFns;

verus! {

/// The longest side, in pixels, that the encoded format can record.
pub const MAX_ENCODED_SIDE: u32 = 65535;

/// Why a frame was not encoded. Such a failure costs the one frame only.
#[derive(Debug)]
pub enum EncodeError {
    /// The frame has no pixels.
    EmptyFrame,
    /// A side of the frame is longer than `MAX_ENCODED_SIDE`.
    TooLarge,
    /// The codec gave up, with its own words for why.
    Codec(String),
}

/// The bytes start with the JPEG start-of-image marker and end with the
/// end-of-image marker.
pub open spec fn jpeg_framed(bytes: Seq<u8>) -> bool {
    &&& bytes.len() >= 4
    &&& bytes[0] == 0xFF
    &&& bytes[1] == 0xD8
    &&& bytes[bytes.len() - 2] == 0xFF
    &&& bytes[bytes.len() - 1] == 0xD9
}

/// Why a frame was not encoded, with the codec's words as plain text.
pub enum EncodeFailure {
    EmptyFrame,
    TooLarge,
    Codec(Seq<char>),
}

impl View for EncodeError {
    type V = EncodeFailure;

    open spec fn view(&self) -> EncodeFailure {
        match self {
            EncodeError::EmptyFrame => EncodeFailure::EmptyFrame,
            EncodeError::TooLarge => EncodeFailure::TooLarge,
            EncodeError::Codec(reason) => EncodeFailure::Codec(reason@),
        }
    }
}

/// The codec's answer with its values taken by their views.
pub open spec fn outcome_view(outcome: Result<Vec<u8>, String>) -> Result<Seq<u8>, Seq<char>> {
    match outcome {
        Ok(bytes) => Ok(bytes@),
        Err(reason) => Err(reason@),
    }
}

/// An encoding's result with its values taken by their views.
pub open spec fn encoded_view(encoded: Result<EncodedFrame, EncodeError>) -> Result<
    EncodedFrameView,
    EncodeFailure,
> {
    match encoded {
        Ok(frame) => Ok(frame@),
        Err(e) => Err(e@),
    }
}

/// The result of encoding a picture of `width` by `height` pixels at
/// `quality` for which the codec answered `outcome`: its bytes tagged with
/// size and quality, or its failure.
pub open spec fn encoded_as(
    outcome: Result<Seq<u8>, Seq<char>>,
    width: nat,
    height: nat,
    quality: nat,
) -> Result<EncodedFrameView, EncodeFailure> {
    match outcome {
        Ok(payload) => Ok(EncodedFrameView { payload, width, height, quality }),
        Err(reason) => Err(EncodeFailure::Codec(reason)),
    }
}

/// The bytes that `image`'s JPEG encoder writes for a picture of `width`
/// by `height` pixels, given as tightly packed RGBA `pixels`, at `quality`.
pub uninterp spec fn jpeg_bytes(pixels: Seq<u8>, width: u32, height: u32, quality: u8) -> Seq<u8>;

/// Runs `image`'s JPEG encoder (`JpegEncoder::new_with_quality`, then
/// `encode` with colour type RGBA8) over tightly packed pixels, writing
/// into a vector. The encoder panics unless the buffer holds exactly
/// `width * height` pixels, hence the precondition. It fails only when a
/// side does not fit 16 bits or a write fails, and a write into a vector
/// does not fail: so a picture with both sides within
/// `MAX_ENCODED_SIDE` is encoded. The bytes depend on the arguments alone;
/// the start marker is written first and the end marker last. An error
/// comes back as its `Display` text.
#[verifier::external_body]
fn jpeg_encode(pixels: &Vec<u8>, width: u32, height: u32, quality: u8) -> (outcome: Result<
    Vec<u8>,
    String,
>)
    requires
        pixels@.len() == 4 * width * height,
    ensures
        width <= MAX_ENCODED_SIDE && height <= MAX_ENCODED_SIDE ==> outcome is Ok,
        outcome matches Ok(bytes) ==> bytes@ == jpeg_bytes(pixels@, width, height, quality)
            && jpeg_framed(bytes@),
{
    let mut bytes: Vec<u8> = Vec::new();
    let done = image::codecs::jpeg::JpegEncoder::new_with_quality(&mut bytes, quality).encode(
        pixels,
        width,
        height,
        image::ColorType::Rgba8,
    );
    match done {
        Ok(()) => Ok(bytes),
        Err(e) => Err(e.to_string()),
    }
}

/// The result of encoding `frame` at `quality`: a frame without pixels is
/// refused as empty, one with a side over `MAX_ENCODED_SIDE` as too large,
/// and any other becomes the codec's bytes for its packed pixels, tagged
/// with its size and the quality.
pub open spec fn encoding_of(frame: RawFrameView, quality: u8) -> Result<
    EncodedFrameView,
    EncodeFailure,
> {
    if frame.width == 0 || frame.height == 0 {
        Err(EncodeFailure::EmptyFrame)
    } else if frame.width > MAX_ENCODED_SIDE || frame.height > MAX_ENCODED_SIDE {
        Err(EncodeFailure::TooLarge)
    } else {
        Ok(
            EncodedFrameView {
                payload: jpeg_bytes(
                    packed_rows(frame.rows, frame.height),
                    frame.width as u32,
                    frame.height as u32,
                    quality,
                ),
                width: frame.width,
                height: frame.height,
                quality: quality as nat,
            },
        )
    }
}

/// Makes the encoded frame, or the error, out of what the codec answered.
pub fn finish_encode(outcome: Result<Vec<u8>, String>, width: u32, height: u32, quality: u8) -> (
    encoded: Result<EncodedFrame, EncodeError>
)
    ensures
        encoded_view(encoded) == encoded_as(
            outcome_view(outcome),
            width as nat,
            height as nat,
            quality as nat,
        ),
{
    match outcome {
        Ok(bytes) => Ok(EncodedFrame::new(bytes, width, height, quality)),
        Err(reason) => Err(EncodeError::Codec(reason)),
    }
}

/// Encodes `frame` as a JPEG at `quality`.
///
/// A frame without pixels is refused as `EmptyFrame`, one with a side over
/// `MAX_ENCODED_SIDE` as `TooLarge`, both without asking the codec. Every
/// other frame is encoded: its packed RGBA pixels go to the codec, and the
/// payload that comes back, framed as a JPEG, is tagged with the frame's
/// size and the quality.
pub fn encode(frame: &RawFrame, quality: u8) -> (encoded: Result<EncodedFrame, EncodeError>)
    requires
        frame.wf(),
        1 <= quality <= 100,
    ensures
        encoded_view(encoded) == encoding_of(frame@, quality),
        encoded is Ok <==> 1 <= frame@.width <= MAX_ENCODED_SIDE && 1 <= frame@.height
            <= MAX_ENCODED_SIDE,
        encoded matches Ok(out) ==> jpeg_framed(out@.payload),
{
    let width: u32 = frame.width();
    let height: u32 = frame.height();
    if width == 0 || height == 0 {
        return Err(EncodeError::EmptyFrame);
    }
    if width > MAX_ENCODED_SIDE || height > MAX_ENCODED_SIDE {
        return Err(EncodeError::TooLarge);
    }
    let pixels = frame.packed();
    let outcome = jpeg_encode(&pixels, width, height, quality);
    finish_encode(outcome, width, height, quality)
}

impl EncodeError {
    /// The failure in words.
    pub open spec fn text(&self) -> Seq<char> {
        match self {
            EncodeError::EmptyFrame => "frame has no pixels"@,
            EncodeError::TooLarge => "frame is too large"@,
            EncodeError::Codec(reason) => reason@,
        }
    }

    /// The failure as a capture error that says what could not be done.
    pub fn into_app_error(self) -> (e: AppError)
        ensures
            e matches AppError::CaptureError(m) && m@ == "Failed to encode JPEG: "@ + self.text(),
    {
        let prefix = String::from_str("Failed to encode JPEG: ");
        match self {
            EncodeError::EmptyFrame => AppError::CaptureError(prefix.concat("frame has no pixels")),
            EncodeError::TooLarge => AppError::CaptureError(prefix.concat("frame is too large")),
            EncodeError::Codec(reason) => AppError::CaptureError(prefix.concat(reason.as_str())),
        }
    }
}

} // verus!
