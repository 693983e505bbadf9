//! Trusted boundary to the GIF container crate.
//!
//! Decoding a palette-indexed container is the one piece of outside work in
//! atlas construction.  Its outcome is named by [`gif_decode`]: a function
//! of the input bytes alone, yielding — when the container decodes at all —
//! whether a global palette is present and the first frame's pixel bytes.

use vstd::prelude::*;

verus! {

#[verifier::external_type_specification]
#[verifier::external_body]
pub struct ExColorTableConfig(gift::block::ColorTableConfig);

#[verifier::external_type_specification]
#[verifier::external_body]
pub struct ExGlobalColorTable(gift::block::GlobalColorTable);

/// What decoding a byte buffer as a single-frame palette-indexed container
/// yields: `None` when the preamble or the frame cannot be decoded, and
/// otherwise whether a global palette is present together with the frame's
/// decoded pixel bytes.  The outcome depends on the bytes alone.
pub uninterp spec fn gif_decode(data: Seq<u8>) -> Option<(bool, Seq<u8>)>;

/// Whether the container decodes at all.
pub open spec fn decode_ok(data: Seq<u8>) -> bool {
    gif_decode(data) is Some
}

/// Whether the decoded container carries a global palette.
pub open spec fn decoded_palette_present(data: Seq<u8>) -> bool {
    (gif_decode(data)->Some_0).0
}

/// The decoded frame's pixel bytes, row-major.
pub open spec fn decoded_pixels(data: Seq<u8>) -> Seq<u8> {
    (gif_decode(data)->Some_0).1
}

/// Relies on gift's `Decoder::new`, `Decoder::into_frames`,
/// `Frames::preamble`, `Frames::next` and `ImageData::data` to read the
/// preamble and the first frame of a GIF byte buffer.  The decode chain is
/// deterministic in the bytes; the decoder itself guarantees that the
/// returned pixel buffer holds exactly the frame's pixel count.
#[verifier::external_body]
pub(crate) fn decode_gif_frame(data: &Vec<u8>) -> (r: Option<
    (gift::block::ColorTableConfig, Option<gift::block::GlobalColorTable>, Vec<u8>),
>)
    ensures
        r is Some <==> gif_decode(data@) is Some,
        r matches Some(t) ==> (t.1 is Some) == (gif_decode(data@)->Some_0).0 && t.2@ == (
        gif_decode(data@)->Some_0).1,
{
    let mut frames = gift::Decoder::new(data.as_slice()).into_frames();
    let preamble = match frames.preamble() {
        Ok(Some(p)) => p,
        _ => return None,
    };
    let frame = match frames.next() {
        Some(Ok(f)) => f,
        _ => return None,
    };
    Some((
        preamble.logical_screen_desc.color_table_config(),
        preamble.global_color_table,
        frame.image_data.data().to_vec(),
    ))
}

} // verus!
