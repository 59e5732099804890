//! The image step: decode the downloaded bytes as a JPEG, derive a thumbnail
//! bounded by 128x128 with the aspect ratio preserved, and re-encode it as a
//! JPEG. The original bytes are handed back untouched.
use vstd::prelude::*;

verus! {

/// The dimensions that decoding `bytes` as a JPEG yields, or nothing where
/// the bytes are not a well-formed JPEG.
pub uninterp spec fn jpeg_dims(bytes: Seq<u8>) -> Option<(u32, u32)>;

/// The JPEG-encoded thumbnail derived from `bytes` (meaningful where
/// `jpeg_dims(bytes)` is some): a function of the input bytes alone.
pub uninterp spec fn jpeg_thumb(bytes: Seq<u8>) -> Seq<u8>;

/// Relies on image::load_from_memory_with_format to decode a JPEG,
/// DynamicImage::thumbnail to downscale into a 128x128 bounding box
/// preserving the aspect ratio (its result never exceeds the box and never
/// has a zero dimension), and DynamicImage::write_to to re-encode as JPEG,
/// which accepts every image the JPEG decoder yields and keeps its
/// dimensions. All three compute from the input bytes alone.
#[verifier::external_body]
fn jpeg_thumbnail(input: &Vec<u8>) -> (r: Result<Vec<u8>, String>)
    ensures
        r is Ok <==> jpeg_dims(input@) is Some,
        r matches Ok(t) ==> t@ == jpeg_thumb(input@),
        r is Ok ==> (jpeg_dims(jpeg_thumb(input@)) matches Some(d) && 1 <= d.0 <= 128 && 1 <= d.1
            <= 128),
{
    let img = match ::image::load_from_memory_with_format(
        input.as_slice(),
        ::image::ImageFormat::Jpeg,
    ) {
        Ok(img) => img,
        Err(e) => {
            return Err(format!("{}", e));
        },
    };
    let thumb = img.thumbnail(128, 128);
    let mut out: Vec<u8> = Vec::new();
    match thumb.write_to(&mut std::io::Cursor::new(&mut out), ::image::ImageFormat::Jpeg) {
        Ok(()) => Ok(out),
        Err(e) => Err(format!("{}", e)),
    }
}

/// Processes one downloaded image: yields the original bytes unmodified
/// together with the bounded thumbnail, or the decode failure's description.
pub fn process_image(input_bytes: Vec<u8>) -> (r: Result<(Vec<u8>, Vec<u8>), String>)
    ensures
        r is Ok <==> jpeg_dims(input_bytes@) is Some,
        r matches Ok(p) ==> p.0@ == input_bytes@ && p.1@ == jpeg_thumb(input_bytes@),
        r is Ok ==> (jpeg_dims(jpeg_thumb(input_bytes@)) matches Some(d) && 1 <= d.0 <= 128 && 1
            <= d.1 <= 128),
{
    match jpeg_thumbnail(&input_bytes) {
        Ok(thumb) => Ok((input_bytes, thumb)),
        Err(e) => Err(e),
    }
}

/// Processing the same input twice yields the same thumbnail, so in
/// particular one with identical dimensions.
pub proof fn lemma_process_image_deterministic(input: Seq<u8>, first: Seq<u8>, second: Seq<u8>)
    requires
        first == jpeg_thumb(input),
        second == jpeg_thumb(input),
    ensures
        first == second,
        jpeg_dims(first) == jpeg_dims(second),
{
}

} // verus!
