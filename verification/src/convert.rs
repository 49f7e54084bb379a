//! The per-file conversion pipeline: decode the file's bytes (the source
//! format is guessed from the content, never from the name) and, outside a
//! dry run, re-encode them in the target format. The codec work is done by
//! the `image` crate behind trusted wrappers; everything around the calls
//! is verified.
//!
//! Whether a given byte sequence decodes is not a function of the bytes:
//! the crate's guess and decode steps consult its process-global, runtime-
//! mutable hook registries. So nothing is promised of which bytes decode;
//! [`finish_conversion`] takes the decode outcome as an argument and is
//! verified for every value of it. Encoding an already decoded image, by
//! contrast, depends only on the image and the chosen format, so its
//! result bears a name that the contracts are exact over.

use vstd::prelude::*;
use crate::mode::TargetFormat;
use crate::summary::Event;

verus! {

#[verifier::external_type_specification]
#[verifier::external_body]
pub struct ExDynamicImage(image::DynamicImage);

#[verifier::external_type_specification]
#[verifier::external_body]
pub struct ExImageError(image::ImageError);

/// What `image::DynamicImage::write_to` produces for this image in this
/// format, into an in-memory buffer: `Some` with the encoded bytes, or
/// `None` when that encoder refuses the image. The encoders are picked by
/// format alone and consult no global state, so the result is a function
/// of the two arguments.
pub uninterp spec fn encode_result(img: image::DynamicImage, format: TargetFormat) -> Option<
    Seq<u8>,
>;

/// Relies on image::load_from_memory: tries to guess the format from the
/// content and decode. Guess and decode both consult the crate's
/// registered hooks, which any code in the process may change at run
/// time, so nothing is promised of which bytes succeed.
#[verifier::external_body]
fn decode_image(data: &Vec<u8>) -> Option<image::DynamicImage> {
    image::load_from_memory(data).ok()
}

/// Relies on image::DynamicImage::write_to: encodes the image in the
/// given format into an in-memory buffer, a result that depends on the
/// image and the format alone.
#[verifier::external_body]
fn encode_image(img: &image::DynamicImage, format: TargetFormat) -> (r: Result<
    Vec<u8>,
    image::ImageError,
>)
    ensures
        r is Ok <==> encode_result(*img, format) is Some,
        r matches Ok(b) ==> Some(b@) == encode_result(*img, format),
{
    let f = match format {
        TargetFormat::Png => image::ImageFormat::Png,
        TargetFormat::Gif => image::ImageFormat::Gif,
        TargetFormat::Jpeg => image::ImageFormat::Jpeg,
    };
    let mut cursor = std::io::Cursor::new(Vec::new());
    match img.write_to(&mut cursor, f) {
        Ok(()) => Ok(cursor.into_inner()),
        Err(e) => Err(e),
    }
}

/// Relies on the std Display implementation of image::ImageError (through
/// `format!`) to render the error as text for the diagnostic line.
#[verifier::external_body]
fn error_text(e: &image::ImageError) -> String {
    format!("{}", e)
}

/// How the conversion of one file's bytes ended.
pub enum Conversion {
    /// The codec did not recognize the bytes as an image; the file is
    /// passed over in silence.
    NotAnImage,
    /// The bytes decoded and this is a dry run: nothing is encoded or
    /// written, but the file counts as converted.
    DryRun,
    /// The bytes decoded and re-encoded; the payload is the output file's
    /// content.
    Done(Vec<u8>),
    /// The bytes decoded but could not be encoded in the target format;
    /// the payload is the diagnostic text.
    Failed(String),
}

/// The result a real (non-dry) run owes for a decoded image: `Done` with
/// exactly the encoded bytes when the encoder accepts the image, `Failed`
/// when it refuses it.
pub open spec fn encoded_outcome(img: image::DynamicImage, format: TargetFormat, r: Conversion) -> bool {
    &&& (r is Done <==> encode_result(img, format) is Some)
    &&& (r matches Conversion::Done(b) ==> Some(b@) == encode_result(img, format))
}

/// Everything `finish_conversion` owes of its outcome, given how the
/// decode went: `NotAnImage` exactly on unrecognized bytes, `DryRun`
/// exactly on a decoded image in a dry run, and otherwise the encoder's
/// outcome for the decoded image.
pub open spec fn finish_post(
    decoded: Option<image::DynamicImage>,
    format: TargetFormat,
    dry_run: bool,
    r: Conversion,
) -> bool {
    &&& (r is NotAnImage <==> decoded is None)
    &&& (r is DryRun <==> decoded is Some && dry_run)
    &&& ((r is Done || r is Failed) <==> decoded is Some && !dry_run)
    &&& (!dry_run ==> (decoded matches Some(img) ==> encoded_outcome(img, format, r)))
}

/// Turn the outcome of the decode step into the conversion's result:
/// encode in the target format, unless the decode failed or this is a dry
/// run. Verified for every value the decoder can hand back.
pub fn finish_conversion(
    decoded: Option<image::DynamicImage>,
    format: TargetFormat,
    dry_run: bool,
) -> (r: Conversion)
    ensures
        finish_post(decoded, format, dry_run, r),
        r matches Conversion::Done(b) ==> exists|img: image::DynamicImage|
            #[trigger] encode_result(img, format) == Some(b@),
{
    match decoded {
        None => Conversion::NotAnImage,
        Some(img) => {
            if dry_run {
                Conversion::DryRun
            } else {
                match encode_image(&img, format) {
                    Ok(bytes) => {
                        proof {
                            assert(encode_result(img, format) == Some(bytes@));
                        }
                        Conversion::Done(bytes)
                    },
                    Err(e) => Conversion::Failed(error_text(&e)),
                }
            }
        },
    }
}

/// What `convert_image` owes whatever the decoder did: a dry run never
/// carries output bytes or a diagnostic, and only a dry run reports
/// `DryRun`.
pub open spec fn conversion_post(dry_run: bool, r: Conversion) -> bool {
    &&& (dry_run ==> !(r is Done) && !(r is Failed))
    &&& (r is DryRun ==> dry_run)
}

/// Convert one file's bytes to the target format, or report why not.
/// Which bytes decode rests with the codec and its hooks; whatever it
/// decides, the outcome is `finish_conversion`'s for that decision, and a
/// `Done` payload is an encode result in the target format.
pub fn convert_image(data: &Vec<u8>, format: TargetFormat, dry_run: bool) -> (r: Conversion)
    ensures
        conversion_post(dry_run, r),
        r matches Conversion::Done(b) ==> exists|img: image::DynamicImage|
            #[trigger] encode_result(img, format) == Some(b@),
{
    let decoded = decode_image(data);
    finish_conversion(decoded, format, dry_run)
}

/// The event a conversion outcome contributes to the summary. `wrote`
/// reports whether the output file was written; it only matters for
/// `Done`, whose bytes still have to reach the disk.
pub open spec fn spec_event_for(r: Conversion, wrote: bool) -> Event {
    match r {
        Conversion::NotAnImage => Event::NotAnImage,
        Conversion::DryRun => Event::Converted,
        Conversion::Done(_) => if wrote {
            Event::Converted
        } else {
            Event::SaveFailed
        },
        Conversion::Failed(_) => Event::SaveFailed,
    }
}

/// Map a conversion outcome to its summary event.
pub fn event_for(r: &Conversion, wrote: bool) -> (ev: Event)
    ensures
        ev == spec_event_for(*r, wrote),
{
    match r {
        Conversion::NotAnImage => Event::NotAnImage,
        Conversion::DryRun => Event::Converted,
        Conversion::Done(_) => if wrote {
            Event::Converted
        } else {
            Event::SaveFailed
        },
        Conversion::Failed(_) => Event::SaveFailed,
    }
}

} // verus!
