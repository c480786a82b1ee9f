use vstd::prelude::*;

use crate::error::CodecError;

verus! {

#[verifier::external_type_specification]
#[verifier::external_body]
pub struct ExDecodeError(base64::DecodeError);

#[verifier::external_type_specification]
#[verifier::external_body]
pub struct ExImageError(image::ImageError);

/// Image container formats that the bot reads or attaches.
#[derive(Debug, Clone, Copy, PartialEq, Eq, Structural)]
pub enum PictureFormat {
    Png,
    Jpeg,
}

/// How the backend's image is turned into attachment bytes: the format the
/// backend produces, and the format to transcode into, if any.
#[derive(Debug, Clone, Copy, PartialEq, Eq, Structural)]
pub struct CodecConfig {
    pub native: PictureFormat,
    pub transcode_to: Option<PictureFormat>,
}

/// The format of the attached file under `config`.
pub open spec fn attached_format(config: CodecConfig) -> PictureFormat {
    match config.transcode_to {
        Some(t) => t,
        None => config.native,
    }
}

/// Picks the format in which the image is attached under `config`.
pub fn output_format(config: &CodecConfig) -> (r: PictureFormat)
    ensures
        r == attached_format(*config),
{
    match config.transcode_to {
        Some(t) => t,
        None => config.native,
    }
}

/// The format named by `name` (`png` or `jpeg`), if any.
pub fn format_named(name: &String) -> (r: Option<PictureFormat>)
    ensures
        r == (if name@ == "png"@ {
            Some(PictureFormat::Png)
        } else if name@ == "jpeg"@ {
            Some(PictureFormat::Jpeg)
        } else {
            None::<PictureFormat>
        }),
{
    if name.eq(&String::from_str("png")) {
        Some(PictureFormat::Png)
    } else if name.eq(&String::from_str("jpeg")) {
        Some(PictureFormat::Jpeg)
    } else {
        None
    }
}

/// The bytes that base64 with the standard alphabet decodes `s` to, or
/// `None` where `s` is not valid base64.
pub uninterp spec fn base64_decoding(s: Seq<char>) -> Option<Seq<u8>>;

/// Relies on base64::decode (standard alphabet): the result is a function of
/// the input text, and an error exactly where it is not base64.
#[verifier::external_body]
fn decode_base64(s: &str) -> (r: Result<Vec<u8>, base64::DecodeError>)
    ensures
        match r {
            Ok(v) => base64_decoding(s@) == Some(v@),
            Err(_) => base64_decoding(s@) is None,
        },
{
    base64::decode(s)
}

/// What reading `bytes` as a PNG image and encoding it in `target` format
/// gives, or `None` where either step fails.
pub uninterp spec fn png_transcoding(bytes: Seq<u8>, target: PictureFormat) -> Option<Seq<u8>>;

/// Relies on image::load_from_memory_with_format, which reads the bytes as an
/// image of the source format, and on image::DynamicImage::write_to, which
/// encodes that image in the target format into a fresh in-memory buffer.
/// PNG decoding is exact and chooses no code path at run time, so from a PNG
/// source the result depends on the arguments alone. JPEG decoding may pick
/// a vectorised path whose rounding differs between machines, so from a JPEG
/// source nothing is stated of the result.
#[verifier::external_body]
fn transcode_bytes(bytes: &Vec<u8>, source: PictureFormat, target: PictureFormat) -> (r: Result<Vec<u8>, image::ImageError>)
    ensures
        source == PictureFormat::Png ==> match r {
            Ok(v) => png_transcoding(bytes@, target) == Some(v@),
            Err(_) => png_transcoding(bytes@, target) is None,
        },
{
    let f = match source { PictureFormat::Png => image::ImageFormat::Png, PictureFormat::Jpeg => image::ImageFormat::Jpeg };
    let t = match target { PictureFormat::Png => image::ImageFormat::Png, PictureFormat::Jpeg => image::ImageFormat::Jpeg };
    let img = image::load_from_memory_with_format(bytes, f)?;
    let mut out: Vec<u8> = Vec::new();
    img.write_to(&mut std::io::Cursor::new(&mut out), t)?;
    Ok(out)
}

/// Whether `r` may be the outcome of transcoding `bytes` from `source` to
/// `target`. From a PNG source it is the transcoded bytes, or
/// `TranscodeFailed` where reading or encoding fails; from another source
/// any failure is `TranscodeFailed`.
pub open spec fn transcode_outcome(bytes: Seq<u8>, source: PictureFormat, target: PictureFormat, r: Result<Vec<u8>, CodecError>) -> bool {
    if source == PictureFormat::Png {
        match png_transcoding(bytes, target) {
            Some(v) => r is Ok && r->Ok_0@ == v,
            None => r == Err::<Vec<u8>, CodecError>(CodecError::TranscodeFailed),
        }
    } else {
        r is Err ==> r == Err::<Vec<u8>, CodecError>(CodecError::TranscodeFailed)
    }
}

/// Reads `bytes` as an image in `source` format and encodes it in `target`.
pub fn transcode(bytes: &Vec<u8>, source: PictureFormat, target: PictureFormat) -> (r: Result<Vec<u8>, CodecError>)
    ensures
        transcode_outcome(bytes@, source, target, r),
{
    match transcode_bytes(bytes, source, target) {
        Ok(out) => Ok(out),
        Err(_) => Err(CodecError::TranscodeFailed),
    }
}

/// Whether `r` may be the outcome of decoding `payload` under `config`.
pub open spec fn decode_outcome(payload: Seq<char>, config: CodecConfig, r: Result<Vec<u8>, CodecError>) -> bool {
    match base64_decoding(payload) {
        None => r == Err::<Vec<u8>, CodecError>(CodecError::BadEncoding),
        Some(raw) => match config.transcode_to {
            None => r is Ok && r->Ok_0@ == raw,
            Some(t) => transcode_outcome(raw, config.native, t, r),
        },
    }
}

/// Decodes the backend's base64 image and, where the configuration asks for
/// it, transcodes it into the attachment format.
pub fn decode_image(payload: &str, config: &CodecConfig) -> (r: Result<Vec<u8>, CodecError>)
    ensures
        decode_outcome(payload@, *config, r),
{
    let raw = match decode_base64(payload) {
        Ok(v) => v,
        Err(_) => return Err(CodecError::BadEncoding),
    };
    match config.transcode_to {
        None => Ok(raw),
        Some(target) => transcode(&raw, config.native, target),
    }
}

} // verus!
