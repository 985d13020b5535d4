//! Images as data URLs, for display by the presentation layer.

use crate::frame::Frame;
use vstd::prelude::*;
use vstd::string::StringExecFns;

verus! {

/// What every data URL of a PNG image starts with.
pub const DATA_URL_PREFIX: &'static str = "data:image/png;base64,";

/// An image could not be made into a data URL.
#[derive(Clone, Copy, Debug, PartialEq, Eq, Structural)]
pub enum EncodeError {
    /// The PNG encoder refused the image.
    Png,
    /// The image, or its PNG file written in base64, is longer than the
    /// machine can address.
    TooLarge,
}

/// `png::EncodingError`, carried through without looking inside.
#[verifier::external_type_specification]
#[verifier::external_body]
pub struct ExPngError(png::EncodingError);

/// The PNG file that the `png` encoder writes for an RGBA image with eight
/// bits per channel at its fast compression setting, where it writes one.
pub uninterp spec fn png_rgba8(width: nat, height: nat, pixels: Seq<u8>) -> Option<Seq<u8>>;

/// The base64 text of a run of bytes in the standard alphabet, with padding.
pub uninterp spec fn base64_standard(bytes: Seq<u8>) -> Seq<char>;

/// `png::Encoder` set to RGBA, eight bits and fast compression, writing the
/// header, the image data and the end of the file into a vector. The buffer
/// must hold four samples per pixel and be no longer than a slice can be: the
/// encoder multiplies row length and height without looking, and sizes its
/// row buffers after them. It refuses an image without width or height;
/// writing into a vector, it has no other reason to fail.
#[verifier::external_body]
fn png_encode(width: u32, height: u32, pixels: &[u8]) -> (file: Result<Vec<u8>, png::EncodingError>)
    requires
        pixels@.len() == width * height * 4,
        pixels@.len() <= isize::MAX,
    ensures
        file.is_ok() == png_rgba8(width as nat, height as nat, pixels@).is_some(),
        file matches Ok(bytes) ==> png_rgba8(width as nat, height as nat, pixels@) == Some(bytes@),
        file.is_ok() == (width > 0 && height > 0),
{
    let mut out: Vec<u8> = Vec::new();
    let mut encoder = png::Encoder::new(&mut out, width, height);
    encoder.set_color(png::ColorType::Rgba);
    encoder.set_depth(png::BitDepth::Eight);
    encoder.set_compression(png::Compression::Fast);
    let mut writer = encoder.write_header()?;
    writer.write_image_data(pixels)?;
    writer.finish()?;
    Ok(out)
}

/// `Engine::encode` of `base64::engine::general_purpose::STANDARD`. It
/// panics where the length of the text would not fit in `usize`.
#[verifier::external_body]
fn base64_encode(bytes: &[u8]) -> (text: String)
    requires
        bytes@.len() / 3 < usize::MAX / 4,
    ensures
        text@ == base64_standard(bytes@),
{
    base64::Engine::encode(&base64::engine::general_purpose::STANDARD, bytes)
}

/// The data URL of a PNG file: the prefix, then the file in base64.
pub open spec fn png_data_url(file: Seq<u8>) -> Seq<char> {
    DATA_URL_PREFIX@ + base64_standard(file)
}

/// Writes the bytes of a PNG file as a data URL. Fails only for a file so
/// long that its base64 text could not be held.
pub fn data_url_of_png(file: &[u8]) -> (url: Result<String, EncodeError>)
    ensures
        url.is_ok() == (file@.len() / 3 < usize::MAX / 4),
        url matches Ok(text) ==> text@ == png_data_url(file@),
        url matches Err(e) ==> e == EncodeError::TooLarge,
{
    if file.len() / 3 < usize::MAX / 4 {
        let mut url = String::from_str(DATA_URL_PREFIX);
        let encoded = base64_encode(file);
        url.append(encoded.as_str());
        Ok(url)
    } else {
        Err(EncodeError::TooLarge)
    }
}

/// The data URL under which an image is shown, if it has one: that of its
/// PNG file. An image without width or height has no PNG file; a buffer or a
/// file beyond what the machine can address has no data URL.
pub open spec fn image_data_url(width: nat, height: nat, pixels: Seq<u8>) -> Result<Seq<char>, EncodeError> {
    if pixels.len() > isize::MAX {
        Err(EncodeError::TooLarge)
    } else {
        match png_rgba8(width, height, pixels) {
            Some(file) => if file.len() / 3 < usize::MAX / 4 {
                Ok(png_data_url(file))
            } else {
                Err(EncodeError::TooLarge)
            },
            None => Err(EncodeError::Png),
        }
    }
}

/// Encodes an image as a PNG file and writes that as a data URL. The PNG
/// encoder is the only one to refuse an image, and it refuses exactly those
/// without width or height.
pub fn encode_image_to_data_url(image: &Frame) -> (url: Result<String, EncodeError>)
    ensures
        match url {
            Ok(text) => image_data_url(image@.width, image@.height, image@.pixels) == Ok::<Seq<char>, EncodeError>(text@),
            Err(e) => image_data_url(image@.width, image@.height, image@.pixels) == Err::<Seq<char>, EncodeError>(e),
        },
        (image@.width == 0 || image@.height == 0) == (url == Err::<String, EncodeError>(EncodeError::Png)),
{
    let pixels = image.as_raw();
    if pixels.len() > isize::MAX as usize {
        return Err(EncodeError::TooLarge);
    }
    match png_encode(image.width(), image.height(), pixels.as_slice()) {
        Ok(file) => data_url_of_png(file.as_slice()),
        Err(_) => Err(EncodeError::Png),
    }
}

} // verus!
