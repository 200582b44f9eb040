use vstd::prelude::*;

verus! {

/// An image decoded to 8-bit RGB: `pixels` holds the rows top to bottom,
/// three bytes per pixel.
#[derive(Clone, Debug)]
pub struct DecodedImage {
    pub width: u32,
    pub height: u32,
    pub pixels: Vec<u8>,
}

impl DecodedImage {
    /// The pixel buffer covers every pixel of the image.
    pub open spec fn wf(&self) -> bool {
        self.pixels@.len() >= 3 * (self.width as int) * (self.height as int)
    }
}

/// Why an image could not be loaded; each variant carries a message for the log.
#[derive(Clone, Debug)]
pub enum LoadError {
    /// The image file could not be read.
    Read(String),
    /// The bytes read are not an image in the format that the path's extension names.
    Decode(String),
}

/// Width, height and RGB pixels of the file `path` holding `bytes`, decoded in
/// the format that the path's extension names; `None` where that extension
/// names no format or the bytes are no valid image in it.
pub uninterp spec fn rgb8_of(path: Seq<char>, bytes: Seq<u8>) -> Option<(u32, u32, Seq<u8>)>;

/// Relies on `image::ImageFormat::from_path` (the format from the extension,
/// as `image::open` picks it), `image::load_from_memory_with_format`, and
/// `image::DynamicImage::into_rgb8` with the `ImageBuffer` accessors, whose
/// buffer holds at least `3 * width * height` bytes. With the format given,
/// the crate's decoding hooks are not consulted, so the outcome depends on the
/// extension and the bytes alone.
#[verifier::external_body]
fn load_rgb8(path: &str, bytes: &[u8]) -> (r: Result<DecodedImage, String>)
    ensures
        r is Ok <==> rgb8_of(path@, bytes@) is Some,
        r matches Ok(d) ==> d.wf() && rgb8_of(path@, bytes@) == Some((d.width, d.height, d.pixels@)),
{
    let format = match image::ImageFormat::from_path(path) {
        Ok(format) => format,
        Err(e) => return Err(e.to_string()),
    };
    match image::load_from_memory_with_format(bytes, format) {
        Ok(img) => {
            let rgb = img.into_rgb8();
            Ok(DecodedImage { width: rgb.width(), height: rgb.height(), pixels: rgb.into_raw() })
        },
        Err(e) => Err(e.to_string()),
    }
}

/// Decodes the bytes of the image file `path` to 8-bit RGB.
pub fn decode_rgb8(path: &str, bytes: &[u8]) -> (r: Result<DecodedImage, LoadError>)
    ensures
        r is Ok <==> rgb8_of(path@, bytes@) is Some,
        r matches Ok(d) ==> d.wf() && rgb8_of(path@, bytes@) == Some((d.width, d.height, d.pixels@)),
        r matches Err(e) ==> e is Decode,
{
    match load_rgb8(path, bytes) {
        Ok(img) => Ok(img),
        Err(msg) => Err(LoadError::Decode(msg)),
    }
}

/// Decodes what was read from the image file `path`; a read error is passed on as is.
pub fn decode_contents(path: &str, contents: Result<Vec<u8>, String>) -> (r: Result<DecodedImage, LoadError>)
    ensures
        contents matches Err(m) ==> r == Err::<DecodedImage, LoadError>(LoadError::Read(m)),
        contents matches Ok(b) ==> (r is Ok <==> rgb8_of(path@, b@) is Some),
        contents matches Ok(b) ==> (r matches Err(e) ==> e is Decode),
        r matches Ok(d) ==> d.wf(),
        contents matches Ok(b) ==> (r matches Ok(d) ==> rgb8_of(path@, b@) == Some((d.width, d.height, d.pixels@))),
{
    match contents {
        Ok(bytes) => decode_rgb8(path, bytes.as_slice()),
        Err(msg) => Err(LoadError::Read(msg)),
    }
}

} // verus!
