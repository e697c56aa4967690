//! Embedding image and font files: the raw bytes together with a base64
//! data URI of the same bytes.
use vstd::prelude::*;
use std::rc::Rc;

verus! {

/// The image encodings that can be embedded.
#[derive(PartialEq, Eq, Structural, Debug, Clone, Copy)]
pub enum ImageFormat {
    Png,
    Jpeg,
    Gif,
    WebP,
    Bmp,
    Ico,
}

/// The subtype that names an image format in an `image/...` media type.
pub open spec fn format_tag(f: ImageFormat) -> Seq<char> {
    match f {
        ImageFormat::Png => "png"@,
        ImageFormat::Jpeg => "jpeg"@,
        ImageFormat::Gif => "gif"@,
        ImageFormat::WebP => "webp"@,
        ImageFormat::Bmp => "bmp"@,
        ImageFormat::Ico => "ico"@,
    }
}

impl ImageFormat {
    /// The subtype of this format's media type.
    pub fn tag(&self) -> (r: &'static str)
        ensures
            r@ == format_tag(*self),
    {
        match self {
            ImageFormat::Png => "png",
            ImageFormat::Jpeg => "jpeg",
            ImageFormat::Gif => "gif",
            ImageFormat::WebP => "webp",
            ImageFormat::Bmp => "bmp",
            ImageFormat::Ico => "ico",
        }
    }
}

/// The standard, padded base64 encoding of some bytes.
pub uninterp spec fn base64_of(b: Seq<u8>) -> Seq<char>;

/// `b` opens with the bytes `sig`.
pub open spec fn has_signature(b: Seq<u8>, sig: Seq<u8>) -> bool {
    sig.len() <= b.len() && b.subrange(0, sig.len() as int) == sig
}

/// The image format that the leading bytes of a file announce, if it is
/// one of `ImageFormat`'s.
pub open spec fn sniffed_format(b: Seq<u8>) -> Option<ImageFormat> {
    if has_signature(b, seq![0x89u8, 0x50, 0x4e, 0x47, 0x0d, 0x0a, 0x1a, 0x0a]) {
        Some(ImageFormat::Png)
    } else if has_signature(b, seq![0xffu8, 0xd8, 0xff]) {
        Some(ImageFormat::Jpeg)
    } else if has_signature(b, seq![0x47u8, 0x49, 0x46, 0x38, 0x39, 0x61]) || has_signature(
        b,
        seq![0x47u8, 0x49, 0x46, 0x38, 0x37, 0x61],
    ) {
        Some(ImageFormat::Gif)
    } else if has_signature(b, seq![0x52u8, 0x49, 0x46, 0x46]) {
        Some(ImageFormat::WebP)
    } else if has_signature(b, seq![0x42u8, 0x4d]) {
        Some(ImageFormat::Bmp)
    } else if has_signature(b, seq![0x00u8, 0x00, 0x01, 0x00]) {
        Some(ImageFormat::Ico)
    } else {
        None
    }
}

/// The pixel size of an image, read from its header in the given format, if
/// that succeeds.
pub uninterp spec fn probed_size(b: Seq<u8>, f: ImageFormat) -> Option<(u32, u32)>;

/// Relies on base64's `Engine::encode` with the `general_purpose::STANDARD`
/// engine: the standard, padded encoding of the bytes.
#[verifier::external_body]
fn encode_base64(b: &[u8]) -> (r: String)
    ensures
        r@ == base64_of(b@),
{
    base64::Engine::encode(&base64::engine::general_purpose::STANDARD, b)
}

/// Relies on base64's `Engine::decode` with the `general_purpose::STANDARD`
/// engine, which requires canonical padding and rejects nonzero trailing
/// bits: exactly the standard encodings decode, each to the bytes it
/// encodes.
#[verifier::external_body]
fn decode_base64(s: &str) -> (r: Option<Vec<u8>>)
    ensures
        (exists|b: Seq<u8>| s@ == base64_of(b)) ==> r is Some,
        r matches Some(v) ==> s@ == base64_of(v@),
        r matches Some(v) ==> forall|b: Seq<u8>| s@ == base64_of(b) ==> v@ == b,
{
    base64::Engine::decode(&base64::engine::general_purpose::STANDARD, s).ok()
}

/// Relies on image's `guess_format`: the first entry of its magic-byte table
/// that the bytes open with gives the format (PNG, JPEG, GIF87a/89a, `RIFF`
/// for WebP, `BM`, and `00 00 01 00` for ICO); the table's other entries
/// share no prefix with these, and a format outside `ImageFormat`, or none,
/// gives `None`.
#[verifier::external_body]
fn guess_format(b: &[u8]) -> (r: Option<ImageFormat>)
    ensures
        r == sniffed_format(b@),
{
    match image::guess_format(b) {
        Ok(image::ImageFormat::Png) => Some(ImageFormat::Png),
        Ok(image::ImageFormat::Jpeg) => Some(ImageFormat::Jpeg),
        Ok(image::ImageFormat::Gif) => Some(ImageFormat::Gif),
        Ok(image::ImageFormat::WebP) => Some(ImageFormat::WebP),
        Ok(image::ImageFormat::Bmp) => Some(ImageFormat::Bmp),
        Ok(image::ImageFormat::Ico) => Some(ImageFormat::Ico),
        _ => None,
    }
}

/// Relies on image's `io::Reader::into_dimensions`, on a reader set to the
/// given format: the width and height that the format's decoder reads from
/// the image's header, or `None` where it cannot. The build leaves image's
/// WebP decoder out, since it decodes the whole bitstream to learn the
/// size; for WebP, image answers `Unsupported` without reading, so no size
/// is found.
#[verifier::external_body]
fn image_size(b: &[u8], format: ImageFormat) -> (r: Option<(u32, u32)>)
    ensures
        r == probed_size(b@, format),
{
    let f = match format {
        ImageFormat::Png => image::ImageFormat::Png,
        ImageFormat::Jpeg => image::ImageFormat::Jpeg,
        ImageFormat::Gif => image::ImageFormat::Gif,
        ImageFormat::WebP => image::ImageFormat::WebP,
        ImageFormat::Bmp => image::ImageFormat::Bmp,
        ImageFormat::Ico => image::ImageFormat::Ico,
    };
    image::io::Reader::with_format(std::io::Cursor::new(b), f).into_dimensions().ok()
}

/// The data URI of an image: its media type from the format, then the
/// base64 of its bytes.
pub open spec fn image_data_uri(f: ImageFormat, b: Seq<u8>) -> Seq<char> {
    "data:image/"@ + format_tag(f) + ";base64,"@ + base64_of(b)
}

/// The media type that every embedded font is given.
pub open spec fn font_uri_prefix() -> Seq<char> {
    "data:application/x-font-woff;base64,"@
}

/// The data URI of a font: the font media type, then the base64 of its
/// bytes.
pub open spec fn font_data_uri(b: Seq<u8>) -> Seq<char> {
    font_uri_prefix() + base64_of(b)
}

/// Builds the data URI of an image in the given format.
pub fn to_image_data_uri(format: ImageFormat, bytes: &[u8]) -> (r: String)
    ensures
        r@ == image_data_uri(format, bytes@),
{
    let mut uri = String::from_str("data:image/");
    uri.append(format.tag());
    uri.append(";base64,");
    let encoded = encode_base64(bytes);
    uri.append(encoded.as_str());
    uri
}

/// Builds the data URI of a font.
pub fn to_font_data_uri(bytes: &[u8]) -> (r: String)
    ensures
        r@ == font_data_uri(bytes@),
{
    let mut uri = String::from_str("data:application/x-font-woff;base64,");
    let encoded = encode_base64(bytes);
    uri.append(encoded.as_str());
    uri
}

/// An embedded asset: its bytes, for bundling, and a data URI of the same
/// bytes, for inline preview. Images also carry their format and pixel size.
pub struct AssetDescriptor {
    pub format: Option<ImageFormat>,
    pub bytes: Rc<Vec<u8>>,
    pub data_uri: Rc<String>,
    pub dimensions: Option<(u32, u32)>,
}

impl AssetDescriptor {
    /// This is the embedding of the image file `b`, in format `f` and of the
    /// given size.
    pub open spec fn is_image(&self, b: Seq<u8>, f: ImageFormat, size: (u32, u32)) -> bool {
        &&& self.format == Some(f)
        &&& self.bytes@ == b
        &&& self.data_uri@ == image_data_uri(f, b)
        &&& self.dimensions == Some(size)
    }

    /// This is the embedding of the font file `b`.
    pub open spec fn is_font(&self, b: Seq<u8>) -> bool {
        &&& self.format is None
        &&& self.bytes@ == b
        &&& self.data_uri@ == font_data_uri(b)
        &&& self.dimensions is None
    }

    /// The bytes and the data URI were made from one byte sequence; only an
    /// image has a size.
    pub open spec fn wf(&self) -> bool {
        match self.format {
            Some(f) => self.data_uri@ == image_data_uri(f, self.bytes@) && self.dimensions is Some,
            None => self.is_font(self.bytes@),
        }
    }
}

/// Why an image could not be embedded.
#[derive(PartialEq, Eq, Structural, Debug, Clone, Copy)]
pub enum AssetError {
    /// The bytes do not announce an image format that can be embedded.
    UnknownFormat,
    /// The image's size could not be read in its format.
    NoDimensions,
}

/// The result of embedding the image file `b`, given what was found of its
/// format and of its size in that format.
pub open spec fn image_outcome(
    r: Result<AssetDescriptor, AssetError>,
    b: Seq<u8>,
    format: Option<ImageFormat>,
    size: Option<(u32, u32)>,
) -> bool {
    match format {
        None => r == Err::<AssetDescriptor, AssetError>(AssetError::UnknownFormat),
        Some(f) => match size {
            None => r == Err::<AssetDescriptor, AssetError>(AssetError::NoDimensions),
            Some(sz) => r matches Ok(d) && d.is_image(b, f, sz),
        },
    }
}

/// Embeds an image file whose format and size were found already.
pub fn image_descriptor(
    bytes: Vec<u8>,
    format: Option<ImageFormat>,
    size: Option<(u32, u32)>,
) -> (r: Result<AssetDescriptor, AssetError>)
    ensures
        image_outcome(r, bytes@, format, size),
{
    match format {
        None => Err(AssetError::UnknownFormat),
        Some(f) => match size {
            None => Err(AssetError::NoDimensions),
            Some(sz) => {
                let data_uri = to_image_data_uri(f, bytes.as_slice());
                Ok(
                    AssetDescriptor {
                        format: Some(f),
                        bytes: Rc::new(bytes),
                        data_uri: Rc::new(data_uri),
                        dimensions: Some(sz),
                    },
                )
            },
        },
    }
}

/// Embeds an image file: its format is guessed from its bytes, then its size
/// is read in that format.
pub fn load_image(bytes: Vec<u8>) -> (r: Result<AssetDescriptor, AssetError>)
    ensures
        image_outcome(
            r,
            bytes@,
            sniffed_format(bytes@),
            match sniffed_format(bytes@) {
                Some(f) => probed_size(bytes@, f),
                None => None,
            },
        ),
        r matches Ok(d) ==> d.wf() && d.bytes@ == bytes@,
{
    let format = guess_format(bytes.as_slice());
    let size = match format {
        Some(f) => image_size(bytes.as_slice(), f),
        None => None,
    };
    image_descriptor(bytes, format, size)
}

/// Embeds a font file.
pub fn load_font(bytes: Vec<u8>) -> (r: AssetDescriptor)
    ensures
        r.is_font(bytes@),
        r.wf(),
{
    let data_uri = to_font_data_uri(bytes.as_slice());
    AssetDescriptor {
        format: None,
        bytes: Rc::new(bytes),
        data_uri: Rc::new(data_uri),
        dimensions: None,
    }
}

/// The media type part of a data URI: the image one for a format, the font
/// one otherwise.
pub open spec fn uri_prefix(format: Option<ImageFormat>) -> Seq<char> {
    match format {
        Some(f) => "data:image/"@ + format_tag(f) + ";base64,"@,
        None => font_uri_prefix(),
    }
}

/// The bytes that an asset's data URI carries: the URI must open with the
/// media type of the descriptor's format, and what follows is decoded. For
/// a well-formed descriptor these are its own bytes.
pub fn embedded_bytes(d: &AssetDescriptor) -> (r: Option<Vec<u8>>)
    ensures
        r matches Some(v) ==> d.data_uri@ == uri_prefix(d.format) + base64_of(v@),
        (exists|b: Seq<u8>| d.data_uri@ == uri_prefix(d.format) + base64_of(b)) ==> r is Some,
        d.wf() ==> (r matches Some(v) && v@ == d.bytes@),
{
    let prefix = match d.format {
        Some(f) => {
            let mut p = String::from_str("data:image/");
            p.append(f.tag());
            p.append(";base64,");
            p
        },
        None => String::from_str("data:application/x-font-woff;base64,"),
    };
    let uri: &str = d.data_uri.as_str();
    let start = prefix.as_str().unicode_len();
    let end = uri.unicode_len();
    if start > end {
        proof {
            assert forall|b: Seq<u8>| d.data_uri@ != uri_prefix(d.format) + base64_of(b) by {
                if d.data_uri@ == uri_prefix(d.format) + base64_of(b) {
                    assert((uri_prefix(d.format) + base64_of(b)).len() >= prefix@.len());
                }
            }
        }
        return None;
    }
    let head = String::from_str(uri.substring_char(0, start));
    if !(head == prefix) {
        proof {
            assert forall|b: Seq<u8>| d.data_uri@ != uri_prefix(d.format) + base64_of(b) by {
                if d.data_uri@ == uri_prefix(d.format) + base64_of(b) {
                    assert(head@ =~= prefix@);
                }
            }
        }
        return None;
    }
    let payload = uri.substring_char(start, end);
    proof {
        assert(d.data_uri@ =~= prefix@ + payload@);
        assert forall|b: Seq<u8>| d.data_uri@ == uri_prefix(d.format) + base64_of(b) implies payload@
            == base64_of(b) by {
            assert(payload@ =~= (uri_prefix(d.format) + base64_of(b)).subrange(
                start as int,
                end as int,
            ));
        }
        if d.wf() {
            if let Some(f) = d.format {
                assert(image_data_uri(f, d.bytes@) =~= uri_prefix(d.format) + base64_of(d.bytes@));
            }
        }
    }
    decode_base64(payload)
}

} // verus!
