//! What goes into and comes out of a load: polls, images, errors, and the
//! mathematical view of each.

use std::sync::Arc;
use vstd::prelude::*;
use vstd::utf8::encode_utf8;

verus! {

/// Point size of an image. Each coordinate is the bit pattern of a
/// single-precision number; the loader never looks inside.
#[derive(Clone, Copy, Debug, PartialEq, Eq, Structural)]
pub struct PointSize {
    pub width_bits: u32,
    pub height_bits: u32,
}

/// Advice on the size an image is wanted at. Raster decoding ignores it.
#[derive(Clone, Copy, Debug, PartialEq, Eq, Structural)]
pub enum SizeHint {
    /// Scale the original size by a factor, given as the bit pattern of a
    /// single-precision number.
    Scale(u32),
    /// Scale to exactly this pixel width.
    Width(u32),
    /// Scale to exactly this pixel height.
    Height(u32),
    /// Scale to this pixel size.
    Size { width: u32, height: u32, maintain_aspect_ratio: bool },
}

/// Bit pattern of the single-precision number one.
pub const UNIT_SCALE_BITS: u32 = 0x3f80_0000;

impl Default for SizeHint {
    fn default() -> (hint: Self)
        ensures
            hint == SizeHint::Scale(UNIT_SCALE_BITS),
    {
        SizeHint::Scale(UNIT_SCALE_BITS)
    }
}

/// One texel: premultiplied red, green, blue and alpha.
#[derive(Clone, Copy, Debug, PartialEq, Eq)]
pub struct Color32(pub [u8; 4]);

/// A decoded image in memory.
#[derive(Debug, PartialEq, Eq)]
pub struct ColorImage {
    /// Width and height in texels.
    pub size: [usize; 2],
    /// The texels, row by row, from top to bottom.
    pub pixels: Vec<Color32>,
}

/// The mathematical content of a [`ColorImage`].
pub struct ColorImageView {
    pub width: nat,
    pub height: nat,
    pub pixels: Seq<Color32>,
}

impl ColorImageView {
    /// Bytes that the texels occupy.
    pub open spec fn byte_size(self) -> nat {
        self.pixels.len() * vstd::layout::size_of::<Color32>()
    }
}

impl View for ColorImage {
    type V = ColorImageView;

    open spec fn view(&self) -> ColorImageView {
        ColorImageView {
            width: self.size@[0] as nat,
            height: self.size@[1] as nat,
            pixels: self.pixels@,
        }
    }
}

impl ColorImage {
    /// Bytes that the texels occupy: their number times the size of one.
    pub fn byte_size(&self) -> (bytes: usize)
        ensures
            bytes == self@.byte_size(),
    {
        broadcast use vstd::layout::layout_of_slices;

        core::mem::size_of_val(self.pixels.as_slice())
    }
}

/// A failed attempt at loading an image.
#[derive(Debug, PartialEq, Eq)]
pub enum LoadError {
    /// No image loaders are installed.
    NoImageLoaders,
    /// The loader does not handle this scheme or URI.
    NotSupported,
    /// The loader does not handle the format of the content.
    FormatNotSupported { detected_format: Option<String> },
    /// No byte source handles the scheme.
    NoMatchingBytesLoader,
    /// No image loader handles the format.
    NoMatchingImageLoader { detected_format: Option<String> },
    /// No texture loader is installed.
    NoMatchingTextureLoader,
    /// Loading was attempted and failed.
    Loading(String),
}

/// The mathematical content of a [`LoadError`].
pub enum LoadErrorView {
    NoImageLoaders,
    NotSupported,
    FormatNotSupported { detected_format: Option<Seq<char>> },
    NoMatchingBytesLoader,
    NoMatchingImageLoader { detected_format: Option<Seq<char>> },
    NoMatchingTextureLoader,
    Loading(Seq<char>),
}

/// The characters of an optional string.
pub open spec fn text_view(text: Option<String>) -> Option<Seq<char>> {
    match text {
        Some(s) => Some(s@),
        None => None,
    }
}

/// Length in bytes of a text in UTF-8, nothing for an absent one.
pub open spec fn text_bytes(text: Option<Seq<char>>) -> nat {
    match text {
        Some(s) => encode_utf8(s).len(),
        None => 0,
    }
}

impl LoadErrorView {
    /// Bytes charged for a remembered error: the length of the text it
    /// carries, or the size of the error value where it carries none.
    pub open spec fn byte_size(self) -> nat {
        match self {
            LoadErrorView::FormatNotSupported { detected_format } => text_bytes(detected_format),
            LoadErrorView::NoMatchingImageLoader { detected_format } => text_bytes(detected_format),
            LoadErrorView::Loading(message) => encode_utf8(message).len(),
            _ => vstd::layout::size_of::<LoadError>(),
        }
    }
}

impl View for LoadError {
    type V = LoadErrorView;

    open spec fn view(&self) -> LoadErrorView {
        match self {
            LoadError::NoImageLoaders => LoadErrorView::NoImageLoaders,
            LoadError::NotSupported => LoadErrorView::NotSupported,
            LoadError::FormatNotSupported { detected_format } => LoadErrorView::FormatNotSupported {
                detected_format: text_view(*detected_format),
            },
            LoadError::NoMatchingBytesLoader => LoadErrorView::NoMatchingBytesLoader,
            LoadError::NoMatchingImageLoader {
                detected_format,
            } => LoadErrorView::NoMatchingImageLoader {
                detected_format: text_view(*detected_format),
            },
            LoadError::NoMatchingTextureLoader => LoadErrorView::NoMatchingTextureLoader,
            LoadError::Loading(message) => LoadErrorView::Loading(message@),
        }
    }
}

/// Length in bytes of an optional string.
fn text_len(text: &Option<String>) -> (bytes: usize)
    ensures
        bytes == text_bytes(text_view(*text)),
{
    match text {
        Some(s) => s.as_str().as_bytes().len(),
        None => 0,
    }
}

/// A copy of an optional string.
fn text_clone(text: &Option<String>) -> (copy: Option<String>)
    ensures
        copy == *text,
{
    match text {
        Some(s) => Some(s.clone()),
        None => None,
    }
}

impl LoadError {
    /// Bytes charged for remembering this error.
    pub fn byte_size(&self) -> (bytes: usize)
        ensures
            bytes == self@.byte_size(),
    {
        match self {
            LoadError::FormatNotSupported { detected_format } => text_len(detected_format),
            LoadError::NoMatchingImageLoader { detected_format } => text_len(detected_format),
            LoadError::Loading(message) => message.as_str().as_bytes().len(),
            _ => core::mem::size_of::<LoadError>(),
        }
    }
}

impl Clone for LoadError {
    fn clone(&self) -> (copy: Self)
        ensures
            copy == *self,
    {
        match self {
            LoadError::NoImageLoaders => LoadError::NoImageLoaders,
            LoadError::NotSupported => LoadError::NotSupported,
            LoadError::FormatNotSupported { detected_format } => LoadError::FormatNotSupported {
                detected_format: text_clone(detected_format),
            },
            LoadError::NoMatchingBytesLoader => LoadError::NoMatchingBytesLoader,
            LoadError::NoMatchingImageLoader {
                detected_format,
            } => LoadError::NoMatchingImageLoader { detected_format: text_clone(detected_format) },
            LoadError::NoMatchingTextureLoader => LoadError::NoMatchingTextureLoader,
            LoadError::Loading(message) => LoadError::Loading(message.clone()),
        }
    }
}

/// What the byte source answers for a URI.
#[derive(Debug, PartialEq, Eq)]
pub enum BytesPoll {
    /// The bytes are still on their way.
    Pending { size: Option<PointSize> },
    /// The bytes have arrived, with the MIME type where it is known.
    Ready { bytes: Vec<u8>, mime: Option<String> },
}

/// The mathematical content of a [`BytesPoll`].
pub enum BytesPollView {
    Pending { size: Option<PointSize> },
    Ready { bytes: Seq<u8>, mime: Option<Seq<char>> },
}

impl View for BytesPoll {
    type V = BytesPollView;

    open spec fn view(&self) -> BytesPollView {
        match self {
            BytesPoll::Pending { size } => BytesPollView::Pending { size: *size },
            BytesPoll::Ready { bytes, mime } => BytesPollView::Ready {
                bytes: bytes@,
                mime: text_view(*mime),
            },
        }
    }
}

/// What the loader answers for a URI that is not in error.
#[derive(Debug, PartialEq, Eq)]
pub enum ImagePoll {
    /// The image is not there yet; ask again.
    Pending { size: Option<PointSize> },
    /// The image is decoded.
    Ready { image: Arc<ColorImage> },
}

/// The mathematical content of an [`ImagePoll`].
pub enum ImagePollView {
    Pending { size: Option<PointSize> },
    Ready { image: ColorImageView },
}

impl View for ImagePoll {
    type V = ImagePollView;

    open spec fn view(&self) -> ImagePollView {
        match self {
            ImagePoll::Pending { size } => ImagePollView::Pending { size: *size },
            ImagePoll::Ready { image } => ImagePollView::Ready { image: image@ },
        }
    }
}

/// Answer of the byte source.
pub type BytesLoadResult = Result<BytesPoll, LoadError>;

/// Answer of the decoder.
pub type DecodeResult = Result<ColorImage, LoadError>;

/// Answer of the loader.
pub type ImageLoadResult = Result<ImagePoll, LoadError>;

/// The mathematical content of a [`BytesLoadResult`].
pub open spec fn fetched_view(fetched: BytesLoadResult) -> Result<BytesPollView, LoadErrorView> {
    match fetched {
        Ok(poll) => Ok(poll@),
        Err(error) => Err(error@),
    }
}

/// The mathematical content of a [`DecodeResult`].
pub open spec fn decoded_view(decoded: DecodeResult) -> Result<ColorImageView, LoadErrorView> {
    match decoded {
        Ok(image) => Ok(image@),
        Err(error) => Err(error@),
    }
}

/// The mathematical content of an [`ImageLoadResult`].
pub open spec fn outcome_view(outcome: ImageLoadResult) -> Result<ImagePollView, LoadErrorView> {
    match outcome {
        Ok(poll) => Ok(poll@),
        Err(error) => Err(error@),
    }
}

} // verus!
