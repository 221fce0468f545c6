//! The texture of the blocks: decoding it and checking what was decoded.

use vstd::prelude::*;

verus! {

/// Color type code of a frame with red, green, blue and alpha samples.
pub const COLOR_TYPE_RGBA: u8 = 6;

/// Bit depth of a frame with one byte per sample.
pub const BIT_DEPTH_EIGHT: u8 = 8;

/// Bytes of one pixel of the texture.
pub const BYTES_PER_PIXEL: u8 = 4;

/// The error of the PNG decoder, `png::DecodingError`. It is handed on as
/// it comes and never looked into.
#[verifier::external_type_specification]
#[verifier::external_body]
pub struct ExDecodingError(png::DecodingError);

/// One decoded frame as the decoder delivers it: its size, the codes of its
/// color type and bit depth, and its bytes row by row.
#[derive(Debug, PartialEq, Eq)]
pub struct RawFrame {
    pub width: u32,
    pub height: u32,
    pub color_type: u8,
    pub bit_depth: u8,
    pub data: Vec<u8>,
}

/// The value of a `RawFrame`.
pub struct RawFrameModel {
    pub width: u32,
    pub height: u32,
    pub color_type: u8,
    pub bit_depth: u8,
    pub data: Seq<u8>,
}

impl View for RawFrame {
    type V = RawFrameModel;

    open spec fn view(&self) -> RawFrameModel {
        RawFrameModel {
            width: self.width,
            height: self.height,
            color_type: self.color_type,
            bit_depth: self.bit_depth,
            data: self.data@,
        }
    }
}

/// The first frame that the PNG decoder reads from `bytes`, or `None` where
/// it reports an error.
pub uninterp spec fn png_first_frame(bytes: Seq<u8>) -> Option<RawFrameModel>;

/// Decodes the first frame of a PNG stream held in memory, by
/// `png::Decoder::new`, `Decoder::read_info`, `Reader::output_buffer_size`
/// and `Reader::next_frame`, into a buffer of exactly the size the reader
/// asks for. Trusted: the outcome depends on the bytes alone, and is the
/// frame named `png_first_frame`. The buffer is allocated before the pixels
/// are read, so a header that announces a large image costs that much
/// memory even where the pixels are missing.
#[verifier::external_body]
fn decode_png(bytes: &Vec<u8>) -> (r: Result<RawFrame, png::DecodingError>)
    ensures
        match r {
            Ok(frame) => png_first_frame(bytes@) == Some(frame@),
            Err(_) => png_first_frame(bytes@).is_none(),
        },
{
    let mut reader = png::Decoder::new(std::io::Cursor::new(bytes.as_slice())).read_info()?;
    let mut data = vec![0u8; reader.output_buffer_size()];
    let info = reader.next_frame(&mut data)?;
    Ok(
        RawFrame {
            width: info.width,
            height: info.height,
            color_type: info.color_type as u8,
            bit_depth: info.bit_depth as u8,
            data,
        },
    )
}

/// Why a texture is refused.
#[derive(Clone, Copy, Debug, PartialEq, Eq, Structural)]
pub enum TextureError {
    /// The bytes are no image the decoder can read.
    Undecodable,
    /// The image does not hold red, green, blue and alpha bytes.
    NotRgba8,
    /// The image has no pixels.
    Empty,
    /// The pixel bytes do not fill the image exactly.
    SizeMismatch,
}

/// The value of a `DecodedTexture`.
pub struct TextureModel {
    pub width: u32,
    pub height: u32,
    pub data: Seq<u8>,
}

/// What is wrong with `len` bytes offered as an image of the given size,
/// if anything: an image needs four bytes for each of its pixels.
pub open spec fn texture_defect(width: u32, height: u32, len: nat) -> Option<TextureError> {
    if width == 0 || height == 0 {
        Some(TextureError::Empty)
    } else if len != width as nat * height as nat * 4 {
        Some(TextureError::SizeMismatch)
    } else {
        None
    }
}

/// The texture that a decoded frame gives, or the reason why it gives none.
pub open spec fn frame_texture(frame: RawFrameModel) -> Result<TextureModel, TextureError> {
    if frame.color_type != COLOR_TYPE_RGBA || frame.bit_depth != BIT_DEPTH_EIGHT {
        Err(TextureError::NotRgba8)
    } else {
        match texture_defect(frame.width, frame.height, frame.data.len()) {
            Some(e) => Err(e),
            None => Ok(
                TextureModel { width: frame.width, height: frame.height, data: frame.data },
            ),
        }
    }
}

/// What decoding `bytes` as a texture gives.
pub open spec fn decoded(bytes: Seq<u8>) -> Result<TextureModel, TextureError> {
    match png_first_frame(bytes) {
        Some(frame) => frame_texture(frame),
        None => Err(TextureError::Undecodable),
    }
}

/// A decoded image ready for upload: `width` by `height` pixels of four
/// bytes each.
#[derive(Debug)]
pub struct DecodedTexture {
    width: u32,
    height: u32,
    data: Vec<u8>,
}

impl View for DecodedTexture {
    type V = TextureModel;

    closed spec fn view(&self) -> TextureModel {
        TextureModel { width: self.width, height: self.height, data: self.data@ }
    }
}

impl DecodedTexture {
    #[verifier::type_invariant]
    spec fn filled(self) -> bool {
        texture_defect(self.width, self.height, self.data@.len()).is_none()
    }

    /// Accepts `data` as the pixels of a `width` by `height` image if it has
    /// pixels and `data` fills it exactly.
    pub fn new(width: u32, height: u32, data: Vec<u8>) -> (r: Result<DecodedTexture, TextureError>)
        ensures
            match r {
                Ok(texture) => texture_defect(width, height, data@.len()).is_none() && texture@
                    == (TextureModel { width, height, data: data@ }),
                Err(e) => texture_defect(width, height, data@.len()) == Some(e),
            },
    {
        if width == 0 || height == 0 {
            return Err(TextureError::Empty);
        }
        let wide: u128 = width as u128;
        let high: u128 = height as u128;
        assert(wide * high * 4 <= 0xffff_ffff * 0xffff_ffff * 4) by (nonlinear_arith)
            requires
                wide <= 0xffff_ffff,
                high <= 0xffff_ffff,
        ;
        let expected: u128 = wide * high * 4;
        if data.len() as u128 != expected {
            return Err(TextureError::SizeMismatch);
        }
        Ok(DecodedTexture { width, height, data })
    }

    /// Accepts a decoded frame as a texture if it holds one byte each of
    /// red, green, blue and alpha for every pixel.
    pub fn from_frame(frame: RawFrame) -> (r: Result<DecodedTexture, TextureError>)
        ensures
            match r {
                Ok(texture) => frame_texture(frame@) == Ok::<TextureModel, TextureError>(texture@),
                Err(e) => frame_texture(frame@) == Err::<TextureModel, TextureError>(e),
            },
    {
        if frame.color_type != COLOR_TYPE_RGBA || frame.bit_depth != BIT_DEPTH_EIGHT {
            return Err(TextureError::NotRgba8);
        }
        DecodedTexture::new(frame.width, frame.height, frame.data)
    }

    pub fn width(&self) -> (w: u32)
        ensures
            w == self@.width,
            w > 0,
    {
        proof {
            use_type_invariant(self);
        }
        self.width
    }

    pub fn height(&self) -> (h: u32)
        ensures
            h == self@.height,
            h > 0,
    {
        proof {
            use_type_invariant(self);
        }
        self.height
    }

    /// The pixel bytes, row by row: four for every pixel.
    pub fn data(&self) -> (bytes: &Vec<u8>)
        ensures
            bytes@ == self@.data,
            bytes@.len() == self@.width as nat * self@.height as nat * 4,
    {
        proof {
            use_type_invariant(self);
        }
        &self.data
    }
}

/// Decodes a PNG stream into a texture. Fails where the decoder does, and
/// where the image is not made of red, green, blue and alpha bytes.
pub fn decode_texture(png_bytes: &Vec<u8>) -> (r: Result<DecodedTexture, TextureError>)
    ensures
        match r {
            Ok(texture) => decoded(png_bytes@) == Ok::<TextureModel, TextureError>(texture@),
            Err(e) => decoded(png_bytes@) == Err::<TextureModel, TextureError>(e),
        },
{
    match decode_png(png_bytes) {
        Ok(frame) => DecodedTexture::from_frame(frame),
        Err(_) => Err(TextureError::Undecodable),
    }
}

} // verus!
