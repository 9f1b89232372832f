//! Textures in memory, and the identifier of a texture handed to the GPU.

use vstd::prelude::*;
use crate::math::Scalar;
use image::DynamicImage;

verus! {

/// Represents texture data that has been sent to the GPU.
///
/// The number is the position of the texture in the renderer's table; an
/// identifier that was never issued names nothing.
#[derive(Debug, Clone, Copy, PartialEq, Eq, Hash, Structural)]
pub struct GpuTexture(pub usize);

impl Default for GpuTexture {
    fn default() -> (texture: GpuTexture)
        ensures
            texture == GpuTexture(0),
    {
        GpuTexture(0)
    }
}

/// An enum representing the supported data formats for a texture.
#[derive(Debug, Clone, Copy, PartialEq, Eq, Hash, Structural)]
pub enum DataFormat {
    Rgb,
    Rgba,
    Bgr,
    Bgra,
}

impl DataFormat {
    /// How many elements make up one pixel.
    pub open spec fn spec_channels(self) -> nat {
        match self {
            DataFormat::Rgb | DataFormat::Bgr => 3,
            DataFormat::Rgba | DataFormat::Bgra => 4,
        }
    }

    /// How many elements make up one pixel.
    pub fn channels(self) -> (count: usize)
        ensures
            count == self.spec_channels(),
    {
        match self {
            DataFormat::Rgb | DataFormat::Bgr => 3,
            DataFormat::Rgba | DataFormat::Bgra => 4,
        }
    }
}

/// An enum representing the possible data types for a texture.
///
/// `TextureData` also owns the texture raw data buffer in order to maintain type safety.
#[derive(Debug, Clone, PartialEq)]
pub enum TextureData {
    /// Single-precision elements, each as its bit pattern.
    F32(Vec<Scalar>),
    /// 8-bit unsigned elements.
    U8(Vec<u8>),
}

/// The elements of a texture, as sequences.
pub enum Texels {
    Reals(Seq<Scalar>),
    Bytes(Seq<u8>),
}

impl Texels {
    /// The number of elements.
    pub open spec fn len(self) -> nat {
        match self {
            Texels::Reals(elements) => elements.len(),
            Texels::Bytes(elements) => elements.len(),
        }
    }
}

impl View for TextureData {
    type V = Texels;

    open spec fn view(&self) -> Texels {
        match self {
            TextureData::F32(elements) => Texels::Reals(elements@),
            TextureData::U8(elements) => Texels::Bytes(elements@),
        }
    }
}

impl TextureData {
    /// The number of elements in the buffer.
    pub fn len(&self) -> (count: usize)
        ensures
            count == self@.len(),
    {
        match self {
            TextureData::F32(elements) => elements.len(),
            TextureData::U8(elements) => elements.len(),
        }
    }
}

/// What a texture is: its size, its layout and its elements.
pub struct TextureView {
    pub width: nat,
    pub height: nat,
    pub format: DataFormat,
    pub data: Texels,
}

/// The type of the elements of a texture.
#[derive(Debug, Clone, Copy, PartialEq, Eq, Hash, Structural)]
pub enum ElementType {
    F32,
    U8,
}

/// What the renderer keeps of a texture once its data is with the GPU.
#[derive(Debug, Clone, Copy, PartialEq, Eq, Hash, Structural)]
pub struct TextureInfo {
    pub width: usize,
    pub height: usize,
    pub format: DataFormat,
    pub elements: ElementType,
}

impl TextureView {
    /// What the renderer keeps of this texture.
    pub open spec fn info(self) -> TextureInfo {
        TextureInfo {
            width: self.width as usize,
            height: self.height as usize,
            format: self.format,
            elements: match self.data {
                Texels::Reals(_) => ElementType::F32,
                Texels::Bytes(_) => ElementType::U8,
            },
        }
    }

    /// The buffer holds exactly one element per channel of every pixel.
    pub open spec fn well_formed(self) -> bool {
        self.data.len() == self.width * self.height * self.format.spec_channels()
    }
}

/// Represents a texture loaded into memory and ready to be sent to the GPU.
///
/// `Texture2d` defines a backend-agnostic in-memory representation of texture data that can be
/// used by any of the rendering backends to send texture data to the GPU. It encapsulates all
/// relevant information about the texture, including the raw bytes of the texture and information
/// describing the in-memory layout of that data. Every value of the type holds exactly as many
/// elements as its size and layout call for.
#[derive(Debug)]
pub struct Texture2d {
    width: usize,
    height: usize,
    format: DataFormat,
    data: TextureData,
}

impl View for Texture2d {
    type V = TextureView;

    closed spec fn view(&self) -> TextureView {
        TextureView {
            width: self.width as nat,
            height: self.height as nat,
            format: self.format,
            data: self.data@,
        }
    }
}

/// Width in pixels of a decoded image, as `GenericImageView::width` reports it.
pub uninterp spec fn bitmap_width(image: DynamicImage) -> nat;

/// Height in pixels of a decoded image, as `GenericImageView::height` reports it.
pub uninterp spec fn bitmap_height(image: DynamicImage) -> nat;

/// The pixels of a decoded image after conversion to 8-bit RGBA, row by row,
/// four bytes to a pixel: what `DynamicImage::to_rgba` computes.
pub uninterp spec fn bitmap_rgba(image: DynamicImage) -> Seq<u8>;

/// Whether the RGBA form of `image` can be made at all. The conversion
/// computes the length of its buffer as four times the width, times the
/// height, and gives up where either product is beyond `usize`; and no
/// buffer is longer than `isize::MAX` bytes.
pub open spec fn bitmap_fits(image: DynamicImage) -> bool {
    &&& 4 * bitmap_width(image) <= usize::MAX
    &&& 4 * bitmap_width(image) * bitmap_height(image) <= isize::MAX
}

/// The image crate's decoded image. Nothing of its inside is visible here.
#[verifier::external_type_specification]
#[verifier::external_body]
pub struct ExDynamicImage(image::DynamicImage);

/// Calls `GenericImageView::width` on a decoded image. The contract only
/// gives the result its name.
#[verifier::external_body]
fn image_width(image: &DynamicImage) -> (width: u32)
    ensures
        width == bitmap_width(*image),
{
    image::GenericImageView::width(image)
}

/// Calls `GenericImageView::height` on a decoded image. The contract only
/// gives the result its name.
#[verifier::external_body]
fn image_height(image: &DynamicImage) -> (height: u32)
    ensures
        height == bitmap_height(*image),
{
    image::GenericImageView::height(image)
}

/// Calls `DynamicImage::to_rgba` and takes the buffer out of the result.
/// The conversion allocates four zeroed bytes per pixel of the source and
/// then fills them, so the buffer has that length. It panics where four
/// times the width, or that times the height, is beyond `usize`, and the
/// allocation panics where the length is beyond `isize::MAX`; the
/// precondition leaves all three out. The contract claims the length and
/// gives the bytes their name, nothing more.
#[verifier::external_body]
fn image_to_rgba(image: &DynamicImage) -> (bytes: Vec<u8>)
    requires
        bitmap_fits(*image),
    ensures
        bytes@ == bitmap_rgba(*image),
        bytes@.len() == 4 * bitmap_width(*image) * bitmap_height(*image),
{
    image.to_rgba().into_raw()
}

impl Texture2d {
    #[verifier::type_invariant]
    spec fn inv(self) -> bool {
        self@.well_formed()
    }

    /// A texture of the given size and layout over `data`, or nothing where
    /// the buffer does not hold exactly `width * height` pixels of `format`.
    pub fn new(width: usize, height: usize, format: DataFormat, data: TextureData) -> (texture:
        Option<Texture2d>)
        ensures
            texture is Some <==> data@.len() == (width as nat) * (height as nat)
                * format.spec_channels(),
            texture matches Some(texture) ==> texture@ == (TextureView {
                width: width as nat,
                height: height as nat,
                format,
                data: data@,
            }),
    {
        let channels = format.channels();
        let actual = data.len();
        let expected = match width.checked_mul(height) {
            Some(pixels) => pixels.checked_mul(channels),
            None => None,
        };
        proof {
            let needed = (width as nat) * (height as nat) * format.spec_channels();
            assert(needed == (width * height) * channels) by (nonlinear_arith)
                requires
                    needed == (width as nat) * (height as nat) * (channels as nat),
            ;
            assert((width * height) * channels >= width * height) by (nonlinear_arith)
                requires
                    channels >= 1,
                    width * height >= 0,
            ;
            assert(expected matches Some(elements) ==> elements == needed);
            assert(expected is None ==> needed > usize::MAX);
        }
        match expected {
            Some(elements) => {
                if actual == elements {
                    Some(Texture2d { width, height, format, data })
                } else {
                    None
                }
            },
            None => None,
        }
    }

    /// Loads a new `Texture` from a bitmap file.
    ///
    /// The image is converted to 8-bit RGBA whatever its own layout is.
    pub fn from_bitmap(image: DynamicImage) -> (texture: Texture2d)
        requires
            bitmap_fits(image),
        ensures
            texture@ == (TextureView {
                width: bitmap_width(image),
                height: bitmap_height(image),
                format: DataFormat::Rgba,
                data: Texels::Bytes(bitmap_rgba(image)),
            }),
            texture@.well_formed(),
    {
        let width = image_width(&image);
        let height = image_height(&image);
        let bytes = image_to_rgba(&image);
        proof {
            assert(4 * bitmap_width(image) * bitmap_height(image) == (width as nat) * (
            height as nat) * 4) by (nonlinear_arith)
                requires
                    bitmap_width(image) == width,
                    bitmap_height(image) == height,
            ;
        }
        Texture2d::new(
            width as usize,
            height as usize,
            DataFormat::Rgba,
            TextureData::U8(bytes),
        ).unwrap()
    }

    /// Loads a new `Texture` from a bitmap file, or nothing where the RGBA
    /// form of the image can not be made: where four times its width, or
    /// that times its height, is more than a buffer can hold.
    pub fn try_from_bitmap(image: DynamicImage) -> (texture: Option<Texture2d>)
        ensures
            texture is Some <==> bitmap_fits(image),
            texture matches Some(texture) ==> texture@ == (TextureView {
                width: bitmap_width(image),
                height: bitmap_height(image),
                format: DataFormat::Rgba,
                data: Texels::Bytes(bitmap_rgba(image)),
            }) && texture@.well_formed(),
    {
        let width = image_width(&image) as usize;
        let height = image_height(&image) as usize;
        let channels: usize = 4;
        let limit = isize::MAX as usize;
        let fits = match channels.checked_mul(width) {
            Some(row) => match row.checked_mul(height) {
                Some(elements) => elements <= limit,
                None => false,
            },
            None => false,
        };
        if fits {
            Some(Texture2d::from_bitmap(image))
        } else {
            None
        }
    }

    /// What the renderer keeps of this texture.
    pub fn info(&self) -> (info: TextureInfo)
        ensures
            info == self@.info(),
    {
        TextureInfo {
            width: self.width,
            height: self.height,
            format: self.format,
            elements: match &self.data {
                TextureData::F32(_) => ElementType::F32,
                TextureData::U8(_) => ElementType::U8,
            },
        }
    }

    /// Returns the width of the texture.
    pub fn width(&self) -> (width: usize)
        ensures
            width == self@.width,
    {
        self.width
    }

    /// Returns the height of the texture.
    pub fn height(&self) -> (height: usize)
        ensures
            height == self@.height,
    {
        self.height
    }

    /// Gets the data format for the texture.
    pub fn format(&self) -> (format: DataFormat)
        ensures
            format == self@.format,
    {
        self.format
    }

    /// Gets the data for the texture.
    pub fn data(&self) -> (data: &TextureData)
        ensures
            data@ == self@.data,
            self@.well_formed(),
    {
        proof {
            use_type_invariant(self);
        }
        &self.data
    }
}

} // verus!
