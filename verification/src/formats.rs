//! The closed sets of data formats and palette pixel formats, their display
//! labels, and the identifiers under which the texture codec knows them.

use vstd::prelude::*;

verus! {

/// The format of the entries of a color palette. It only matters for the
/// two indexed data formats.
#[derive(Copy, Clone, Debug, PartialEq, Eq, Structural, PartialOrd, Ord, Hash)]
pub enum PixelFormat {
    /// 8-bit intensity values with an alpha channel.
    IntensityA8,
    /// 16-bit color values without an alpha channel.
    Rgb565,
    /// 16-bit color values with an alpha channel.
    Rgb5a3,
}

/// The format in which the image data of a texture is stored.
#[derive(Copy, Clone, Debug, PartialEq, Eq, Structural, PartialOrd, Ord, Hash)]
pub enum DataFormat {
    /// 4-bit intensity values, no alpha channel.
    Intensity4,
    /// 8-bit intensity values, no alpha channel.
    Intensity8,
    /// 4-bit intensity values with an alpha channel.
    IntensityA4,
    /// 8-bit intensity values with an alpha channel.
    IntensityA8,
    /// 16-bit color values without an alpha channel.
    Rgb565,
    /// 16-bit color values with an alpha channel.
    Rgb5a3,
    /// 8 bits for each color and for the alpha channel.
    Argb8888,
    /// 4-bit indices into a palette of at most 16 colors.
    Index4,
    /// 8-bit indices into a palette of at most 256 colors.
    Index8,
    /// DXT1 block compression.
    Dxt1,
}

impl PixelFormat {
    /// The label shown to the user.
    pub open spec fn spec_label(self) -> Seq<char> {
        match self {
            PixelFormat::IntensityA8 => "Intensity 8-bit With Alpha"@,
            PixelFormat::Rgb565 => "RGB565"@,
            PixelFormat::Rgb5a3 => "RGB5A3"@,
        }
    }

    /// The number that the codec stores for this format in a texture header.
    pub open spec fn spec_code(self) -> u8 {
        match self {
            PixelFormat::IntensityA8 => 0u8,
            PixelFormat::Rgb565 => 1u8,
            PixelFormat::Rgb5a3 => 2u8,
        }
    }

    /// The label shown to the user.
    pub fn label(self) -> (text: &'static str)
        ensures
            text@ == self.spec_label(),
    {
        match self {
            PixelFormat::IntensityA8 => "Intensity 8-bit With Alpha",
            PixelFormat::Rgb565 => "RGB565",
            PixelFormat::Rgb5a3 => "RGB5A3",
        }
    }

    /// The number that the codec stores for this format in a texture header.
    pub fn code(self) -> (code: u8)
        ensures
            code == self.spec_code(),
            is_pixel_format_code(code),
    {
        match self {
            PixelFormat::IntensityA8 => 0,
            PixelFormat::Rgb565 => 1,
            PixelFormat::Rgb5a3 => 2,
        }
    }
}

impl DataFormat {
    /// The label shown to the user.
    pub open spec fn spec_label(self) -> Seq<char> {
        match self {
            DataFormat::Intensity4 => "Intensity 4-bit"@,
            DataFormat::Intensity8 => "Intensity 8-bit"@,
            DataFormat::IntensityA4 => "Intensity 4-bit With Alpha"@,
            DataFormat::IntensityA8 => "Intensity 8-bit With Alpha"@,
            DataFormat::Rgb565 => "RGB565"@,
            DataFormat::Rgb5a3 => "RGB5A3"@,
            DataFormat::Argb8888 => "ARGB8888"@,
            DataFormat::Index4 => "4-bit Indexed"@,
            DataFormat::Index8 => "8-bit Indexed"@,
            DataFormat::Dxt1 => "DXT1 Compressed"@,
        }
    }

    /// The number that the codec stores for this format in a texture header.
    pub open spec fn spec_code(self) -> u8 {
        match self {
            DataFormat::Intensity4 => 0x00u8,
            DataFormat::Intensity8 => 0x01u8,
            DataFormat::IntensityA4 => 0x02u8,
            DataFormat::IntensityA8 => 0x03u8,
            DataFormat::Rgb565 => 0x04u8,
            DataFormat::Rgb5a3 => 0x05u8,
            DataFormat::Argb8888 => 0x06u8,
            DataFormat::Index4 => 0x08u8,
            DataFormat::Index8 => 0x09u8,
            DataFormat::Dxt1 => 0x0Eu8,
        }
    }

    /// Whether the pixels are indices into a color palette.
    pub open spec fn spec_is_palettized(self) -> bool {
        self == DataFormat::Index4 || self == DataFormat::Index8
    }

    /// Whether a texture in this format can carry mipmaps.
    pub open spec fn spec_supports_mipmaps(self) -> bool {
        self == DataFormat::Dxt1 || self == DataFormat::Rgb565 || self == DataFormat::Rgb5a3
    }

    /// The label shown to the user.
    pub fn label(self) -> (text: &'static str)
        ensures
            text@ == self.spec_label(),
    {
        match self {
            DataFormat::Intensity4 => "Intensity 4-bit",
            DataFormat::Intensity8 => "Intensity 8-bit",
            DataFormat::IntensityA4 => "Intensity 4-bit With Alpha",
            DataFormat::IntensityA8 => "Intensity 8-bit With Alpha",
            DataFormat::Rgb565 => "RGB565",
            DataFormat::Rgb5a3 => "RGB5A3",
            DataFormat::Argb8888 => "ARGB8888",
            DataFormat::Index4 => "4-bit Indexed",
            DataFormat::Index8 => "8-bit Indexed",
            DataFormat::Dxt1 => "DXT1 Compressed",
        }
    }

    /// The number that the codec stores for this format in a texture header.
    pub fn code(self) -> (code: u8)
        ensures
            code == self.spec_code(),
            is_data_format_code(code),
    {
        match self {
            DataFormat::Intensity4 => 0x00,
            DataFormat::Intensity8 => 0x01,
            DataFormat::IntensityA4 => 0x02,
            DataFormat::IntensityA8 => 0x03,
            DataFormat::Rgb565 => 0x04,
            DataFormat::Rgb5a3 => 0x05,
            DataFormat::Argb8888 => 0x06,
            DataFormat::Index4 => 0x08,
            DataFormat::Index8 => 0x09,
            DataFormat::Dxt1 => 0x0E,
        }
    }

    /// Whether the pixels are indices into a color palette. Only then does a
    /// palette pixel format have any effect.
    pub fn is_palettized(self) -> (palettized: bool)
        ensures
            palettized == self.spec_is_palettized(),
    {
        match self {
            DataFormat::Index4 | DataFormat::Index8 => true,
            _ => false,
        }
    }

    /// Whether a texture in this format can carry mipmaps.
    pub fn supports_mipmaps(self) -> (supported: bool)
        ensures
            supported == self.spec_supports_mipmaps(),
    {
        match self {
            DataFormat::Dxt1 | DataFormat::Rgb565 | DataFormat::Rgb5a3 => true,
            _ => false,
        }
    }
}

/// The numbers that stand for a data format in a texture header.
pub open spec fn is_data_format_code(code: u8) -> bool {
    code <= 0x06 || code == 0x08 || code == 0x09 || code == 0x0E
}

/// The numbers that stand for a palette pixel format in a texture header.
pub open spec fn is_pixel_format_code(code: u8) -> bool {
    code <= 2
}

/// The numbers that stand for the two indexed data formats.
pub open spec fn is_palettized_code(code: u8) -> bool {
    code == 0x08 || code == 0x09
}

/// The numbers that stand for the data formats that can carry mipmaps.
pub open spec fn is_mipmap_code(code: u8) -> bool {
    code == 0x04 || code == 0x05 || code == 0x0E
}

/// Every number that stands for a data format stands for exactly one, and
/// the indexed formats and the formats with mipmaps are told apart by
/// their numbers alone.
pub proof fn data_format_codes_are_faithful(a: DataFormat, b: DataFormat)
    ensures
        is_data_format_code(a.spec_code()),
        a.spec_code() == b.spec_code() <==> a == b,
        is_palettized_code(a.spec_code()) <==> a.spec_is_palettized(),
        is_mipmap_code(a.spec_code()) <==> a.spec_supports_mipmaps(),
{
}

/// Every number that stands for a palette pixel format stands for exactly
/// one.
pub proof fn pixel_format_codes_are_faithful(a: PixelFormat, b: PixelFormat)
    ensures
        is_pixel_format_code(a.spec_code()),
        a.spec_code() == b.spec_code() <==> a == b,
{
}

/// No data format both is indexed and can carry mipmaps.
pub proof fn palettized_formats_have_no_mipmaps(data_format: DataFormat)
    ensures
        !(data_format.spec_is_palettized() && data_format.spec_supports_mipmaps()),
{
}

} // verus!
