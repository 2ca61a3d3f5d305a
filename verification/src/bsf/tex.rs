//! Colors, materials, textures and rasters.
//!
//! Floating-point fields are kept as their IEEE-754 single-precision bit
//! patterns, read as little-endian words; `f32::from_bits` gives the number.

use crate::wire::{
    le_u16_at, le_u32_at, read_le_u16, read_le_u32, read_u8, tail_from, take_at, ParseError, Record,
};
use vstd::prelude::*;
use vstd::slice::slice_to_vec;
use vstd::utf8::{decode_utf8, valid_utf8};

verus! {

/// A color with eight bits per channel.
#[derive(Clone, Copy, Debug, PartialEq, Eq, Structural)]
pub struct RwRGBA {
    pub r: u8,
    pub g: u8,
    pub b: u8,
    pub a: u8,
}

impl Record for RwRGBA {
    open spec fn spec_size() -> nat {
        4
    }

    /// Red, green, blue, alpha: one byte each.
    open spec fn spec_at(s: Seq<u8>, at: int) -> RwRGBA {
        RwRGBA { r: s[at], g: s[at + 1], b: s[at + 2], a: s[at + 3] }
    }

    fn size() -> (n: usize) {
        4
    }

    fn read_at(i: &[u8], at: usize) -> (r: Result<RwRGBA, ParseError>) {
        if at > i.len() || i.len() - at < 4 {
            return Err(ParseError::TruncatedInput);
        }
        let r: u8 = read_u8(i, at)?;
        let g: u8 = read_u8(i, at + 1)?;
        let b: u8 = read_u8(i, at + 2)?;
        let a: u8 = read_u8(i, at + 3)?;
        Ok(RwRGBA { r, g, b, a })
    }
}

/// One texture coordinate; both fields are `f32` bit patterns.
#[derive(Clone, Copy, Debug, PartialEq, Eq, Structural)]
pub struct RwTexCoords {
    pub u: u32,
    pub v: u32,
}

impl Record for RwTexCoords {
    open spec fn spec_size() -> nat {
        8
    }

    /// Two words: `u`, then `v`.
    open spec fn spec_at(s: Seq<u8>, at: int) -> RwTexCoords {
        RwTexCoords { u: le_u32_at(s, at), v: le_u32_at(s, at + 4) }
    }

    fn size() -> (n: usize) {
        8
    }

    fn read_at(i: &[u8], at: usize) -> (r: Result<RwTexCoords, ParseError>) {
        if at > i.len() || i.len() - at < 8 {
            return Err(ParseError::TruncatedInput);
        }
        let u: u32 = read_le_u32(i, at)?;
        let v: u32 = read_le_u32(i, at + 4)?;
        Ok(RwTexCoords { u, v })
    }
}

impl RwTexCoords {
    /// Both coordinates, `u` first, as bit patterns.
    pub fn as_arr(&self) -> (arr: [u32; 2])
        ensures
            arr@ == seq![self.u, self.v],
    {
        [self.u, self.v]
    }
}

/// Lighting coefficients of a surface; all three are `f32` bit patterns.
#[derive(Clone, Copy, Debug, PartialEq, Eq, Structural)]
pub struct RpSurfProp {
    pub ambient: u32,
    pub specular: u32,
    pub diffuse: u32,
}

impl Record for RpSurfProp {
    open spec fn spec_size() -> nat {
        12
    }

    /// Three words: ambient, specular, diffuse.
    open spec fn spec_at(s: Seq<u8>, at: int) -> RpSurfProp {
        RpSurfProp {
            ambient: le_u32_at(s, at),
            specular: le_u32_at(s, at + 4),
            diffuse: le_u32_at(s, at + 8),
        }
    }

    fn size() -> (n: usize) {
        12
    }

    fn read_at(i: &[u8], at: usize) -> (r: Result<RpSurfProp, ParseError>) {
        if at > i.len() || i.len() - at < 12 {
            return Err(ParseError::TruncatedInput);
        }
        let ambient: u32 = read_le_u32(i, at)?;
        let specular: u32 = read_le_u32(i, at + 4)?;
        let diffuse: u32 = read_le_u32(i, at + 8)?;
        Ok(RpSurfProp { ambient, specular, diffuse })
    }
}

/// Materials written by versions above this one carry surface properties.
pub const MATERIAL_SURFACE_PROP_AFTER: u32 = 0x30400;

/// A material: its base color and, in newer files, its surface properties.
#[derive(Clone, Copy, Debug, PartialEq, Eq, Structural)]
pub struct RpMaterial {
    pub color: RwRGBA,
    pub surface_prop: Option<RpSurfProp>,
}

impl RpMaterial {
    /// Bytes a material takes when written by `version`.
    pub open spec fn spec_len(version: u32) -> int {
        if version > MATERIAL_SURFACE_PROP_AFTER {
            28
        } else {
            16
        }
    }

    /// What decoding `s` as a material of `version` gives: a flags word
    /// that is skipped, the color, two more skipped words, and after the
    /// threshold version the surface properties.
    pub open spec fn spec_parse(s: Seq<u8>, version: u32) -> Result<RpMaterial, ParseError> {
        if s.len() < Self::spec_len(version) {
            Err(ParseError::TruncatedInput)
        } else {
            Ok(
                RpMaterial {
                    color: RwRGBA::spec_at(s, 4),
                    surface_prop: if version > MATERIAL_SURFACE_PROP_AFTER {
                        Some(RpSurfProp::spec_at(s, 16))
                    } else {
                        None
                    },
                },
            )
        }
    }

    /// Decodes a material of the given format version from the front of
    /// `i` and hands back what follows it.
    pub fn parse<'a>(i: &'a [u8], version: u32) -> (r: Result<(&'a [u8], RpMaterial), ParseError>)
        ensures
            match r {
                Ok((rest, material)) => Self::spec_parse(i@, version) == Ok::<
                    RpMaterial,
                    ParseError,
                >(material) && rest@ == i@.skip(Self::spec_len(version)),
                Err(e) => Self::spec_parse(i@, version) == Err::<RpMaterial, ParseError>(e),
            },
    {
        let _flags: u32 = read_le_u32(i, 0)?;
        let color: RwRGBA = RwRGBA::read_at(i, 4)?;
        let _unused: u32 = read_le_u32(i, 8)?;
        let _is_textured: u32 = read_le_u32(i, 12)?;
        if version > MATERIAL_SURFACE_PROP_AFTER {
            let s: RpSurfProp = RpSurfProp::read_at(i, 16)?;
            Ok((tail_from(i, 28), RpMaterial { color, surface_prop: Some(s) }))
        } else {
            Ok((tail_from(i, 16), RpMaterial { color, surface_prop: None }))
        }
    }
}

/// How a texture is sampled.
#[derive(Clone, Copy, Debug, PartialEq, Eq, Structural)]
pub enum TextureFilteringMode {
    /// Filtering is disabled.
    FILTERNAFILTERMODE,
    /// Point sampled.
    FILTERNEAREST,
    /// Bilinear.
    FILTERLINEAR,
    /// Point sampled per pixel mip map.
    FILTERMIPNEAREST,
    /// Bilinear per pixel mip map.
    FILTERMIPLINEAR,
    /// Mip map interpolated, point sampled.
    FILTERLINEARMIPNEAREST,
    /// Trilinear.
    FILTERLINEARMIPLINEAR,
}

impl TextureFilteringMode {
    /// The mode with the given code, if there is one.
    pub open spec fn spec_from_u8(n: u8) -> Option<TextureFilteringMode> {
        if n == 0 {
            Some(TextureFilteringMode::FILTERNAFILTERMODE)
        } else if n == 1 {
            Some(TextureFilteringMode::FILTERNEAREST)
        } else if n == 2 {
            Some(TextureFilteringMode::FILTERLINEAR)
        } else if n == 3 {
            Some(TextureFilteringMode::FILTERMIPNEAREST)
        } else if n == 4 {
            Some(TextureFilteringMode::FILTERMIPLINEAR)
        } else if n == 5 {
            Some(TextureFilteringMode::FILTERLINEARMIPNEAREST)
        } else if n == 6 {
            Some(TextureFilteringMode::FILTERLINEARMIPLINEAR)
        } else {
            None
        }
    }

    /// The mode with the given code; codes above 6 name none.
    pub fn from_u8(n: u8) -> (r: Option<TextureFilteringMode>)
        ensures
            r == Self::spec_from_u8(n),
            r.is_some() <==> n <= 6,
    {
        match n {
            0 => Some(TextureFilteringMode::FILTERNAFILTERMODE),
            1 => Some(TextureFilteringMode::FILTERNEAREST),
            2 => Some(TextureFilteringMode::FILTERLINEAR),
            3 => Some(TextureFilteringMode::FILTERMIPNEAREST),
            4 => Some(TextureFilteringMode::FILTERMIPLINEAR),
            5 => Some(TextureFilteringMode::FILTERLINEARMIPNEAREST),
            6 => Some(TextureFilteringMode::FILTERLINEARMIPLINEAR),
            _ => None,
        }
    }
}

/// How texture coordinates outside the unit square are treated.
#[derive(Clone, Copy, Debug, PartialEq, Eq, Structural)]
pub enum TextureAddressingMode {
    /// No tiling.
    TEXTUREADDRESSNATEXTUREADDRESS,
    /// Tile in the U or V direction.
    TEXTUREADDRESSWRAP,
    /// Mirror in the U or V direction.
    TEXTUREADDRESSMIRROR,
    TEXTUREADDRESSCLAMP,
    TEXTUREADDRESSBORDER,
}

impl TextureAddressingMode {
    /// The mode with the given code, if there is one.
    pub open spec fn spec_from_u8(n: u8) -> Option<TextureAddressingMode> {
        if n == 0 {
            Some(TextureAddressingMode::TEXTUREADDRESSNATEXTUREADDRESS)
        } else if n == 1 {
            Some(TextureAddressingMode::TEXTUREADDRESSWRAP)
        } else if n == 2 {
            Some(TextureAddressingMode::TEXTUREADDRESSMIRROR)
        } else if n == 3 {
            Some(TextureAddressingMode::TEXTUREADDRESSCLAMP)
        } else if n == 4 {
            Some(TextureAddressingMode::TEXTUREADDRESSBORDER)
        } else {
            None
        }
    }

    /// The mode with the given code; codes above 4 name none.
    pub fn from_u8(n: u8) -> (r: Option<TextureAddressingMode>)
        ensures
            r == Self::spec_from_u8(n),
            r.is_some() <==> n <= 4,
    {
        match n {
            0 => Some(TextureAddressingMode::TEXTUREADDRESSNATEXTUREADDRESS),
            1 => Some(TextureAddressingMode::TEXTUREADDRESSWRAP),
            2 => Some(TextureAddressingMode::TEXTUREADDRESSMIRROR),
            3 => Some(TextureAddressingMode::TEXTUREADDRESSCLAMP),
            4 => Some(TextureAddressingMode::TEXTUREADDRESSBORDER),
            _ => None,
        }
    }
}

/// Shift that brings the first axis' addressing mode to the low nibble.
pub const ADDRESSING_FIRST_AXIS_SHIFT: u8 = 4;

/// Mask of the second axis' addressing mode.
pub const ADDRESSING_SECOND_AXIS_MASK: u8 = 0x0F;

/// The addressing modes packed into one byte: the first axis in the high
/// nibble, the second axis in the low one. `None` where either nibble
/// names no mode.
pub open spec fn spec_addressing_pair(b: u8) -> Option<[TextureAddressingMode; 2]> {
    match (
        TextureAddressingMode::spec_from_u8(b >> ADDRESSING_FIRST_AXIS_SHIFT),
        TextureAddressingMode::spec_from_u8(b & ADDRESSING_SECOND_AXIS_MASK),
    ) {
        (Some(first), Some(second)) => Some([first, second]),
        _ => None,
    }
}

/// Unpacks the two addressing modes of a byte.
pub fn addressing_pair(b: u8) -> (r: Option<[TextureAddressingMode; 2]>)
    ensures
        r == spec_addressing_pair(b),
{
    let first: Option<TextureAddressingMode> = TextureAddressingMode::from_u8(
        b >> ADDRESSING_FIRST_AXIS_SHIFT,
    );
    let second: Option<TextureAddressingMode> = TextureAddressingMode::from_u8(
        b & ADDRESSING_SECOND_AXIS_MASK,
    );
    match (first, second) {
        (Some(first), Some(second)) => Some([first, second]),
        _ => None,
    }
}

/// Sampling state of a texture.
#[derive(Clone, Copy, Debug)]
pub struct RpTexture {
    pub filtering: TextureFilteringMode,
    /// Addressing along the first and the second axis.
    pub addressing: [TextureAddressingMode; 2],
    pub has_mip: bool,
}

impl RpTexture {
    /// What decoding `s` as a texture gives. The fields are taken in
    /// order and the first one that cannot be had decides the error: the
    /// filtering byte, the addressing byte, the 16-bit mip flag.
    pub open spec fn spec_parse(s: Seq<u8>) -> Result<RpTexture, ParseError> {
        if s.len() < 1 {
            Err(ParseError::TruncatedInput)
        } else {
            match TextureFilteringMode::spec_from_u8(s[0]) {
                None => Err(ParseError::InvalidEnumValue),
                Some(filtering) => if s.len() < 2 {
                    Err(ParseError::TruncatedInput)
                } else {
                    match spec_addressing_pair(s[1]) {
                        None => Err(ParseError::InvalidEnumValue),
                        Some(addressing) => if s.len() < 4 {
                            Err(ParseError::TruncatedInput)
                        } else {
                            Ok(RpTexture { filtering, addressing, has_mip: le_u16_at(s, 2) != 0 })
                        },
                    }
                },
            }
        }
    }

    /// Decodes a texture from the front of `i` and hands back what
    /// follows its four bytes.
    pub fn parse<'a>(i: &'a [u8]) -> (r: Result<(&'a [u8], RpTexture), ParseError>)
        ensures
            match r {
                Ok((rest, texture)) => Self::spec_parse(i@) == Ok::<RpTexture, ParseError>(texture)
                    && rest@ == i@.skip(4),
                Err(e) => Self::spec_parse(i@) == Err::<RpTexture, ParseError>(e),
            },
    {
        let f: u8 = read_u8(i, 0)?;
        let filtering: TextureFilteringMode = match TextureFilteringMode::from_u8(f) {
            Some(m) => m,
            None => return Err(ParseError::InvalidEnumValue),
        };
        let addr: u8 = read_u8(i, 1)?;
        let addressing: [TextureAddressingMode; 2] = match addressing_pair(addr) {
            Some(p) => p,
            None => return Err(ParseError::InvalidEnumValue),
        };
        let mip: u16 = read_le_u16(i, 2)?;
        Ok((tail_from(i, 4), RpTexture { filtering, addressing, has_mip: mip != 0 }))
    }
}

/// Pixel formats and format extensions of a raster.
#[derive(Clone, Copy, Debug, PartialEq, Eq, Structural)]
pub enum RasterFormat {
    FormatDefault,
    /// 1 bit alpha, RGB 5 bits each; also used for DXT1 with alpha.
    Format1555,
    /// 5 bits red, 6 bits green, 5 bits blue; also used for DXT1 without alpha.
    Format565,
    /// RGBA 4 bits each; also used for DXT3.
    Format4444,
    /// Gray scale.
    FormatLum8,
    /// RGBA 8 bits each.
    Format8888,
    /// RGB 8 bits each.
    Format888,
    /// RGB 5 bits each.
    Format555,
    /// Mip maps are generated on load.
    FormatExtAutoMipmap,
    /// 256 palette colors.
    FormatExtPal8,
    /// 16 palette colors.
    FormatExtPal4,
    /// Mip maps are included.
    FormatExtMipmap,
}

impl RasterFormat {
    /// The code that stands for this format in a file.
    pub open spec fn spec_code(self) -> u32 {
        match self {
            RasterFormat::FormatDefault => 0x0000,
            RasterFormat::Format1555 => 0x0100,
            RasterFormat::Format565 => 0x0200,
            RasterFormat::Format4444 => 0x0300,
            RasterFormat::FormatLum8 => 0x0400,
            RasterFormat::Format8888 => 0x0500,
            RasterFormat::Format888 => 0x0600,
            RasterFormat::Format555 => 0x0A00,
            RasterFormat::FormatExtAutoMipmap => 0x1000,
            RasterFormat::FormatExtPal8 => 0x2000,
            RasterFormat::FormatExtPal4 => 0x4000,
            RasterFormat::FormatExtMipmap => 0x8000,
        }
    }

    /// The code that stands for this format in a file.
    pub fn to_u32(self) -> (code: u32)
        ensures
            code == self.spec_code(),
    {
        match self {
            RasterFormat::FormatDefault => 0x0000,
            RasterFormat::Format1555 => 0x0100,
            RasterFormat::Format565 => 0x0200,
            RasterFormat::Format4444 => 0x0300,
            RasterFormat::FormatLum8 => 0x0400,
            RasterFormat::Format8888 => 0x0500,
            RasterFormat::Format888 => 0x0600,
            RasterFormat::Format555 => 0x0A00,
            RasterFormat::FormatExtAutoMipmap => 0x1000,
            RasterFormat::FormatExtPal8 => 0x2000,
            RasterFormat::FormatExtPal4 => 0x4000,
            RasterFormat::FormatExtMipmap => 0x8000,
        }
    }

    /// The format that `code` stands for: the one whose code it is, and
    /// none for any other number.
    pub fn from_u32(code: u32) -> (r: Option<RasterFormat>)
        ensures
            match r {
                Some(format) => format.spec_code() == code,
                None => forall|format: RasterFormat| format.spec_code() != code,
            },
    {
        match code {
            0x0000 => Some(RasterFormat::FormatDefault),
            0x0100 => Some(RasterFormat::Format1555),
            0x0200 => Some(RasterFormat::Format565),
            0x0300 => Some(RasterFormat::Format4444),
            0x0400 => Some(RasterFormat::FormatLum8),
            0x0500 => Some(RasterFormat::Format8888),
            0x0600 => Some(RasterFormat::Format888),
            0x0A00 => Some(RasterFormat::Format555),
            0x1000 => Some(RasterFormat::FormatExtAutoMipmap),
            0x2000 => Some(RasterFormat::FormatExtPal8),
            0x4000 => Some(RasterFormat::FormatExtPal4),
            0x8000 => Some(RasterFormat::FormatExtMipmap),
            _ => None,
        }
    }
}

/// Rasters written by this version or a later one use the modern layout of
/// the two version-dependent fields.
pub const RASTER_MODERN_FROM: u32 = 0x36003;

/// Bit of the modern flag byte: the raster has an alpha channel.
pub const RASTER_FLAG_HAS_ALPHA: u8 = 0x80;

/// Bit of the modern flag byte: the raster is a cube texture.
pub const RASTER_FLAG_CUBE_TEXTURE: u8 = 0x40;

/// Bit of the modern flag byte: mip maps are generated on load.
pub const RASTER_FLAG_AUTO_MIPMAPS: u8 = 0x20;

/// Bit of the modern flag byte: the pixel data is compressed.
pub const RASTER_FLAG_COMPRESSED: u8 = 0x10;

/// Bytes of each of the two name fields of a raster.
pub const RASTER_NAME_LEN: usize = 32;

/// Bytes of a raster before its pixel data.
pub const RASTER_HEADER_LEN: usize = 88;

/// The filtering code of a raster's packed sampling word: its top byte.
pub open spec fn spec_raster_filter_byte(packed: u32) -> u8 {
    (packed >> 24) as u8
}

/// The addressing byte of a raster's packed sampling word: bits 16 to 23.
pub open spec fn spec_raster_addressing_byte(packed: u32) -> u8 {
    ((packed >> 16) & 0xFF) as u8
}

/// Takes the filtering code out of a raster's packed sampling word.
pub fn raster_filter_byte(packed: u32) -> (b: u8)
    ensures
        b == spec_raster_filter_byte(packed),
{
    let top: u32 = packed >> 24;
    assert(top <= 0xFF) by (bit_vector)
        requires
            top == packed >> 24,
    ;
    top as u8
}

/// Takes the addressing byte out of a raster's packed sampling word.
pub fn raster_addressing_byte(packed: u32) -> (b: u8)
    ensures
        b == spec_raster_addressing_byte(packed),
{
    let mid: u32 = (packed >> 16) & 0xFF;
    assert(mid <= 0xFF) by (bit_vector)
        requires
            mid == (packed >> 16) & 0xFF,
    ;
    mid as u8
}

/// `s` without the zero bytes at its end.
pub open spec fn strip_trailing_nul(s: Seq<u8>) -> Seq<u8>
    decreases s.len(),
{
    if s.len() > 0 && s.last() == 0 {
        strip_trailing_nul(s.drop_last())
    } else {
        s
    }
}

/// The text that `String::from_utf8_lossy` makes of a byte string. For
/// well-formed UTF-8 it is the decoded text; elsewhere each malformed
/// sequence is replaced by U+FFFD.
pub uninterp spec fn utf8_lossy_text(bytes: Seq<u8>) -> Seq<char>;

/// `String::from_utf8_lossy`, made into an owned string. Not proved: the
/// text depends on the bytes alone, and for well-formed UTF-8 it is the
/// decoded text.
#[verifier::external_body]
fn string_from_utf8_lossy(bytes: &[u8]) -> (text: String)
    ensures
        text@ == utf8_lossy_text(bytes@),
        valid_utf8(bytes@) ==> text@ == decode_utf8(bytes@),
{
    String::from_utf8_lossy(bytes).into_owned()
}

/// The text of a fixed-width, NUL-padded name field.
pub open spec fn spec_padded_name(field: Seq<u8>) -> Seq<char> {
    utf8_lossy_text(strip_trailing_nul(field))
}

/// The bytes of a NUL-padded field without the padding at its end.
pub fn without_trailing_nul<'a>(field: &'a [u8]) -> (name: &'a [u8])
    ensures
        name@ == strip_trailing_nul(field@),
{
    let mut end: usize = field.len();
    assert(field@.take(end as int) =~= field@);
    while end > 0 && field[end - 1] == 0
        invariant
            end <= field@.len(),
            strip_trailing_nul(field@) == strip_trailing_nul(field@.take(end as int)),
        decreases end,
    {
        assert(field@.take(end as int).drop_last() =~= field@.take(end - 1));
        end = end - 1;
    }
    assert(field@.take(end as int) =~= field@.subrange(0, end as int));
    vstd::slice::slice_subrange(field, 0, end)
}

/// Decodes a fixed-width name field: the NUL padding at its end is
/// dropped and the rest is read as UTF-8, malformed sequences replaced.
pub fn padded_name(field: &[u8]) -> (name: String)
    ensures
        name@ == spec_padded_name(field@),
        valid_utf8(strip_trailing_nul(field@)) ==> name@ == decode_utf8(strip_trailing_nul(field@)),
{
    string_from_utf8_lossy(without_trailing_nul(field))
}

/// A raster of the PC platform: its header and its pixel data.
#[derive(Debug)]
pub struct RpRasterPC {
    pub platform_id: u32,
    pub filtering: TextureFilteringMode,
    /// Addressing along the first and the second axis.
    pub addressing: [TextureAddressingMode; 2],
    pub name: String,
    pub mask_name: String,
    pub raster_format: u32,
    /// The modern format code; zero in the legacy layout.
    pub d3d_format: u32,
    pub width: u16,
    pub height: u16,
    pub depth: u8,
    pub num_levels: u8,
    pub raster_type: u8,
    /// The legacy compression value; zero in the modern layout.
    pub compression: u8,
    pub has_alpha: bool,
    pub cube_texture: bool,
    pub auto_mipmaps: bool,
    pub compressed: bool,
    /// Everything after the header, untouched.
    pub data: Vec<u8>,
}

/// What a raster holds, as plain values.
pub struct RasterModel {
    pub platform_id: u32,
    pub filtering: TextureFilteringMode,
    pub addressing: [TextureAddressingMode; 2],
    pub name: Seq<char>,
    pub mask_name: Seq<char>,
    pub raster_format: u32,
    pub d3d_format: u32,
    pub width: u16,
    pub height: u16,
    pub depth: u8,
    pub num_levels: u8,
    pub raster_type: u8,
    pub compression: u8,
    pub has_alpha: bool,
    pub cube_texture: bool,
    pub auto_mipmaps: bool,
    pub compressed: bool,
    pub data: Seq<u8>,
}

impl View for RpRasterPC {
    type V = RasterModel;

    open spec fn view(&self) -> RasterModel {
        RasterModel {
            platform_id: self.platform_id,
            filtering: self.filtering,
            addressing: self.addressing,
            name: self.name@,
            mask_name: self.mask_name@,
            raster_format: self.raster_format,
            d3d_format: self.d3d_format,
            width: self.width,
            height: self.height,
            depth: self.depth,
            num_levels: self.num_levels,
            raster_type: self.raster_type,
            compression: self.compression,
            has_alpha: self.has_alpha,
            cube_texture: self.cube_texture,
            auto_mipmaps: self.auto_mipmaps,
            compressed: self.compressed,
            data: self.data@,
        }
    }
}

impl Clone for RpRasterPC {
    fn clone(&self) -> (copy: Self)
        ensures
            copy@ == self@,
    {
        let data: Vec<u8> = self.data.clone();
        assert(data@ =~= self.data@);
        RpRasterPC {
            platform_id: self.platform_id,
            filtering: self.filtering,
            addressing: self.addressing,
            name: self.name.clone(),
            mask_name: self.mask_name.clone(),
            raster_format: self.raster_format,
            d3d_format: self.d3d_format,
            width: self.width,
            height: self.height,
            depth: self.depth,
            num_levels: self.num_levels,
            raster_type: self.raster_type,
            compression: self.compression,
            has_alpha: self.has_alpha,
            cube_texture: self.cube_texture,
            auto_mipmaps: self.auto_mipmaps,
            compressed: self.compressed,
            data,
        }
    }
}

impl RpRasterPC {
    /// The raster that the header at the front of `s` and the bytes after
    /// it describe, given the filtering and addressing modes that its
    /// packed sampling word names. `s` holds at least the whole header.
    ///
    /// Before the threshold version the word after the raster format is a
    /// flag for an alpha channel and the last header byte a compression
    /// value. From the threshold on the word is the modern format code
    /// and the byte holds four flags, the alpha flag among them.
    pub open spec fn spec_model(
        s: Seq<u8>,
        version: u32,
        filtering: TextureFilteringMode,
        addressing: [TextureAddressingMode; 2],
    ) -> RasterModel {
        let legacy = version < RASTER_MODERN_FROM;
        let word = le_u32_at(s, 76);
        let last = s[87];
        RasterModel {
            platform_id: le_u32_at(s, 0),
            filtering,
            addressing,
            name: spec_padded_name(s.subrange(8, 40)),
            mask_name: spec_padded_name(s.subrange(40, 72)),
            raster_format: le_u32_at(s, 72),
            d3d_format: if legacy {
                0
            } else {
                word
            },
            width: le_u16_at(s, 80),
            height: le_u16_at(s, 82),
            depth: s[84],
            num_levels: s[85],
            raster_type: s[86],
            compression: if legacy {
                last
            } else {
                0
            },
            has_alpha: if legacy {
                word != 0
            } else {
                last & RASTER_FLAG_HAS_ALPHA != 0
            },
            cube_texture: !legacy && last & RASTER_FLAG_CUBE_TEXTURE != 0,
            auto_mipmaps: !legacy && last & RASTER_FLAG_AUTO_MIPMAPS != 0,
            compressed: !legacy && last & RASTER_FLAG_COMPRESSED != 0,
            data: s.skip(88),
        }
    }

    /// What decoding `s` as a raster of `version` gives. The platform id
    /// and the packed sampling word come first; an unknown filtering or
    /// addressing code in that word is an error before the rest of the
    /// header is looked at.
    pub open spec fn spec_parse(s: Seq<u8>, version: u32) -> Result<RasterModel, ParseError> {
        if s.len() < 8 {
            Err(ParseError::TruncatedInput)
        } else {
            let packed = le_u32_at(s, 4);
            match (
                TextureFilteringMode::spec_from_u8(spec_raster_filter_byte(packed)),
                spec_addressing_pair(spec_raster_addressing_byte(packed)),
            ) {
                (Some(filtering), Some(addressing)) => if s.len() < 88 {
                    Err(ParseError::TruncatedInput)
                } else {
                    Ok(Self::spec_model(s, version, filtering, addressing))
                },
                _ => Err(ParseError::InvalidEnumValue),
            }
        }
    }

    /// Decodes a raster of the given format version. The whole of `i` is
    /// used: what follows the header is the pixel data, so nothing is
    /// handed back as unread.
    pub fn parse<'a>(i: &'a [u8], version: u32) -> (r: Result<(&'a [u8], RpRasterPC), ParseError>)
        ensures
            match r {
                Ok((rest, raster)) => Self::spec_parse(i@, version) == Ok::<
                    RasterModel,
                    ParseError,
                >(raster@) && rest@.len() == 0,
                Err(e) => Self::spec_parse(i@, version) == Err::<RasterModel, ParseError>(e),
            },
    {
        let platform_id: u32 = read_le_u32(i, 0)?;
        let packed: u32 = read_le_u32(i, 4)?;
        let filtering: TextureFilteringMode = match TextureFilteringMode::from_u8(
            raster_filter_byte(packed),
        ) {
            Some(m) => m,
            None => return Err(ParseError::InvalidEnumValue),
        };
        let addressing: [TextureAddressingMode; 2] = match addressing_pair(
            raster_addressing_byte(packed),
        ) {
            Some(p) => p,
            None => return Err(ParseError::InvalidEnumValue),
        };
        let name_field: &[u8] = match take_at(i, 8, RASTER_NAME_LEN) {
            Some(f) => f,
            None => return Err(ParseError::TruncatedInput),
        };
        let mask_field: &[u8] = match take_at(i, 40, RASTER_NAME_LEN) {
            Some(f) => f,
            None => return Err(ParseError::TruncatedInput),
        };
        let raster_format: u32 = read_le_u32(i, 72)?;
        let word: u32 = read_le_u32(i, 76)?;
        let width: u16 = read_le_u16(i, 80)?;
        let height: u16 = read_le_u16(i, 82)?;
        let depth: u8 = read_u8(i, 84)?;
        let num_levels: u8 = read_u8(i, 85)?;
        let raster_type: u8 = read_u8(i, 86)?;
        let last: u8 = read_u8(i, 87)?;
        let legacy: bool = version < RASTER_MODERN_FROM;
        let name: String = padded_name(name_field);
        let mask_name: String = padded_name(mask_field);
        let data: Vec<u8> = slice_to_vec(tail_from(i, RASTER_HEADER_LEN));
        let raster = RpRasterPC {
            platform_id,
            filtering,
            addressing,
            name,
            mask_name,
            raster_format,
            d3d_format: if legacy {
                0
            } else {
                word
            },
            width,
            height,
            depth,
            num_levels,
            raster_type,
            compression: if legacy {
                last
            } else {
                0
            },
            has_alpha: if legacy {
                word != 0
            } else {
                last & RASTER_FLAG_HAS_ALPHA != 0
            },
            cube_texture: !legacy && last & RASTER_FLAG_CUBE_TEXTURE != 0,
            auto_mipmaps: !legacy && last & RASTER_FLAG_AUTO_MIPMAPS != 0,
            compressed: !legacy && last & RASTER_FLAG_COMPRESSED != 0,
            data,
        };
        Ok((tail_from(i, i.len()), raster))
    }
}

/// The version decides alone whether a material carries surface
/// properties: up to the threshold it has none and takes sixteen bytes,
/// above it the block is present and twelve more bytes are taken. The
/// color is the same either way.
pub proof fn lemma_material_version_gate(s: Seq<u8>, old: u32, new: u32)
    requires
        old <= MATERIAL_SURFACE_PROP_AFTER < new,
    ensures
        RpMaterial::spec_len(new) == RpMaterial::spec_len(old) + 12,
        RpMaterial::spec_parse(s, old) matches Ok(material) ==> material.surface_prop is None,
        RpMaterial::spec_parse(s, new) matches Ok(material) ==> material.surface_prop == Some(
            RpSurfProp::spec_at(s, 16),
        ),
        RpMaterial::spec_parse(s, new) matches Ok(material) ==> RpMaterial::spec_parse(s, old)
            == Ok::<RpMaterial, ParseError>(RpMaterial { surface_prop: None, ..material }),
{
}

} // verus!
