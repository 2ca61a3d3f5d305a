use rw_rs::bsf::tex::{
    addressing_pair, padded_name, raster_addressing_byte, raster_filter_byte,
    without_trailing_nul, RasterFormat, RpMaterial, RpRasterPC, RpSurfProp, RpTexture, RwRGBA,
    RwTexCoords, TextureAddressingMode, TextureFilteringMode,
};
use rw_rs::wire::{ParseError, Record};

fn material_bytes() -> Vec<u8> {
    let mut out = Vec::new();
    out.extend_from_slice(&0xAAAA_AAAAu32.to_le_bytes());
    out.extend_from_slice(&[255, 128, 64, 32]);
    out.extend_from_slice(&0xBBBB_BBBBu32.to_le_bytes());
    out.extend_from_slice(&1u32.to_le_bytes());
    out.extend_from_slice(&1.0f32.to_le_bytes());
    out.extend_from_slice(&0.5f32.to_le_bytes());
    out.extend_from_slice(&0.75f32.to_le_bytes());
    out.extend_from_slice(&[0xCC, 0xDD]);
    out
}

fn name_field(name: &[u8]) -> [u8; 32] {
    let mut field = [0u8; 32];
    field[..name.len()].copy_from_slice(name);
    field
}

fn raster_bytes(packed: u32, format_word: u32, last: u8, pixels: &[u8]) -> Vec<u8> {
    let mut out = Vec::new();
    out.extend_from_slice(&8u32.to_le_bytes());
    out.extend_from_slice(&packed.to_le_bytes());
    out.extend_from_slice(&name_field(b"body"));
    out.extend_from_slice(&name_field(b"bodya"));
    out.extend_from_slice(&0x0500u32.to_le_bytes());
    out.extend_from_slice(&format_word.to_le_bytes());
    out.extend_from_slice(&256u16.to_le_bytes());
    out.extend_from_slice(&128u16.to_le_bytes());
    out.extend_from_slice(&[32, 4, 2, last]);
    out.extend_from_slice(pixels);
    out
}

#[test]
fn material_up_to_the_threshold_has_no_surface_properties() {
    let bytes = material_bytes();
    let (rest, m) = RpMaterial::parse(&bytes, 0x30300).unwrap();
    assert_eq!(m.color, RwRGBA { r: 255, g: 128, b: 64, a: 32 });
    assert_eq!(m.surface_prop, None);
    assert_eq!(bytes.len() - rest.len(), 16);
    let (rest, m) = RpMaterial::parse(&bytes, 0x30400).unwrap();
    assert_eq!(m.surface_prop, None);
    assert_eq!(bytes.len() - rest.len(), 16);
}

#[test]
fn material_after_the_threshold_reads_three_more_floats() {
    let bytes = material_bytes();
    let (rest, m) = RpMaterial::parse(&bytes, 0x30500).unwrap();
    assert_eq!(m.color, RwRGBA { r: 255, g: 128, b: 64, a: 32 });
    let prop = m.surface_prop.unwrap();
    assert_eq!(f32::from_bits(prop.ambient), 1.0);
    assert_eq!(f32::from_bits(prop.specular), 0.5);
    assert_eq!(f32::from_bits(prop.diffuse), 0.75);
    assert_eq!(bytes.len() - rest.len(), 28);
    assert_eq!(rest, &[0xCC, 0xDD]);
    let (rest, m) = RpMaterial::parse(&bytes, 0x30401).unwrap();
    assert!(m.surface_prop.is_some());
    assert_eq!(rest.len(), 2);
}

#[test]
fn truncated_material_is_refused() {
    let bytes = material_bytes();
    assert_eq!(RpMaterial::parse(&bytes[..15], 0x30300).err(), Some(ParseError::TruncatedInput));
    assert!(RpMaterial::parse(&bytes[..16], 0x30300).is_ok());
    assert_eq!(RpMaterial::parse(&bytes[..27], 0x30500).err(), Some(ParseError::TruncatedInput));
    assert!(RpMaterial::parse(&bytes[..28], 0x30500).is_ok());
    assert_eq!(RpMaterial::parse(&[], 0).err(), Some(ParseError::TruncatedInput));
}

#[test]
fn texture_fields() {
    let (rest, t) = RpTexture::parse(&[6, 0x24, 0, 0, 0x55]).unwrap();
    assert_eq!(rest, &[0x55]);
    assert_eq!(t.filtering, TextureFilteringMode::FILTERLINEARMIPLINEAR);
    assert_eq!(
        t.addressing,
        [TextureAddressingMode::TEXTUREADDRESSMIRROR, TextureAddressingMode::TEXTUREADDRESSBORDER]
    );
    assert!(!t.has_mip);
    let (_, t) = RpTexture::parse(&[0, 0, 0, 1]).unwrap();
    assert_eq!(t.filtering, TextureFilteringMode::FILTERNAFILTERMODE);
    assert_eq!(t.addressing, [TextureAddressingMode::TEXTUREADDRESSNATEXTUREADDRESS; 2]);
    assert!(t.has_mip);
}

#[test]
fn texture_errors_come_in_field_order() {
    assert_eq!(RpTexture::parse(&[]).err(), Some(ParseError::TruncatedInput));
    assert_eq!(RpTexture::parse(&[7]).err(), Some(ParseError::InvalidEnumValue));
    assert_eq!(RpTexture::parse(&[1]).err(), Some(ParseError::TruncatedInput));
    assert_eq!(RpTexture::parse(&[1, 0x50]).err(), Some(ParseError::InvalidEnumValue));
    assert_eq!(RpTexture::parse(&[1, 0x05]).err(), Some(ParseError::InvalidEnumValue));
    assert_eq!(RpTexture::parse(&[1, 0x44]).err(), Some(ParseError::TruncatedInput));
    assert_eq!(RpTexture::parse(&[1, 0x44, 0]).err(), Some(ParseError::TruncatedInput));
    assert!(RpTexture::parse(&[1, 0x44, 0, 0]).is_ok());
    assert_eq!(RpTexture::parse(&[255, 0xFF, 0, 0]).err(), Some(ParseError::InvalidEnumValue));
}

#[test]
fn filtering_modes_by_code() {
    let all = [
        TextureFilteringMode::FILTERNAFILTERMODE,
        TextureFilteringMode::FILTERNEAREST,
        TextureFilteringMode::FILTERLINEAR,
        TextureFilteringMode::FILTERMIPNEAREST,
        TextureFilteringMode::FILTERMIPLINEAR,
        TextureFilteringMode::FILTERLINEARMIPNEAREST,
        TextureFilteringMode::FILTERLINEARMIPLINEAR,
    ];
    for (code, mode) in all.iter().enumerate() {
        assert_eq!(TextureFilteringMode::from_u8(code as u8), Some(*mode));
    }
    for code in 7..=255u8 {
        assert_eq!(TextureFilteringMode::from_u8(code), None);
    }
}

#[test]
fn addressing_modes_by_code() {
    let all = [
        TextureAddressingMode::TEXTUREADDRESSNATEXTUREADDRESS,
        TextureAddressingMode::TEXTUREADDRESSWRAP,
        TextureAddressingMode::TEXTUREADDRESSMIRROR,
        TextureAddressingMode::TEXTUREADDRESSCLAMP,
        TextureAddressingMode::TEXTUREADDRESSBORDER,
    ];
    for (code, mode) in all.iter().enumerate() {
        assert_eq!(TextureAddressingMode::from_u8(code as u8), Some(*mode));
    }
    for code in 5..=255u8 {
        assert_eq!(TextureAddressingMode::from_u8(code), None);
    }
    assert_eq!(
        addressing_pair(0x31),
        Some([TextureAddressingMode::TEXTUREADDRESSCLAMP, TextureAddressingMode::TEXTUREADDRESSWRAP])
    );
    assert_eq!(addressing_pair(0x15), None);
    assert_eq!(addressing_pair(0x51), None);
}

#[test]
fn raster_sampling_word() {
    assert_eq!(raster_filter_byte(0x0612_3456), 0x06);
    assert_eq!(raster_addressing_byte(0x0612_3456), 0x12);
    assert_eq!(raster_filter_byte(0xFF00_0000), 0xFF);
    assert_eq!(raster_addressing_byte(0x00FF_FFFF), 0xFF);
}

#[test]
fn legacy_raster() {
    let bytes = raster_bytes(0x0213_0000, 1, 0x93, &[1, 2, 3, 4, 5]);
    let (rest, r) = RpRasterPC::parse(&bytes, 0x36002).unwrap();
    assert!(rest.is_empty());
    assert_eq!(r.platform_id, 8);
    assert_eq!(r.filtering, TextureFilteringMode::FILTERLINEAR);
    assert_eq!(
        r.addressing,
        [TextureAddressingMode::TEXTUREADDRESSWRAP, TextureAddressingMode::TEXTUREADDRESSCLAMP]
    );
    assert_eq!(r.name, "body");
    assert_eq!(r.mask_name, "bodya");
    assert_eq!(r.raster_format, 0x0500);
    assert_eq!(r.d3d_format, 0);
    assert_eq!(r.width, 256);
    assert_eq!(r.height, 128);
    assert_eq!(r.depth, 32);
    assert_eq!(r.num_levels, 4);
    assert_eq!(r.raster_type, 2);
    assert_eq!(r.compression, 0x93);
    assert!(r.has_alpha);
    assert!(!r.cube_texture);
    assert!(!r.auto_mipmaps);
    assert!(!r.compressed);
    assert_eq!(r.data, vec![1, 2, 3, 4, 5]);
    let bytes = raster_bytes(0x0213_0000, 0, 0xFF, &[]);
    let (_, r) = RpRasterPC::parse(&bytes, 0).unwrap();
    assert!(!r.has_alpha);
    assert_eq!(r.compression, 0xFF);
    assert!(r.data.is_empty());
}

#[test]
fn modern_raster() {
    let bytes = raster_bytes(0x0122_0000, 0x3154_5844, 0xA0, &[9, 9]);
    let (rest, r) = RpRasterPC::parse(&bytes, 0x36003).unwrap();
    assert!(rest.is_empty());
    assert_eq!(r.filtering, TextureFilteringMode::FILTERNEAREST);
    assert_eq!(r.addressing, [TextureAddressingMode::TEXTUREADDRESSMIRROR; 2]);
    assert_eq!(r.d3d_format, 0x3154_5844);
    assert_eq!(r.compression, 0);
    assert!(r.has_alpha);
    assert!(!r.cube_texture);
    assert!(r.auto_mipmaps);
    assert!(!r.compressed);
    assert_eq!(r.data, vec![9, 9]);
    let bytes = raster_bytes(0x0122_0000, 7, 0x5F, &[]);
    let (_, r) = RpRasterPC::parse(&bytes, 0x36003).unwrap();
    assert!(!r.has_alpha);
    assert!(r.cube_texture);
    assert!(!r.auto_mipmaps);
    assert!(r.compressed);
    assert_eq!(r.d3d_format, 7);
}

#[test]
fn raster_errors() {
    let bytes = raster_bytes(0x0213_0000, 1, 0, &[]);
    assert_eq!(bytes.len(), 88);
    for cut in 0..88 {
        assert_eq!(
            RpRasterPC::parse(&bytes[..cut], 0x36003).err(),
            Some(ParseError::TruncatedInput)
        );
    }
    let bad_filter = raster_bytes(0x0713_0000, 1, 0, &[]);
    assert_eq!(RpRasterPC::parse(&bad_filter, 0).err(), Some(ParseError::InvalidEnumValue));
    assert_eq!(RpRasterPC::parse(&bad_filter[..8], 0).err(), Some(ParseError::InvalidEnumValue));
    let bad_first = raster_bytes(0x0253_0000, 1, 0, &[]);
    assert_eq!(RpRasterPC::parse(&bad_first, 0).err(), Some(ParseError::InvalidEnumValue));
    let bad_second = raster_bytes(0x0235_0000, 1, 0, &[]);
    assert_eq!(RpRasterPC::parse(&bad_second, 0).err(), Some(ParseError::InvalidEnumValue));
}

#[test]
fn names_lose_their_padding_only() {
    assert_eq!(without_trailing_nul(b"abc\0\0\0"), b"abc");
    assert_eq!(without_trailing_nul(b"a\0c\0"), b"a\0c");
    assert_eq!(without_trailing_nul(b"\0abc"), b"\0abc");
    assert_eq!(without_trailing_nul(b"\0\0"), b"");
    assert_eq!(without_trailing_nul(b""), b"");
    assert_eq!(padded_name(&name_field(b"wheel")), "wheel");
    assert_eq!(padded_name(&name_field(b"")), "");
    assert_eq!(padded_name(&[b'x'; 32]), "x".repeat(32));
    assert_eq!(padded_name(b"a\0b\0\0"), "a\0b");
}

#[test]
fn malformed_names_are_read_with_replacements() {
    assert_eq!(padded_name(&[b'a', 0xFF, b'b', 0, 0]), "a\u{FFFD}b");
    assert_eq!(padded_name(&[0xE4, 0xF6, 0xFC]), "\u{FFFD}\u{FFFD}\u{FFFD}");
    assert_eq!(padded_name("gr\u{fc}n\0\0".as_bytes()), "gr\u{fc}n");
}

#[test]
fn raster_formats_by_code() {
    let all = [
        (RasterFormat::FormatDefault, 0x0000u32),
        (RasterFormat::Format1555, 0x0100),
        (RasterFormat::Format565, 0x0200),
        (RasterFormat::Format4444, 0x0300),
        (RasterFormat::FormatLum8, 0x0400),
        (RasterFormat::Format8888, 0x0500),
        (RasterFormat::Format888, 0x0600),
        (RasterFormat::Format555, 0x0A00),
        (RasterFormat::FormatExtAutoMipmap, 0x1000),
        (RasterFormat::FormatExtPal8, 0x2000),
        (RasterFormat::FormatExtPal4, 0x4000),
        (RasterFormat::FormatExtMipmap, 0x8000),
    ];
    for (format, code) in all {
        assert_eq!(format.to_u32(), code);
        assert_eq!(RasterFormat::from_u32(code), Some(format));
    }
    assert_eq!(RasterFormat::from_u32(1), None);
    assert_eq!(RasterFormat::from_u32(0x0700), None);
    assert_eq!(RasterFormat::from_u32(0x0501), None);
}

#[test]
fn color_and_coefficient_records() {
    let bytes = [1u8, 2, 3, 4, 0, 0, 0x80, 0x3F, 0, 0, 0, 0x40, 0, 0, 0x40, 0x40];
    assert_eq!(RwRGBA::read_at(&bytes, 0), Ok(RwRGBA { r: 1, g: 2, b: 3, a: 4 }));
    assert_eq!(RwRGBA::read_at(&bytes, 12), Ok(RwRGBA { r: 0, g: 0, b: 0x40, a: 0x40 }));
    assert_eq!(RwRGBA::read_at(&bytes, 13), Err(ParseError::TruncatedInput));
    let prop = RpSurfProp::read_at(&bytes, 4).unwrap();
    assert_eq!(f32::from_bits(prop.ambient), 1.0);
    assert_eq!(f32::from_bits(prop.specular), 2.0);
    assert_eq!(f32::from_bits(prop.diffuse), 3.0);
    let uv = RwTexCoords::read_at(&bytes, 8).unwrap();
    assert_eq!(uv.as_arr(), [2.0f32.to_bits(), 3.0f32.to_bits()]);
    assert_eq!(RwRGBA::size(), 4);
    assert_eq!(RwTexCoords::size(), 8);
    assert_eq!(RpSurfProp::size(), 12);
    assert_eq!(RpSurfProp::read_at(&bytes, 5), Err(ParseError::TruncatedInput));
    assert_eq!(RwTexCoords::read_at(&bytes, usize::MAX), Err(ParseError::TruncatedInput));
}
