use gvrtex_cli::encoder::{
    accepted, apply_modifiers, build_encoder, configure, ConstructionPath, EncoderSettings,
    InitStage,
};
use gvrtex_cli::formats::{DataFormat, PixelFormat};
use gvrtex_cli::request::{EncodeOptions, EncodeRequest, HeaderId};

const DATA_FORMATS: [DataFormat; 10] = [
    DataFormat::Intensity4,
    DataFormat::Intensity8,
    DataFormat::IntensityA4,
    DataFormat::IntensityA8,
    DataFormat::Rgb565,
    DataFormat::Rgb5a3,
    DataFormat::Argb8888,
    DataFormat::Index4,
    DataFormat::Index8,
    DataFormat::Dxt1,
];

const PIXEL_FORMATS: [PixelFormat; 3] =
    [PixelFormat::IntensityA8, PixelFormat::Rgb565, PixelFormat::Rgb5a3];

const HEADERS: [HeaderId; 2] = [HeaderId::Gcix, HeaderId::Gbix];

/// A square image of the given side in the PAM format, with a color
/// gradient and full opacity.
fn image(side: u32) -> Vec<u8> {
    let header = format!(
        "P7\nWIDTH {side}\nHEIGHT {side}\nDEPTH 4\nMAXVAL 255\nTUPLTYPE RGB_ALPHA\nENDHDR\n"
    );
    let mut bytes = header.into_bytes();
    for y in 0..side {
        for x in 0..side {
            bytes.push((x * 255 / (side - 1)) as u8);
            bytes.push((y * 255 / (side - 1)) as u8);
            bytes.push(((x + y) * 255 / (2 * side - 2)) as u8);
            bytes.push(255);
        }
    }
    bytes
}

fn request(options: EncodeOptions) -> EncodeRequest {
    EncodeRequest::new(options, "in".to_string(), "out".to_string()).ok().unwrap()
}

fn encoded(options: EncodeOptions) -> Vec<u8> {
    let encoder = build_encoder(&request(options)).ok().unwrap();
    let mut handle = encoder.into_handle();
    handle.encode_buffer(image(16)).unwrap()
}

#[test]
fn path_is_palettized_only_for_indexed_formats() {
    for format in DATA_FORMATS {
        for header in HEADERS {
            let path = ConstructionPath::select(format, header);
            let indexed = matches!(format, DataFormat::Index4 | DataFormat::Index8);
            assert_eq!(path.is_palettized(), indexed);
            assert_eq!(path.header(), header);
        }
    }
}

#[test]
fn the_four_paths() {
    assert_eq!(
        ConstructionPath::select(DataFormat::Index4, HeaderId::Gcix),
        ConstructionPath::PalettizedGcix
    );
    assert_eq!(
        ConstructionPath::select(DataFormat::Index8, HeaderId::Gbix),
        ConstructionPath::PalettizedGbix
    );
    assert_eq!(
        ConstructionPath::select(DataFormat::Dxt1, HeaderId::Gcix),
        ConstructionPath::PlainGcix
    );
    assert_eq!(
        ConstructionPath::select(DataFormat::Argb8888, HeaderId::Gbix),
        ConstructionPath::PlainGbix
    );
}

#[test]
fn index4_with_rgb565_under_gbix_takes_the_palettized_gbix_path() {
    assert_eq!(
        ConstructionPath::select(DataFormat::Index4, HeaderId::Gbix),
        ConstructionPath::PalettizedGbix
    );
    let encoder = configure(DataFormat::Index4, PixelFormat::Rgb565, HeaderId::Gbix).ok().unwrap();
    assert_eq!(
        encoder.settings(),
        EncoderSettings {
            header: HeaderId::Gbix,
            data_format: DataFormat::Index4,
            palette: Some(PixelFormat::Rgb565),
            mipmaps: false,
            global_index: 0,
        }
    );
    let bytes = encoder.into_handle().encode_buffer(image(16)).unwrap();
    assert_eq!(&bytes[0..4], b"GBIX");
    assert_eq!(bytes[0x1A], (1 << 4) | 0x8);
    assert_eq!(bytes[0x1B], 0x08);
}

#[test]
fn the_codec_accepts_every_configuration() {
    for format in DATA_FORMATS {
        for pixel_format in PIXEL_FORMATS {
            for header in HEADERS {
                let made = configure(format, pixel_format, header);
                assert!(made.is_ok());
                let settings = made.ok().unwrap().settings();
                let indexed = matches!(format, DataFormat::Index4 | DataFormat::Index8);
                assert_eq!(settings.header, header);
                assert_eq!(settings.data_format, format);
                assert_eq!(settings.palette, if indexed { Some(pixel_format) } else { None });
                assert!(!settings.mipmaps);
                assert_eq!(settings.global_index, 0);
            }
        }
    }
}

#[test]
fn encoded_header_opens_with_the_chosen_magic_string() {
    for format in DATA_FORMATS {
        for header in HEADERS {
            let bytes = encoded(EncodeOptions {
                data_format: format,
                pixel_format: PixelFormat::Rgb5a3,
                mipmaps: false,
                header,
                global_index: 0,
            });
            assert_eq!(&bytes[0..4], header.magic().as_bytes());
            assert_eq!(&bytes[0x10..0x14], b"GVRT");
        }
    }
}

#[test]
fn encoded_header_holds_the_codes_of_the_formats() {
    for format in DATA_FORMATS {
        for pixel_format in PIXEL_FORMATS {
            let bytes = encoded(EncodeOptions {
                data_format: format,
                pixel_format,
                mipmaps: false,
                header: HeaderId::Gcix,
                global_index: 0,
            });
            assert_eq!(bytes[0x1B], format.code());
            if format.is_palettized() {
                assert_eq!(bytes[0x1A], (pixel_format.code() << 4) | 0x8);
            } else {
                assert_eq!(bytes[0x1A], 0);
            }
        }
    }
}

#[test]
fn global_index_of_zero_leaves_the_default() {
    for header in HEADERS {
        let bytes = encoded(EncodeOptions {
            data_format: DataFormat::Rgb565,
            pixel_format: PixelFormat::Rgb5a3,
            mipmaps: false,
            header,
            global_index: 0,
        });
        assert_eq!(&bytes[8..12], &[0, 0, 0, 0]);
    }
}

#[test]
fn global_index_above_zero_is_stored_as_given() {
    for index in [1u32, 255, 0x01020304, u32::MAX] {
        for format in [DataFormat::Rgb565, DataFormat::Index8] {
            let chosen = EncodeOptions {
                data_format: format,
                pixel_format: PixelFormat::Rgb5a3,
                mipmaps: false,
                header: HeaderId::Gbix,
                global_index: index,
            };
            let encoder = build_encoder(&request(chosen)).ok().unwrap();
            assert_eq!(encoder.settings().global_index, index);
            let bytes = encoder.into_handle().encode_buffer(image(16)).unwrap();
            assert_eq!(&bytes[8..12], &index.to_be_bytes());
        }
    }
}

#[test]
fn mipmaps_are_stored_for_the_three_formats() {
    for format in [DataFormat::Dxt1, DataFormat::Rgb565, DataFormat::Rgb5a3] {
        let chosen = EncodeOptions {
            data_format: format,
            pixel_format: PixelFormat::Rgb5a3,
            mipmaps: true,
            header: HeaderId::Gcix,
            global_index: 9,
        };
        let encoder = build_encoder(&request(chosen)).ok().unwrap();
        assert_eq!(
            encoder.settings(),
            EncoderSettings {
                header: HeaderId::Gcix,
                data_format: format,
                palette: None,
                mipmaps: true,
                global_index: 9,
            }
        );
        let with = encoder.into_handle().encode_buffer(image(16)).unwrap();
        let without = encoded(EncodeOptions { mipmaps: false, ..chosen });
        assert_eq!(with[0x1A], 0x1);
        assert_eq!(without[0x1A], 0x0);
        assert!(with.len() > without.len());
    }
}

#[test]
fn the_codec_refuses_mipmaps_for_the_other_formats() {
    for format in DATA_FORMATS {
        let encoder = configure(format, PixelFormat::Rgb5a3, HeaderId::Gcix).ok().unwrap();
        let modified = encoder.with_mipmaps();
        assert_eq!(modified.is_ok(), format.supports_mipmaps());
        if let Err(error) = modified {
            assert_eq!(error.stage, InitStage::Mipmaps);
            assert_eq!(error.message, "The given texture format type doesn't support mipmaps.");
        }
    }
}

#[test]
fn modifiers_without_mipmaps_always_apply() {
    for format in DATA_FORMATS {
        let encoder = configure(format, PixelFormat::Rgb565, HeaderId::Gbix).ok().unwrap();
        let before = encoder.settings();
        let after = apply_modifiers(encoder, false, 0).ok().unwrap().settings();
        assert_eq!(after, before);
        let encoder = configure(format, PixelFormat::Rgb565, HeaderId::Gbix).ok().unwrap();
        let after = apply_modifiers(encoder, false, 12).ok().unwrap().settings();
        assert_eq!(after, EncoderSettings { global_index: 12, ..before });
    }
}

#[test]
fn modifiers_apply_in_either_order() {
    let first = configure(DataFormat::Dxt1, PixelFormat::Rgb565, HeaderId::Gcix).ok().unwrap();
    let first = first.with_mipmaps().ok().unwrap().with_global_index(5);
    let second = configure(DataFormat::Dxt1, PixelFormat::Rgb565, HeaderId::Gcix).ok().unwrap();
    let second = second.with_global_index(5).with_mipmaps().ok().unwrap();
    assert_eq!(first.settings(), second.settings());
    let first = first.into_handle().encode_buffer(image(16)).unwrap();
    let second = second.into_handle().encode_buffer(image(16)).unwrap();
    assert_eq!(first, second);
}

#[test]
fn a_refusal_of_the_codec_is_passed_on_with_its_step() {
    let refused = gvrtex::TextureEncoder::new_gcix(gvrtex::formats::DataFormat::Index4);
    let error = accepted(refused, InitStage::Construction).err().unwrap();
    assert_eq!(error.stage, InitStage::Construction);
    assert_eq!(error.message, "Incorrect or incompatible formats supplied for texture encoding.");
    let refused = gvrtex::TextureEncoder::new_gbix_palettized(
        gvrtex::formats::PixelFormat::RGB565,
        gvrtex::formats::DataFormat::Dxt1,
    );
    let error = accepted(refused, InitStage::Construction).err().unwrap();
    assert_eq!(error.message, "Incorrect or incompatible formats supplied for texture encoding.");
}

#[test]
fn an_encoder_of_the_codec_is_passed_on() {
    let made = gvrtex::TextureEncoder::new_gbix(gvrtex::formats::DataFormat::Rgb565);
    let mut handle = accepted(made, InitStage::Construction).ok().unwrap();
    let bytes = handle.encode_buffer(image(16)).unwrap();
    assert_eq!(&bytes[0..4], b"GBIX");
    assert_eq!(bytes[0x1B], 0x04);
}

#[test]
fn pixel_format_has_no_effect_without_a_palette() {
    let mut outputs: Vec<Vec<u8>> = Vec::new();
    for pixel_format in PIXEL_FORMATS {
        outputs.push(encoded(EncodeOptions {
            data_format: DataFormat::Rgb5a3,
            pixel_format,
            mipmaps: false,
            header: HeaderId::Gcix,
            global_index: 3,
        }));
    }
    assert_eq!(outputs[0], outputs[1]);
    assert_eq!(outputs[1], outputs[2]);
}

#[test]
fn modifiers_with_mipmaps_apply_exactly_for_the_three_formats() {
    for format in DATA_FORMATS {
        let encoder = configure(format, PixelFormat::Rgb5a3, HeaderId::Gbix).ok().unwrap();
        let before = encoder.settings();
        let modified = apply_modifiers(encoder, true, 21);
        assert_eq!(modified.is_ok(), format.supports_mipmaps());
        match modified {
            Ok(encoder) => assert_eq!(
                encoder.settings(),
                EncoderSettings { mipmaps: true, global_index: 21, ..before }
            ),
            Err(error) => assert_eq!(error.stage, InitStage::Mipmaps),
        }
    }
}

#[test]
fn every_checked_request_gets_its_encoder() {
    for format in DATA_FORMATS {
        for mipmaps in [false, true] {
            for header in HEADERS {
                let chosen = EncodeOptions {
                    data_format: format,
                    pixel_format: PixelFormat::Rgb565,
                    mipmaps,
                    header,
                    global_index: 0,
                };
                let Ok(checked) = EncodeRequest::new(chosen, String::new(), String::new()) else {
                    assert!(mipmaps && !format.supports_mipmaps());
                    continue;
                };
                let encoder = build_encoder(&checked).ok().unwrap();
                assert_eq!(encoder.settings().mipmaps, mipmaps);
                let bytes = encoder.into_handle().encode_buffer(image(16)).unwrap();
                assert_eq!(&bytes[0..4], header.magic().as_bytes());
                assert_eq!(bytes[0x1A] & 0x1, if mipmaps { 1 } else { 0 });
                assert_eq!(bytes[0x1B], format.code());
            }
        }
    }
}
