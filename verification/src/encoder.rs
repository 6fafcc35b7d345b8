//! The configuration of the codec's encoder: which of its four constructors
//! is called, and which modifiers are applied afterwards.

use vstd::prelude::*;
use gvrtex::TextureEncoder;
use gvrtex::error::TextureEncodeError;
use crate::codec;
use crate::codec::{
    encoder_data_format, encoder_global_index, encoder_is_gbix, encoder_mipmaps, encoder_palette,
};
use crate::formats::{DataFormat, PixelFormat};
use crate::request::{EncodeOptions, EncodeRequest, HeaderId, DEFAULT_GLOBAL_INDEX};

verus! {

/// The four ways to make an encoder: with or without a palette, under
/// either magic string.
#[derive(Copy, Clone, Debug, PartialEq, Eq, Structural, Hash)]
pub enum ConstructionPath {
    /// `new_gcix_palettized`, with a palette pixel format and a data format.
    PalettizedGcix,
    /// `new_gbix_palettized`, with a palette pixel format and a data format.
    PalettizedGbix,
    /// `new_gcix`, with a data format.
    PlainGcix,
    /// `new_gbix`, with a data format.
    PlainGbix,
}

impl ConstructionPath {
    /// The path for a data format and a header: palettized exactly for the
    /// indexed data formats, and under the magic string that was chosen.
    pub open spec fn spec_select(data_format: DataFormat, header: HeaderId) -> ConstructionPath {
        match (data_format.spec_is_palettized(), header) {
            (true, HeaderId::Gcix) => ConstructionPath::PalettizedGcix,
            (true, HeaderId::Gbix) => ConstructionPath::PalettizedGbix,
            (false, HeaderId::Gcix) => ConstructionPath::PlainGcix,
            (false, HeaderId::Gbix) => ConstructionPath::PlainGbix,
        }
    }

    /// Whether the path hands a palette pixel format to the codec.
    pub open spec fn spec_is_palettized(self) -> bool {
        self == ConstructionPath::PalettizedGcix || self == ConstructionPath::PalettizedGbix
    }

    /// The magic string under which the path makes the encoder.
    pub open spec fn spec_header(self) -> HeaderId {
        match self {
            ConstructionPath::PalettizedGcix | ConstructionPath::PlainGcix => HeaderId::Gcix,
            ConstructionPath::PalettizedGbix | ConstructionPath::PlainGbix => HeaderId::Gbix,
        }
    }

    /// Picks the path for a data format and a header.
    pub fn select(data_format: DataFormat, header: HeaderId) -> (path: ConstructionPath)
        ensures
            path == Self::spec_select(data_format, header),
            path.spec_is_palettized() == data_format.spec_is_palettized(),
            path.spec_header() == header,
    {
        if data_format.is_palettized() {
            match header {
                HeaderId::Gcix => ConstructionPath::PalettizedGcix,
                HeaderId::Gbix => ConstructionPath::PalettizedGbix,
            }
        } else {
            match header {
                HeaderId::Gcix => ConstructionPath::PlainGcix,
                HeaderId::Gbix => ConstructionPath::PlainGbix,
            }
        }
    }

    /// Whether the path hands a palette pixel format to the codec.
    pub fn is_palettized(self) -> (palettized: bool)
        ensures
            palettized == self.spec_is_palettized(),
    {
        match self {
            ConstructionPath::PalettizedGcix | ConstructionPath::PalettizedGbix => true,
            ConstructionPath::PlainGcix | ConstructionPath::PlainGbix => false,
        }
    }

    /// The magic string under which the path makes the encoder.
    pub fn header(self) -> (header: HeaderId)
        ensures
            header == self.spec_header(),
    {
        match self {
            ConstructionPath::PalettizedGcix | ConstructionPath::PlainGcix => HeaderId::Gcix,
            ConstructionPath::PalettizedGbix | ConstructionPath::PlainGbix => HeaderId::Gbix,
        }
    }
}

/// What an encoder has been told so far.
#[derive(Copy, Clone, Debug, PartialEq, Eq)]
pub struct EncoderSettings {
    /// The magic string of the header.
    pub header: HeaderId,
    /// The format of the image data.
    pub data_format: DataFormat,
    /// The format of the palette entries, if the encoder makes a palette.
    pub palette: Option<PixelFormat>,
    /// Whether mipmaps are stored with the texture.
    pub mipmaps: bool,
    /// The global index of the header.
    pub global_index: u32,
}

impl EncoderSettings {
    /// The settings of an encoder that a path has just made: no mipmaps,
    /// and the global index that a header holds by itself.
    pub open spec fn spec_constructed(
        path: ConstructionPath,
        data_format: DataFormat,
        pixel_format: PixelFormat,
    ) -> EncoderSettings {
        EncoderSettings {
            header: path.spec_header(),
            data_format,
            palette: if path.spec_is_palettized() {
                Some(pixel_format)
            } else {
                None
            },
            mipmaps: false,
            global_index: DEFAULT_GLOBAL_INDEX,
        }
    }

    /// The settings after the mipmap modifier.
    pub open spec fn spec_with_mipmaps(self) -> EncoderSettings {
        EncoderSettings { mipmaps: true, ..self }
    }

    /// The settings after the global index modifier.
    pub open spec fn spec_with_global_index(self, global_index: u32) -> EncoderSettings {
        EncoderSettings { global_index, ..self }
    }

    /// The settings after the modifiers that were asked for: mipmaps if the
    /// flag is set, a global index if it is greater than zero.
    pub open spec fn spec_modified(self, mipmaps: bool, global_index: u32) -> EncoderSettings {
        let first = if mipmaps {
            self.spec_with_mipmaps()
        } else {
            self
        };
        if global_index > 0 {
            first.spec_with_global_index(global_index)
        } else {
            first
        }
    }

    /// The settings that a set of options asks for.
    pub open spec fn spec_for_options(options: EncodeOptions) -> EncoderSettings {
        Self::spec_constructed(
            ConstructionPath::spec_select(options.data_format, options.header),
            options.data_format,
            options.pixel_format,
        ).spec_modified(options.mipmaps, options.global_index)
    }

    /// A palette pixel format is set exactly for the indexed data formats.
    pub open spec fn spec_is_coherent(self) -> bool {
        self.palette is Some <==> self.data_format.spec_is_palettized()
    }

    /// The number of the palette pixel format, if the encoder makes a
    /// palette.
    pub open spec fn spec_palette_code(self) -> Option<u8> {
        match self.palette {
            Some(pixel_format) => Some(pixel_format.spec_code()),
            None => None,
        }
    }

    /// The settings say what the codec's encoder holds: its magic string,
    /// the numbers of its formats, its mipmaps flag and its global index.
    pub open spec fn spec_describes(self, handle: TextureEncoder) -> bool {
        &&& encoder_is_gbix(handle) == (self.header == HeaderId::Gbix)
        &&& encoder_data_format(handle) == self.data_format.spec_code()
        &&& encoder_palette(handle) == self.spec_palette_code()
        &&& encoder_mipmaps(handle) == self.mipmaps
        &&& encoder_global_index(handle) == self.global_index
    }
}

/// The settings hold the header that was chosen, whatever the data format,
/// the palette pixel format, the mipmap flag and the global index, and so
/// the magic string spells GCIX for the one choice and GBIX for the other.
pub proof fn header_follows_choice(options: EncodeOptions)
    ensures
        EncoderSettings::spec_for_options(options).header == options.header,
        options.header == HeaderId::Gcix ==> EncoderSettings::spec_for_options(
            options,
        ).header.spec_magic() == seq!['G', 'C', 'I', 'X'],
        options.header == HeaderId::Gbix ==> EncoderSettings::spec_for_options(
            options,
        ).header.spec_magic() == seq!['G', 'B', 'I', 'X'],
{
    reveal_strlit("GCIX");
    reveal_strlit("GBIX");
    assert("GCIX"@ =~= seq!['G', 'C', 'I', 'X']);
    assert("GBIX"@ =~= seq!['G', 'B', 'I', 'X']);
}

/// A global index of zero leaves the settings at the index that a header
/// holds by itself; any other is stored as it was given.
pub proof fn global_index_follows_choice(options: EncodeOptions)
    ensures
        options.global_index == 0 ==> EncoderSettings::spec_for_options(options).global_index
            == DEFAULT_GLOBAL_INDEX,
        options.global_index > 0 ==> EncoderSettings::spec_for_options(options).global_index
            == options.global_index,
{
}

/// An encoder of the codec that the settings for a set of options describe
/// writes the magic string that was chosen, holds the data format, holds the
/// palette pixel format exactly where the data format is indexed, stores
/// mipmaps exactly where they were asked for, and holds the global index
/// that was given, or zero where none was.
pub proof fn codec_encoder_follows_choice(options: EncodeOptions, handle: TextureEncoder)
    requires
        EncoderSettings::spec_for_options(options).spec_describes(handle),
    ensures
        encoder_is_gbix(handle) <==> options.header == HeaderId::Gbix,
        encoder_data_format(handle) == options.data_format.spec_code(),
        options.data_format.spec_is_palettized() ==> encoder_palette(handle) == Some(
            options.pixel_format.spec_code(),
        ),
        !options.data_format.spec_is_palettized() ==> encoder_palette(handle) is None,
        encoder_mipmaps(handle) == options.mipmaps,
        options.global_index == 0 ==> encoder_global_index(handle) == DEFAULT_GLOBAL_INDEX,
        options.global_index > 0 ==> encoder_global_index(handle) == options.global_index,
{
}

/// The encoder makes a palette exactly where the data format is indexed,
/// and mipmaps are stored exactly where they were asked for.
pub proof fn palette_and_mipmaps_follow_choice(options: EncodeOptions)
    ensures
        EncoderSettings::spec_for_options(options).data_format == options.data_format,
        EncoderSettings::spec_for_options(options).palette == options.spec_palette(),
        EncoderSettings::spec_for_options(options).mipmaps == options.mipmaps,
        EncoderSettings::spec_for_options(options).spec_is_coherent(),
{
}

/// Valid options ask for mipmaps only with a data format whose number the
/// codec accepts for them, and what they ask for is never dropped.
pub proof fn valid_options_ask_for_supported_mipmaps(options: EncodeOptions)
    requires
        options.spec_is_valid(),
    ensures
        EncoderSettings::spec_for_options(options).mipmaps == options.mipmaps,
        EncoderSettings::spec_for_options(options).mipmaps ==> crate::formats::is_mipmap_code(
            EncoderSettings::spec_for_options(options).data_format.spec_code(),
        ),
        EncoderSettings::spec_for_options(options).mipmaps ==> EncoderSettings::spec_for_options(
            options,
        ).palette is None,
{
}

/// The two modifiers may be applied in either order, and applying one a
/// second time changes nothing.
pub proof fn modifiers_commute_and_repeat(settings: EncoderSettings, global_index: u32)
    ensures
        settings.spec_with_mipmaps().spec_with_global_index(global_index)
            == settings.spec_with_global_index(global_index).spec_with_mipmaps(),
        settings.spec_with_mipmaps().spec_with_mipmaps() == settings.spec_with_mipmaps(),
        settings.spec_with_global_index(global_index).spec_with_global_index(global_index)
            == settings.spec_with_global_index(global_index),
{
}

/// Where the data format is not indexed, the palette pixel format has no
/// effect on the path or on the settings, and so none on what the codec's
/// encoder holds.
pub proof fn pixel_format_is_ignored_without_palette(
    options: EncodeOptions,
    other: PixelFormat,
    handle: TextureEncoder,
)
    requires
        !options.data_format.spec_is_palettized(),
    ensures
        !ConstructionPath::spec_select(options.data_format, options.header).spec_is_palettized(),
        EncoderSettings::spec_for_options(EncodeOptions { pixel_format: other, ..options })
            == EncoderSettings::spec_for_options(options),
        EncoderSettings::spec_for_options(
            EncodeOptions { pixel_format: other, ..options },
        ).spec_describes(handle) == EncoderSettings::spec_for_options(options).spec_describes(
            handle,
        ),
        EncoderSettings::spec_for_options(options).spec_describes(handle) ==> encoder_palette(
            handle,
        ) is None,
{
}

/// The step of the configuration at which the codec refused.
#[derive(Copy, Clone, Debug, PartialEq, Eq, Structural, Hash)]
pub enum InitStage {
    /// One of the four constructors.
    Construction,
    /// The mipmap modifier.
    Mipmaps,
}

/// The codec refused a configuration.
#[derive(Debug, PartialEq, Eq)]
pub struct CodecInitError {
    /// The step at which it refused.
    pub stage: InitStage,
    /// What the codec said.
    pub message: String,
}

/// Turns what the codec answered at a step into the library's own terms:
/// the encoder if it made one, else its refusal with the step.
pub fn accepted(answer: Result<TextureEncoder, TextureEncodeError>, stage: InitStage) -> (taken:
    Result<TextureEncoder, CodecInitError>)
    ensures
        taken is Ok <==> answer is Ok,
        taken matches Ok(handle) ==> answer == Ok::<TextureEncoder, TextureEncodeError>(handle),
        taken matches Err(error) ==> error.stage == stage,
{
    match answer {
        Ok(handle) => Ok(handle),
        Err(error) => Err(CodecInitError { stage, message: codec::error_message(&error) }),
    }
}

/// The codec's encoder together with what it has been told.
pub struct Encoder {
    handle: TextureEncoder,
    settings: EncoderSettings,
}

/// The view of an `Encoder`.
pub struct EncoderView {
    /// What the encoder has been told.
    pub settings: EncoderSettings,
    /// The codec's encoder.
    pub handle: TextureEncoder,
}

impl EncoderView {
    /// The settings are coherent and say what the codec's encoder holds.
    pub open spec fn spec_is_faithful(self) -> bool {
        self.settings.spec_is_coherent() && self.settings.spec_describes(self.handle)
    }
}

impl View for Encoder {
    type V = EncoderView;

    closed spec fn view(&self) -> EncoderView {
        EncoderView { settings: self.settings, handle: self.handle }
    }
}

impl Encoder {
    #[verifier::type_invariant]
    spec fn settings_are_faithful(self) -> bool {
        self@.spec_is_faithful()
    }

    /// What the encoder has been told, which is what the codec's encoder
    /// holds.
    pub fn settings(&self) -> (settings: EncoderSettings)
        ensures
            settings == self@.settings,
            self@.spec_is_faithful(),
    {
        proof {
            use_type_invariant(self);
        }
        self.settings
    }

    /// Gives up the codec's encoder, ready to encode. It holds what the
    /// settings say.
    pub fn into_handle(self) -> (handle: TextureEncoder)
        ensures
            handle == self@.handle,
            self@.settings.spec_describes(handle),
    {
        proof {
            use_type_invariant(&self);
        }
        self.handle
    }

    /// Asks the codec for mipmaps. It accepts exactly where the data format
    /// is DXT1, RGB565 or RGB5A3; the settings then say so and are
    /// otherwise unchanged.
    pub fn with_mipmaps(self) -> (modified: Result<Encoder, CodecInitError>)
        ensures
            modified is Ok <==> self@.settings.data_format.spec_supports_mipmaps(),
            modified matches Ok(encoder) ==> encoder@.settings
                == self@.settings.spec_with_mipmaps() && encoder@.spec_is_faithful(),
            modified matches Err(error) ==> error.stage == InitStage::Mipmaps,
    {
        proof {
            use_type_invariant(&self);
        }
        let Encoder { handle, settings } = self;
        match accepted(handle.with_mipmaps(), InitStage::Mipmaps) {
            Ok(handle) => Ok(
                Encoder { handle, settings: EncoderSettings { mipmaps: true, ..settings } },
            ),
            Err(error) => Err(error),
        }
    }

    /// Sets the global index of the header.
    pub fn with_global_index(self, global_index: u32) -> (modified: Encoder)
        ensures
            modified@.settings == self@.settings.spec_with_global_index(global_index),
            modified@.spec_is_faithful(),
    {
        proof {
            use_type_invariant(&self);
        }
        let Encoder { handle, settings } = self;
        Encoder {
            handle: handle.with_global_index(global_index),
            settings: EncoderSettings { global_index, ..settings },
        }
    }
}

/// Makes an encoder for a data format, a palette pixel format and a header,
/// through the path that `ConstructionPath::select` picks. The codec accepts
/// every such choice, so an encoder is always returned: one under the
/// chosen magic string, without mipmaps, with the global index that a
/// header holds by itself, and with the palette pixel format only where
/// the data format is indexed.
pub fn configure(data_format: DataFormat, pixel_format: PixelFormat, header: HeaderId) -> (made:
    Result<Encoder, CodecInitError>)
    ensures
        made matches Ok(encoder) && encoder@.settings == EncoderSettings::spec_constructed(
            ConstructionPath::spec_select(data_format, header),
            data_format,
            pixel_format,
        ) && encoder@.spec_is_faithful(),
{
    let path = ConstructionPath::select(data_format, header);
    let answer = match path {
        ConstructionPath::PalettizedGcix => codec::new_gcix_palettized(
            pixel_format.code(),
            data_format.code(),
        ),
        ConstructionPath::PalettizedGbix => codec::new_gbix_palettized(
            pixel_format.code(),
            data_format.code(),
        ),
        ConstructionPath::PlainGcix => codec::new_gcix(data_format.code()),
        ConstructionPath::PlainGbix => codec::new_gbix(data_format.code()),
    };
    match accepted(answer, InitStage::Construction) {
        Ok(handle) => Ok(
            Encoder {
                handle,
                settings: EncoderSettings {
                    header: path.header(),
                    data_format,
                    palette: if path.is_palettized() {
                        Some(pixel_format)
                    } else {
                        None
                    },
                    mipmaps: false,
                    global_index: DEFAULT_GLOBAL_INDEX,
                },
            },
        ),
        Err(error) => Err(error),
    }
}

/// Applies the modifiers that were asked for: mipmaps if the flag is set,
/// the global index if it is greater than zero. The codec refuses only
/// mipmaps, and only for a data format that cannot carry them.
pub fn apply_modifiers(encoder: Encoder, mipmaps: bool, global_index: u32) -> (modified: Result<
    Encoder,
    CodecInitError,
>)
    ensures
        modified is Ok <==> (mipmaps ==> encoder@.settings.data_format.spec_supports_mipmaps()),
        modified matches Ok(result) ==> result@.settings == encoder@.settings.spec_modified(
            mipmaps,
            global_index,
        ) && result@.spec_is_faithful(),
        modified matches Err(error) ==> error.stage == InitStage::Mipmaps,
{
    let first = if mipmaps {
        match encoder.with_mipmaps() {
            Ok(with) => with,
            Err(error) => {
                return Err(error);
            },
        }
    } else {
        encoder
    };
    if global_index > 0 {
        Ok(first.with_global_index(global_index))
    } else {
        proof {
            use_type_invariant(&first);
        }
        Ok(first)
    }
}

/// Makes and adjusts the encoder for a checked request. The codec accepts
/// every checked request, so an encoder is always returned, and it holds
/// what the options ask for.
pub fn build_encoder(request: &EncodeRequest) -> (built: Result<Encoder, CodecInitError>)
    ensures
        built matches Ok(encoder) && encoder@.settings == EncoderSettings::spec_for_options(
            request@.options,
        ) && encoder@.spec_is_faithful(),
{
    let options = request.options();
    match configure(options.data_format, options.pixel_format, options.header) {
        Ok(encoder) => apply_modifiers(encoder, options.mipmaps, options.global_index),
        Err(error) => Err(error),
    }
}

} // verus!
