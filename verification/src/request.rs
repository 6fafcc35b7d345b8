//! The options of one encode operation and the rule that decides whether
//! they may be combined.

use vstd::prelude::*;
use crate::formats::{DataFormat, PixelFormat};

verus! {

/// Which of the two magic strings opens the encoded file.
#[derive(Copy, Clone, Debug, PartialEq, Eq, Structural, PartialOrd, Ord, Hash)]
pub enum HeaderId {
    /// The file begins with "GCIX".
    Gcix,
    /// The file begins with "GBIX".
    Gbix,
}

impl HeaderId {
    /// The four characters that open the file. They also name the choice to
    /// the user.
    pub open spec fn spec_magic(self) -> Seq<char> {
        match self {
            HeaderId::Gcix => "GCIX"@,
            HeaderId::Gbix => "GBIX"@,
        }
    }

    /// The four characters that open the file. They also name the choice to
    /// the user.
    pub fn magic(self) -> (text: &'static str)
        ensures
            text@ == self.spec_magic(),
    {
        match self {
            HeaderId::Gcix => "GCIX",
            HeaderId::Gbix => "GBIX",
        }
    }
}

/// The global index that a header holds when none was asked for.
pub const DEFAULT_GLOBAL_INDEX: u32 = 0;

/// What the user chose for one encode operation.
#[derive(Copy, Clone, Debug, PartialEq, Eq, Structural)]
pub struct EncodeOptions {
    /// The format of the image data.
    pub data_format: DataFormat,
    /// The format of the palette entries. It has no effect unless the data
    /// format is indexed.
    pub pixel_format: PixelFormat,
    /// Whether mipmaps are stored with the texture.
    pub mipmaps: bool,
    /// The magic string of the header.
    pub header: HeaderId,
    /// The global index of the header. Zero asks for no index of its own.
    pub global_index: u32,
}

impl EncodeOptions {
    /// Mipmaps are asked for only with a data format that can carry them.
    pub open spec fn spec_is_valid(self) -> bool {
        self.mipmaps ==> self.data_format.spec_supports_mipmaps()
    }

    /// The palette pixel format as far as it has any effect.
    pub open spec fn spec_palette(self) -> Option<PixelFormat> {
        if self.data_format.spec_is_palettized() {
            Some(self.pixel_format)
        } else {
            None
        }
    }

    /// Checks the combination of data format and mipmaps.
    pub fn validate(&self) -> (checked: Result<(), ValidationError>)
        ensures
            checked is Ok <==> self.spec_is_valid(),
            checked matches Err(error) ==> error.spec_is_for(self.data_format),
    {
        validate(self.data_format, self.mipmaps)
    }

    /// The palette pixel format as far as it has any effect: the chosen one
    /// for an indexed data format, none for any other.
    pub fn palette(&self) -> (palette: Option<PixelFormat>)
        ensures
            palette == self.spec_palette(),
    {
        if self.data_format.is_palettized() {
            Some(self.pixel_format)
        } else {
            None
        }
    }
}

/// Why a combination of options is refused.
#[derive(Debug, PartialEq, Eq)]
pub enum ValidationError {
    /// Mipmaps were asked for with a data format that cannot carry them.
    IncompatibleMipmaps {
        /// The label of that data format.
        format: String,
    },
}

impl ValidationError {
    /// The error names the given data format.
    pub open spec fn spec_is_for(self, data_format: DataFormat) -> bool {
        self matches ValidationError::IncompatibleMipmaps { format }
            && format@ == data_format.spec_label()
    }

    /// The sentence shown to the user.
    pub open spec fn spec_message(self) -> Seq<char> {
        match self {
            ValidationError::IncompatibleMipmaps { format } => {
                "Can't use mipmaps on the `"@ + format@ + "` data format."@
            },
        }
    }

    /// The sentence shown to the user.
    pub fn message(&self) -> (text: String)
        ensures
            text@ == self.spec_message(),
    {
        match self {
            ValidationError::IncompatibleMipmaps { format } => {
                let mut text = String::from_str("Can't use mipmaps on the `");
                text.append(format.as_str());
                text.append("` data format.");
                text
            },
        }
    }
}

/// Checks the combination of data format and mipmaps: mipmaps go with
/// DXT1, RGB565 and RGB5A3 only. Any data format passes without mipmaps.
pub fn validate(data_format: DataFormat, mipmaps: bool) -> (checked: Result<(), ValidationError>)
    ensures
        checked is Ok <==> (mipmaps ==> data_format.spec_supports_mipmaps()),
        checked matches Err(error) ==> error.spec_is_for(data_format),
{
    if mipmaps && !data_format.supports_mipmaps() {
        Err(ValidationError::IncompatibleMipmaps { format: String::from_str(data_format.label()) })
    } else {
        Ok(())
    }
}

/// The sentence for a refused data format holds that format's label, word
/// for word, between its two backquotes.
pub proof fn mipmap_refusal_names_the_format(data_format: DataFormat, error: ValidationError)
    requires
        error.spec_is_for(data_format),
    ensures
        error.spec_message() == "Can't use mipmaps on the `"@ + data_format.spec_label()
            + "` data format."@,
        error.spec_message().subrange(26, 26 + data_format.spec_label().len() as int)
            == data_format.spec_label(),
{
    reveal_strlit("Can't use mipmaps on the `");
    let label = data_format.spec_label();
    let message = error.spec_message();
    assert(message.subrange(26, 26 + label.len() as int) =~= label);
}

/// The view of an `EncodeRequest`.
pub struct EncodeRequestView {
    /// The options.
    pub options: EncodeOptions,
    /// The path of the image to read.
    pub input: Seq<char>,
    /// The path of the texture to write.
    pub output: Seq<char>,
}

/// A checked encode operation: options that may be combined, and the two
/// paths. A value of this type exists only for valid options.
pub struct EncodeRequest {
    options: EncodeOptions,
    input: String,
    output: String,
}

impl View for EncodeRequest {
    type V = EncodeRequestView;

    closed spec fn view(&self) -> EncodeRequestView {
        EncodeRequestView { options: self.options, input: self.input@, output: self.output@ }
    }
}

impl EncodeRequest {
    #[verifier::type_invariant]
    spec fn options_are_valid(self) -> bool {
        self.options.spec_is_valid()
    }

    /// Checks the options and, if they may be combined, binds them to the
    /// two paths.
    pub fn new(options: EncodeOptions, input: String, output: String) -> (made: Result<
        EncodeRequest,
        ValidationError,
    >)
        ensures
            made is Ok <==> options.spec_is_valid(),
            made matches Ok(request) ==> request@ == (EncodeRequestView {
                options,
                input: input@,
                output: output@,
            }),
            made matches Err(error) ==> error.spec_is_for(options.data_format),
    {
        match options.validate() {
            Ok(()) => Ok(EncodeRequest { options, input, output }),
            Err(error) => Err(error),
        }
    }

    /// The options, which are valid.
    pub fn options(&self) -> (options: EncodeOptions)
        ensures
            options == self@.options,
            options.spec_is_valid(),
    {
        proof {
            use_type_invariant(self);
        }
        self.options
    }

    /// The path of the image to read.
    pub fn input(&self) -> (path: &str)
        ensures
            path@ == self@.input,
    {
        self.input.as_str()
    }

    /// The path of the texture to write.
    pub fn output(&self) -> (path: &str)
        ensures
            path@ == self@.output,
    {
        self.output.as_str()
    }
}

} // verus!
