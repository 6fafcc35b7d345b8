//! The report of an operation's outcome: the lines shown to the user and
//! the status with which the process ends.

use vstd::prelude::*;
use crate::encoder::ConstructionPath;
use crate::request::{EncodeOptions, EncodeRequest, EncodeRequestView, ValidationError};

verus! {

/// The colored word that opens a line of the report.
#[derive(Copy, Clone, Debug, PartialEq, Eq, Structural, Hash)]
pub enum ReportTag {
    /// "success:", on the line that says what was saved.
    Success,
    /// "info:", above the settings that were applied.
    Info,
    /// "error:", on the line that says what failed.
    Error,
}

impl ReportTag {
    /// The word as it is printed.
    pub open spec fn spec_word(self) -> Seq<char> {
        match self {
            ReportTag::Success => "success:"@,
            ReportTag::Info => "info:"@,
            ReportTag::Error => "error:"@,
        }
    }

    /// The word as it is printed.
    pub fn word(self) -> (text: &'static str)
        ensures
            text@ == self.spec_word(),
    {
        match self {
            ReportTag::Success => "success:",
            ReportTag::Info => "info:",
            ReportTag::Error => "error:",
        }
    }
}

/// One line of a report: an optional tag, then the text.
#[derive(Debug, PartialEq, Eq)]
pub struct ReportLine {
    /// The tag that opens the line, if it has one.
    pub tag: Option<ReportTag>,
    /// The text after the tag, or the whole line where there is no tag.
    pub text: String,
}

/// The view of a `ReportLine`.
pub struct ReportLineView {
    /// The tag that opens the line, if it has one.
    pub tag: Option<ReportTag>,
    /// The text after the tag, or the whole line where there is no tag.
    pub text: Seq<char>,
}

impl View for ReportLine {
    type V = ReportLineView;

    open spec fn view(&self) -> ReportLineView {
        ReportLineView { tag: self.tag, text: self.text@ }
    }
}

/// The views of the lines of a report, in order.
pub open spec fn report_view(lines: Seq<ReportLine>) -> Seq<ReportLineView> {
    lines.map_values(|line: ReportLine| line@)
}

/// A line that opens with a tag.
pub open spec fn spec_tagged(tag: ReportTag, text: Seq<char>) -> ReportLineView {
    ReportLineView { tag: Some(tag), text }
}

/// A line without a tag, indented by two spaces.
pub open spec fn spec_detail(text: Seq<char>) -> ReportLineView {
    ReportLineView { tag: None, text: "  "@ + text }
}

/// An empty line.
pub open spec fn spec_blank() -> ReportLineView {
    ReportLineView { tag: None, text: Seq::empty() }
}

/// The character of a decimal digit.
pub open spec fn spec_digit(digit: nat) -> char {
    if digit == 0 {
        '0'
    } else if digit == 1 {
        '1'
    } else if digit == 2 {
        '2'
    } else if digit == 3 {
        '3'
    } else if digit == 4 {
        '4'
    } else if digit == 5 {
        '5'
    } else if digit == 6 {
        '6'
    } else if digit == 7 {
        '7'
    } else if digit == 8 {
        '8'
    } else {
        '9'
    }
}

/// A number in decimal, without leading zeros.
pub open spec fn spec_decimal(number: nat) -> Seq<char>
    decreases number,
{
    if number < 10 {
        seq![spec_digit(number)]
    } else {
        spec_decimal(number / 10).push(spec_digit(number % 10))
    }
}

/// A flag as it is printed.
pub open spec fn spec_flag(flag: bool) -> Seq<char> {
    if flag {
        "true"@
    } else {
        "false"@
    }
}

/// The lines that list the settings of an encode operation. The palette
/// pixel format has a line only where the data format is indexed.
pub open spec fn spec_settings_lines(options: EncodeOptions) -> Seq<ReportLineView> {
    let header = spec_detail("Header: "@ + options.header.spec_magic());
    let data_format = spec_detail("Data format: "@ + options.data_format.spec_label());
    let mipmaps = spec_detail("Mipmaps: "@ + spec_flag(options.mipmaps));
    let global_index = spec_detail("Global index: "@ + spec_decimal(options.global_index as nat));
    match options.spec_palette() {
        Some(pixel_format) => seq![
            header,
            data_format,
            spec_detail("Pixel format: "@ + pixel_format.spec_label()),
            mipmaps,
            global_index,
        ],
        None => seq![header, data_format, mipmaps, global_index],
    }
}

/// The report of an encode operation that succeeded.
pub open spec fn spec_encode_report(request: EncodeRequestView) -> Seq<ReportLineView> {
    seq![
        spec_tagged(ReportTag::Success, "saved encoded texture to:"@),
        spec_detail(request.output),
        spec_blank(),
        spec_tagged(ReportTag::Info, Seq::empty()),
    ] + spec_settings_lines(request.options)
}

/// The report of a decode operation that succeeded.
pub open spec fn spec_decode_report(output: Seq<char>) -> Seq<ReportLineView> {
    seq![spec_tagged(ReportTag::Success, "saved decoded image to:"@), spec_detail(output)]
}

/// The report of an operation that failed.
pub open spec fn spec_failure_report(category: FailureCategory, message: Seq<char>) -> Seq<
    ReportLineView,
> {
    seq![spec_tagged(ReportTag::Error, category.spec_heading()), spec_detail(message)]
}

/// The step at which an operation failed.
#[derive(Copy, Clone, Debug, PartialEq, Eq, Structural, Hash)]
pub enum FailureCategory {
    /// The options may not be combined.
    Validation,
    /// The codec refused the configuration.
    Initializing,
    /// The codec could not encode the image.
    Encoding,
    /// The encoded texture could not be written.
    WritingOutput,
    /// The texture to decode could not be opened.
    OpeningInput,
    /// The codec could not decode the texture.
    Decoding,
    /// The decoded image could not be saved.
    SavingImage,
}

impl FailureCategory {
    /// The words after "error:".
    pub open spec fn spec_heading(self) -> Seq<char> {
        match self {
            FailureCategory::Validation => "while checking options:"@,
            FailureCategory::Initializing => "while initializing:"@,
            FailureCategory::Encoding => "while encoding texture:"@,
            FailureCategory::WritingOutput => "while writing output file:"@,
            FailureCategory::OpeningInput => "while opening input file:"@,
            FailureCategory::Decoding => "while decoding input file:"@,
            FailureCategory::SavingImage => "while saving output image:"@,
        }
    }

    /// The status with which the process ends: 2 for options that may not
    /// be combined, 1 for every other failure.
    pub open spec fn spec_exit_code(self) -> u8 {
        if self == FailureCategory::Validation {
            2
        } else {
            1
        }
    }

    /// The words after "error:".
    pub fn heading(self) -> (text: &'static str)
        ensures
            text@ == self.spec_heading(),
    {
        match self {
            FailureCategory::Validation => "while checking options:",
            FailureCategory::Initializing => "while initializing:",
            FailureCategory::Encoding => "while encoding texture:",
            FailureCategory::WritingOutput => "while writing output file:",
            FailureCategory::OpeningInput => "while opening input file:",
            FailureCategory::Decoding => "while decoding input file:",
            FailureCategory::SavingImage => "while saving output image:",
        }
    }

    /// The status with which the process ends. It is never zero.
    pub fn exit_code(self) -> (code: u8)
        ensures
            code == self.spec_exit_code(),
            code != SUCCESS_EXIT_CODE,
    {
        match self {
            FailureCategory::Validation => 2,
            _ => 1,
        }
    }
}

/// The status with which the process ends after a success.
pub const SUCCESS_EXIT_CODE: u8 = 0;

/// Whether a line is the one that names the palette pixel format.
pub open spec fn spec_names_pixel_format(line: ReportLineView) -> bool {
    line.tag is None && ("  "@ + "Pixel format: "@).is_prefix_of(line.text)
}

/// For an indexed data format the palettized path is taken and the settings
/// name the palette pixel format by its label, on their third line. For
/// any other data format the plain path is taken and no line of the
/// settings names a palette pixel format.
pub proof fn palette_shows_exactly_for_indexed_formats(options: EncodeOptions)
    ensures
        ConstructionPath::spec_select(options.data_format, options.header).spec_is_palettized()
            == options.data_format.spec_is_palettized(),
        options.data_format.spec_is_palettized() ==> {
            &&& spec_settings_lines(options).len() == 5
            &&& spec_settings_lines(options)[2] == spec_detail(
                "Pixel format: "@ + options.pixel_format.spec_label(),
            )
            &&& spec_names_pixel_format(spec_settings_lines(options)[2])
        },
        !options.data_format.spec_is_palettized() ==> {
            &&& spec_settings_lines(options).len() == 4
            &&& forall|i: int|
                0 <= i < 4 ==> !spec_names_pixel_format(#[trigger] spec_settings_lines(options)[i])
        },
{
    reveal_strlit("  ");
    reveal_strlit("Pixel format: ");
    reveal_strlit("Header: ");
    reveal_strlit("Data format: ");
    reveal_strlit("Mipmaps: ");
    reveal_strlit("Global index: ");
    let lines = spec_settings_lines(options);
    let prefix = "  "@ + "Pixel format: "@;
    if !options.data_format.spec_is_palettized() {
        assert forall|i: int| 0 <= i < 4 implies !spec_names_pixel_format(#[trigger] lines[i]) by {
            let text = lines[i].text;
            if prefix.is_prefix_of(text) {
                assert(text.subrange(0, 16)[2] == text[2]);
            }
        }
    }
}

/// Two steps that differ are told apart by their headings, and no failure
/// ends the process with the status of a success.
pub proof fn failures_are_told_apart(first: FailureCategory, second: FailureCategory)
    ensures
        first != second ==> first.spec_heading() != second.spec_heading(),
        first.spec_exit_code() != SUCCESS_EXIT_CODE,
{
    reveal_strlit("while checking options:");
    reveal_strlit("while initializing:");
    reveal_strlit("while encoding texture:");
    reveal_strlit("while writing output file:");
    reveal_strlit("while opening input file:");
    reveal_strlit("while decoding input file:");
    reveal_strlit("while saving output image:");
    if first != second {
        assert(first.spec_heading()[6] != second.spec_heading()[6]);
    }
}

/// A report of success or of failure is whole: a success names where the
/// result was saved on its first two lines and a failure opens with the
/// error tag, whatever the paths, the options and the message.
pub proof fn reports_are_whole(request: EncodeRequestView, category: FailureCategory, message: Seq<char>)
    ensures
        spec_encode_report(request).len() == 4 + spec_settings_lines(request.options).len(),
        spec_encode_report(request)[0].tag == Some(ReportTag::Success),
        spec_encode_report(request)[1] == spec_detail(request.output),
        spec_encode_report(request)[3].tag == Some(ReportTag::Info),
        spec_decode_report(request.output).len() == 2,
        spec_failure_report(category, message).len() == 2,
        spec_failure_report(category, message)[0].tag == Some(ReportTag::Error),
        spec_failure_report(category, message)[1] == spec_detail(message),
{
}

/// The text of one decimal digit.
fn digit_text(digit: u32) -> (text: &'static str)
    requires
        digit < 10,
    ensures
        text@ == seq![spec_digit(digit as nat)],
{
    proof {
        reveal_strlit("0");
        reveal_strlit("1");
        reveal_strlit("2");
        reveal_strlit("3");
        reveal_strlit("4");
        reveal_strlit("5");
        reveal_strlit("6");
        reveal_strlit("7");
        reveal_strlit("8");
        reveal_strlit("9");
    }
    let text = match digit {
        0 => "0",
        1 => "1",
        2 => "2",
        3 => "3",
        4 => "4",
        5 => "5",
        6 => "6",
        7 => "7",
        8 => "8",
        _ => "9",
    };
    text
}

/// Writes a number in decimal, without leading zeros.
pub fn decimal(number: u32) -> (text: String)
    ensures
        text@ == spec_decimal(number as nat),
    decreases number,
{
    if number < 10 {
        String::from_str(digit_text(number))
    } else {
        let mut text = decimal(number / 10);
        text.append(digit_text(number % 10));
        text
    }
}

/// Writes a flag as it is printed: "true" or "false".
pub fn flag_text(flag: bool) -> (text: &'static str)
    ensures
        text@ == spec_flag(flag),
{
    if flag {
        "true"
    } else {
        "false"
    }
}

/// A line that opens with a tag.
fn tagged(tag: ReportTag, text: &str) -> (line: ReportLine)
    ensures
        line@ == spec_tagged(tag, text@),
{
    ReportLine { tag: Some(tag), text: String::from_str(text) }
}

/// A line that holds a tag and nothing else.
fn tag_alone(tag: ReportTag) -> (line: ReportLine)
    ensures
        line@ == spec_tagged(tag, Seq::empty()),
{
    ReportLine { tag: Some(tag), text: String::new() }
}

/// A line without a tag, indented by two spaces.
fn indented(text: &str) -> (line: ReportLine)
    ensures
        line@ == spec_detail(text@),
{
    let mut line = String::from_str("  ");
    line.append(text);
    ReportLine { tag: None, text: line }
}

/// A line without a tag, indented by two spaces, that holds a name and
/// what goes under it.
fn detail(name: &str, value: &str) -> (line: ReportLine)
    ensures
        line@ == spec_detail(name@ + value@),
{
    let mut text = String::from_str("  ");
    text.append(name);
    text.append(value);
    assert(text@ =~= "  "@ + (name@ + value@));
    ReportLine { tag: None, text }
}

/// An empty line.
fn blank() -> (line: ReportLine)
    ensures
        line@ == spec_blank(),
{
    ReportLine { tag: None, text: String::new() }
}

/// The lines that list the settings of an encode operation: header, data
/// format, palette pixel format (only where the data format is indexed),
/// mipmaps, and the global index as it was given.
pub fn settings_lines(options: EncodeOptions) -> (lines: Vec<ReportLine>)
    ensures
        report_view(lines@) == spec_settings_lines(options),
{
    let mut lines: Vec<ReportLine> = Vec::new();
    lines.push(detail("Header: ", options.header.magic()));
    lines.push(detail("Data format: ", options.data_format.label()));
    match options.palette() {
        Some(pixel_format) => {
            lines.push(detail("Pixel format: ", pixel_format.label()));
        },
        None => {},
    }
    lines.push(detail("Mipmaps: ", flag_text(options.mipmaps)));
    let index = decimal(options.global_index);
    lines.push(detail("Global index: ", index.as_str()));
    lines
}

/// The report of an encode operation that succeeded: where the texture was
/// saved, then the settings that were applied.
pub fn encode_report(request: &EncodeRequest) -> (lines: Vec<ReportLine>)
    ensures
        report_view(lines@) == spec_encode_report(request@),
{
    let mut lines: Vec<ReportLine> = Vec::new();
    lines.push(tagged(ReportTag::Success, "saved encoded texture to:"));
    lines.push(indented(request.output()));
    lines.push(blank());
    lines.push(tag_alone(ReportTag::Info));
    let mut settings = settings_lines(request.options());
    lines.append(&mut settings);
    lines
}

/// The report of a decode operation that succeeded: where the image was
/// saved.
pub fn decode_report(output: &str) -> (lines: Vec<ReportLine>)
    ensures
        report_view(lines@) == spec_decode_report(output@),
{
    let mut lines: Vec<ReportLine> = Vec::new();
    lines.push(tagged(ReportTag::Success, "saved decoded image to:"));
    lines.push(indented(output));
    lines
}

/// The report of an operation that failed: the step at which it failed,
/// then what the failing part said.
pub fn failure_report(category: FailureCategory, message: &str) -> (lines: Vec<ReportLine>)
    ensures
        report_view(lines@) == spec_failure_report(category, message@),
{
    let mut lines: Vec<ReportLine> = Vec::new();
    lines.push(tagged(ReportTag::Error, category.heading()));
    lines.push(indented(message));
    lines
}

/// The report of options that may not be combined.
pub fn validation_report(error: &ValidationError) -> (lines: Vec<ReportLine>)
    ensures
        report_view(lines@) == spec_failure_report(
            FailureCategory::Validation,
            error.spec_message(),
        ),
{
    let message = error.message();
    failure_report(FailureCategory::Validation, message.as_str())
}

} // verus!
