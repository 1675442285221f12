//! What is decided around a run of the compression tool.
//!
//! A document is compressed by Ghostscript. This module decides whether an
//! input is taken at all, with which arguments the tool is run, and what a
//! finished run yields. Reading the input, running the tool and reading its
//! output are left to the caller.

use vstd::prelude::*;
use crate::level::CompressionLevel;

verus! {

/// The program that compresses a document.
pub const GHOSTSCRIPT: &'static str = "gswin64c";

/// Why a document was not compressed.
#[derive(Clone, Copy, Debug, PartialEq, Eq, Structural)]
pub enum CompressError {
    /// The input does not begin as a PDF document does.
    InvalidPdf,
    /// The tool ended with a failure.
    GhostscriptFailed,
    /// A temporary file could not be written or read.
    Io,
}

impl CompressError {
    /// The text that tells a person what went wrong.
    pub open spec fn text(self) -> Seq<char> {
        match self {
            CompressError::InvalidPdf => "Invalid PDF file"@,
            CompressError::GhostscriptFailed => "Ghostscript command failed"@,
            CompressError::Io => "Temporary file could not be used"@,
        }
    }

    /// The text that tells a person what went wrong.
    pub fn message(&self) -> (r: &'static str)
        ensures
            r@ == self.text(),
            r@.len() > 0,
    {
        proof {
            reveal_strlit("Invalid PDF file");
            reveal_strlit("Ghostscript command failed");
            reveal_strlit("Temporary file could not be used");
        }
        match self {
            CompressError::InvalidPdf => "Invalid PDF file",
            CompressError::GhostscriptFailed => "Ghostscript command failed",
            CompressError::Io => "Temporary file could not be used",
        }
    }
}

/// Every failure has something to say.
pub proof fn lemma_error_text_not_empty(e: CompressError)
    ensures
        e.text().len() > 0,
{
    reveal_strlit("Invalid PDF file");
    reveal_strlit("Ghostscript command failed");
    reveal_strlit("Temporary file could not be used");
}

/// A PDF document begins with the four bytes `%PDF`.
pub open spec fn is_pdf(content: Seq<u8>) -> bool {
    &&& content.len() >= 4
    &&& content[0] == 0x25
    &&& content[1] == 0x50
    &&& content[2] == 0x44
    &&& content[3] == 0x46
}

/// The settings that Ghostscript is given for a level.
pub open spec fn settings_text(level: CompressionLevel) -> Seq<char> {
    match level {
        CompressionLevel::Low =>
            "-dPDFSETTINGS=/screen -dColorImageResolution=72 -dGrayImageResolution=72 -dMonoImageResolution=72"@,
        CompressionLevel::Medium =>
            "-dPDFSETTINGS=/ebook -dColorImageResolution=150 -dGrayImageResolution=150 -dMonoImageResolution=150"@,
        CompressionLevel::High =>
            "-dPDFSETTINGS=/printer -dColorImageResolution=300 -dGrayImageResolution=300 -dMonoImageResolution=300"@,
    }
}

/// The arguments of one run of Ghostscript: the device, the settings of the
/// level as one argument, the batch switches, where to write and what to read.
pub open spec fn ghostscript_args(
    level: CompressionLevel,
    input_path: Seq<char>,
    output_path: Seq<char>,
) -> Seq<Seq<char>> {
    seq![
        "-sDEVICE=pdfwrite"@,
        "-dCompatibilityLevel=1.4"@,
        settings_text(level),
        "-dNOPAUSE"@,
        "-dQUIET"@,
        "-dBATCH"@,
        "-sOutputFile="@ + output_path,
        input_path,
    ]
}

/// The texts of a list of strings, in the same order.
pub open spec fn texts(strings: Seq<String>) -> Seq<Seq<char>> {
    Seq::new(strings.len(), |i: int| strings[i]@)
}

/// Whether `content` begins as a PDF document does.
pub fn has_pdf_signature(content: &[u8]) -> (r: bool)
    ensures
        r == is_pdf(content@),
{
    content.len() >= 4 && content[0] == 0x25 && content[1] == 0x50 && content[2] == 0x44
        && content[3] == 0x46
}

/// The settings that Ghostscript is given for a level.
pub fn compression_settings(level: CompressionLevel) -> (r: &'static str)
    ensures
        r@ == settings_text(level),
{
    match level {
        CompressionLevel::Low =>
            "-dPDFSETTINGS=/screen -dColorImageResolution=72 -dGrayImageResolution=72 -dMonoImageResolution=72",
        CompressionLevel::Medium =>
            "-dPDFSETTINGS=/ebook -dColorImageResolution=150 -dGrayImageResolution=150 -dMonoImageResolution=150",
        CompressionLevel::High =>
            "-dPDFSETTINGS=/printer -dColorImageResolution=300 -dGrayImageResolution=300 -dMonoImageResolution=300",
    }
}

/// Prepares the compression of a document that was read from `input_path`:
/// an input that is no PDF is turned away before any tool is run, and for a
/// PDF the arguments are given with which `GHOSTSCRIPT` writes the compressed
/// document to `output_path`.
pub fn compress_pdf(
    content: &[u8],
    input_path: &str,
    output_path: &str,
    compression_level: CompressionLevel,
) -> (r: Result<Vec<String>, CompressError>)
    ensures
        match r {
            Ok(args) => is_pdf(content@) && texts(args@) == ghostscript_args(
                compression_level,
                input_path@,
                output_path@,
            ),
            Err(e) => !is_pdf(content@) && e == CompressError::InvalidPdf,
        },
{
    if !has_pdf_signature(content) {
        return Err(CompressError::InvalidPdf);
    }
    let mut args: Vec<String> = Vec::new();
    args.push(String::from_str("-sDEVICE=pdfwrite"));
    args.push(String::from_str("-dCompatibilityLevel=1.4"));
    args.push(String::from_str(compression_settings(compression_level)));
    args.push(String::from_str("-dNOPAUSE"));
    args.push(String::from_str("-dQUIET"));
    args.push(String::from_str("-dBATCH"));
    let mut target = String::from_str("-sOutputFile=");
    target.append(output_path);
    args.push(target);
    args.push(String::from_str(input_path));
    assert(texts(args@) =~= ghostscript_args(compression_level, input_path@, output_path@));
    Ok(args)
}

/// What a finished run of the tool yields: the bytes it wrote, or a failure
/// where it did not end well.
pub fn compressed_output(succeeded: bool, output: Vec<u8>) -> (r: Result<Vec<u8>, CompressError>)
    ensures
        r == if succeeded {
            Ok::<Vec<u8>, CompressError>(output)
        } else {
            Err::<Vec<u8>, CompressError>(CompressError::GhostscriptFailed)
        },
{
    if succeeded {
        Ok(output)
    } else {
        Err(CompressError::GhostscriptFailed)
    }
}

} // verus!
