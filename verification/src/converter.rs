use vstd::prelude::*;
use crate::error::Error;
use crate::paths::spec_extension;
use crate::reader::{extension_is_supported, is_parse_error, spec_parsed, Reader};
use crate::writer::{write_spec, Output, Writer};

verus! {

/// What `Converter::convert` returns: the reader's steps first, then, on
/// a parsed value, the writer's steps, with the first failing step's
/// error handed through unchanged.
pub open spec fn convert_pipeline_spec(
    path: Seq<char>,
    fmt: Seq<char>,
    input_exists: bool,
    content: Seq<char>,
    output_exists: bool,
    r: Result<Output, Error>,
) -> bool {
    if !input_exists {
        r matches Err(e) && e matches Error::FileDoesNotExist(p) && p@ == path
    } else {
        match spec_extension(path) {
            None => r matches Err(e) && e is UnsupportedFileExtension,
            Some(ext) => if !crate::reader::is_supported_format(ext) {
                r matches Err(e) && e is UnsupportedFileExtension
            } else {
                match spec_parsed(ext, content) {
                    None => r matches Err(e) && is_parse_error(ext, e),
                    Some(v) => write_spec(path, fmt, output_exists, v, r),
                }
            },
        }
    }
}

/// Orchestrates one conversion: read the input into the generic value
/// tree, then serialize it toward the output format.
pub struct Converter {
    /// The path of the input file.
    pub file_path: String,
    /// The requested output format.
    pub output_format: String,
}

impl Converter {
    /// A converter for the file at `file_path` toward `output_format`.
    pub fn new(file_path: &str, output_format: &str) -> (r: Self)
        ensures
            r.file_path@ == file_path@,
            r.output_format@ == output_format@,
    {
        Converter {
            file_path: file_path.to_owned(),
            output_format: output_format.to_owned(),
        }
    }

    /// Runs the pipeline on the facts the caller gathered from disk:
    /// whether the input file exists, its text, and whether a file
    /// already sits at the computed output path. The first failing step
    /// ends the conversion with its error, unchanged; on success the
    /// output path and serialized text are handed back for the caller to
    /// persist.
    ///
    /// A missing input always fails with `FileDoesNotExist`, before any
    /// parse. An unsupported input extension always fails with
    /// `UnsupportedFileExtension`. An existing output file always keeps
    /// the conversion from succeeding, so it is never modified.
    pub fn convert(&self, input_exists: bool, content: &str, output_exists: bool) -> (r: Result<
        Output,
        Error,
    >)
        ensures
            convert_pipeline_spec(
                self.file_path@,
                self.output_format@,
                input_exists,
                content@,
                output_exists,
                r,
            ),
            !input_exists ==> (r matches Err(e) && e matches Error::FileDoesNotExist(p) && p@
                == self.file_path@),
            input_exists && !extension_is_supported(self.file_path@) ==> (r matches Err(e)
                && e is UnsupportedFileExtension),
            output_exists ==> r is Err,
    {
        let reader = Reader::new(self.file_path.as_str());
        let data = match reader.read(input_exists, content) {
            Ok(d) => d,
            Err(e) => {
                return Err(e);
            },
        };
        let writer = Writer::new(self.file_path.as_str(), self.output_format.as_str());
        writer.write(output_exists, data)
    }
}

} // verus!
