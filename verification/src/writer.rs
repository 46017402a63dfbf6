use vstd::prelude::*;
use crate::codec::{
    emit_json, emit_toml, emit_yaml, json_pretty_of, toml_pretty_of, yaml_text_of,
};
use crate::error::Error;
use crate::paths::{extension_of, replace_extension, spec_extension, spec_with_extension, str_eq};
use crate::reader::is_supported_format;

verus! {

/// A finished conversion, ready to be persisted by the caller: the
/// computed output path and the serialized text that belongs there.
#[derive(Debug)]
pub struct Output {
    /// Where the serialized text belongs: the input path with its
    /// extension replaced by the output format.
    pub path: String,
    /// The serialized text.
    pub text: String,
}

/// The serialized text, if any, of `v` in the format named by `fmt`.
/// Meaningful only when `is_supported_format(fmt)` holds.
pub open spec fn spec_serialized(fmt: Seq<char>, v: serde_json::Value) -> Option<Seq<char>> {
    if fmt == "json"@ {
        json_pretty_of(v)
    } else if fmt == "toml"@ {
        toml_pretty_of(v)
    } else {
        yaml_text_of(v)
    }
}

/// What `Writer::convert` returns: the serialized text of `v` in the
/// format named by `fmt`, `UnsupportedOutputFormat` for an unknown
/// format, and `FailedToSerializeValue` for a value the format cannot
/// represent.
pub open spec fn convert_spec(fmt: Seq<char>, v: serde_json::Value, r: Result<String, Error>) -> bool {
    if !is_supported_format(fmt) {
        r matches Err(e) && e is UnsupportedOutputFormat
    } else {
        match spec_serialized(fmt, v) {
            Some(t) => r matches Ok(s) && s@ == t,
            None => r matches Err(e) && e is FailedToSerializeValue,
        }
    }
}

/// What `Writer::write` returns, step by step: an input extension equal
/// to the output format fails with `FileExtensionMatchesOutputFormat`
/// before any serialization work, an unknown format fails with
/// `UnsupportedOutputFormat`, an unrepresentable value fails with
/// `FailedToSerializeValue`, an already existing output file fails with
/// `FileDoesExist`, and otherwise the output path and text are returned.
pub open spec fn write_spec(
    path: Seq<char>,
    fmt: Seq<char>,
    output_exists: bool,
    v: serde_json::Value,
    r: Result<Output, Error>,
) -> bool {
    if spec_extension(path) == Some(fmt) {
        r matches Err(e) && e is FileExtensionMatchesOutputFormat
    } else if !is_supported_format(fmt) {
        r matches Err(e) && e is UnsupportedOutputFormat
    } else {
        match spec_serialized(fmt, v) {
            None => r matches Err(e) && e is FailedToSerializeValue,
            Some(t) => if output_exists {
                r matches Err(e) && e matches Error::FileDoesExist(p) && p@
                    == spec_with_extension(path, fmt)
            } else {
                r matches Ok(o) && o.path@ == spec_with_extension(path, fmt) && o.text@ == t
            },
        }
    }
}

/// Validates that the conversion changes the format and would not clobber
/// an existing file, and serializes the value tree to the target format.
pub struct Writer {
    /// The path of the input file.
    pub file_path: String,
    /// The requested output format.
    pub output_format: String,
}

impl Writer {
    /// A writer that serializes toward `output_format` for the input file
    /// at `file_path`.
    pub fn new(file_path: &str, output_format: &str) -> (r: Writer)
        ensures
            r.file_path@ == file_path@,
            r.output_format@ == output_format@,
    {
        Writer { file_path: file_path.to_owned(), output_format: output_format.to_owned() }
    }

    /// `FileExtensionMatchesOutputFormat` when `file_extension` equals
    /// the requested output format: such a conversion would be a no-op.
    pub fn file_extension_matches_output_format(&self, file_extension: &str) -> (r: Result<
        (),
        Error,
    >)
        ensures
            file_extension@ == self.output_format@ ==> (r matches Err(e)
                && e is FileExtensionMatchesOutputFormat),
            file_extension@ != self.output_format@ ==> r is Ok,
    {
        if str_eq(file_extension, self.output_format.as_str()) {
            return Err(Error::FileExtensionMatchesOutputFormat);
        }
        Ok(())
    }

    /// `FileDoesExist` for the given path if the caller found a file
    /// already there: the writer never overwrites.
    pub fn output_file_exists(&self, output_file_path: &str, output_exists: bool) -> (r: Result<
        (),
        Error,
    >)
        ensures
            !output_exists ==> r is Ok,
            output_exists ==> (r matches Err(e) && e matches Error::FileDoesExist(p) && p@
                == output_file_path@),
    {
        if output_exists {
            return Err(Error::FileDoesExist(output_file_path.to_owned()));
        }
        Ok(())
    }

    /// The path the output is written to: the input path with its
    /// extension replaced by the output format.
    pub fn output_file_path(&self) -> (r: String)
        ensures
            r@ == spec_with_extension(self.file_path@, self.output_format@),
    {
        replace_extension(self.file_path.as_str(), self.output_format.as_str())
    }

    /// Serializes `data` into the text of the requested output format.
    /// A value the format cannot represent, such as a bare scalar at the
    /// root of a TOML document, fails with `FailedToSerializeValue`.
    pub fn convert(&self, data: serde_json::Value) -> (r: Result<String, Error>)
        ensures
            convert_spec(self.output_format@, data, r),
    {
        if str_eq(self.output_format.as_str(), "json") {
            match emit_json(&data) {
                Ok(s) => Ok(s),
                Err(d) => Err(Error::FailedToSerializeValue(d)),
            }
        } else if str_eq(self.output_format.as_str(), "toml") {
            match emit_toml(&data) {
                Ok(s) => Ok(s),
                Err(d) => Err(Error::FailedToSerializeValue(d)),
            }
        } else if str_eq(self.output_format.as_str(), "yaml") {
            match emit_yaml(&data) {
                Ok(s) => Ok(s),
                Err(d) => Err(Error::FailedToSerializeValue(d)),
            }
        } else {
            Err(Error::UnsupportedOutputFormat)
        }
    }

    /// Validates and serializes `data`, handing back the output path and
    /// text for the caller to persist. `output_exists` says whether the
    /// caller found a file at the computed output path; when it is true
    /// the write fails with `FileDoesExist`, so no existing file is ever
    /// touched.
    pub fn write(&self, output_exists: bool, data: serde_json::Value) -> (r: Result<Output, Error>)
        ensures
            write_spec(self.file_path@, self.output_format@, output_exists, data, r),
            spec_extension(self.file_path@) == Some(self.output_format@) ==> (r matches Err(e)
                && e is FileExtensionMatchesOutputFormat),
            output_exists ==> r is Err,
    {
        match extension_of(self.file_path.as_str()) {
            Some(ext) => match self.file_extension_matches_output_format(ext.as_str()) {
                Err(e) => {
                    return Err(e);
                },
                Ok(()) => {},
            },
            None => {},
        }
        let text = match self.convert(data) {
            Ok(t) => t,
            Err(e) => {
                return Err(e);
            },
        };
        let output_file_path = self.output_file_path();
        match self.output_file_exists(output_file_path.as_str(), output_exists) {
            Err(e) => {
                return Err(e);
            },
            Ok(()) => {},
        }
        Ok(Output { path: output_file_path, text })
    }
}

} // verus!
