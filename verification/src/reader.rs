use vstd::prelude::*;
use crate::codec::{
    json_value_of, parse_json, parse_toml, parse_yaml, toml_value_of, yaml_value_of,
};
use crate::error::Error;
use crate::paths::{extension_of, spec_extension, str_eq};

verus! {

/// Whether a format name is one of the three supported ones.
pub open spec fn is_supported_format(f: Seq<char>) -> bool {
    f == "json"@ || f == "toml"@ || f == "yaml"@
}

/// Whether `path` carries an extension that names a supported format.
pub open spec fn extension_is_supported(path: Seq<char>) -> bool {
    spec_extension(path) matches Some(ext) && is_supported_format(ext)
}

/// The value, if any, that `content` parses to in the format named by
/// `ext`. Meaningful only when `is_supported_format(ext)` holds.
pub open spec fn spec_parsed(ext: Seq<char>, content: Seq<char>) -> Option<serde_json::Value> {
    if ext == "json"@ {
        json_value_of(content)
    } else if ext == "toml"@ {
        toml_value_of(content)
    } else {
        yaml_value_of(content)
    }
}

/// Whether `e` is the parse error kind that belongs to the format named
/// by `ext`. Meaningful only when `is_supported_format(ext)` holds.
pub open spec fn is_parse_error(ext: Seq<char>, e: Error) -> bool {
    if ext == "json"@ {
        e is FailedToReadJsonFile
    } else if ext == "toml"@ {
        e is FailedToReadTomlFile
    } else {
        e is FailedToReadYamlFile
    }
}

/// What `Reader::read` returns, step by step: a missing input fails with
/// `FileDoesNotExist` before anything else, an unsupported or missing
/// extension fails with `UnsupportedFileExtension`, malformed content
/// fails with the format's parse error, and otherwise the parsed value
/// is returned.
pub open spec fn read_spec(
    path: Seq<char>,
    input_exists: bool,
    content: Seq<char>,
    r: Result<serde_json::Value, Error>,
) -> bool {
    if !input_exists {
        r matches Err(e) && e matches Error::FileDoesNotExist(p) && p@ == path
    } else {
        match spec_extension(path) {
            None => r matches Err(e) && e is UnsupportedFileExtension,
            Some(ext) => if !is_supported_format(ext) {
                r matches Err(e) && e is UnsupportedFileExtension
            } else {
                match spec_parsed(ext, content) {
                    Some(v) => r == Ok::<serde_json::Value, Error>(v),
                    None => r matches Err(e) && is_parse_error(ext, e),
                }
            },
        }
    }
}

/// Detects the input format from the file's extension and parses the
/// file's content into the generic value tree.
pub struct Reader {
    /// The path of the file to read.
    pub file_path: String,
}

impl Reader {
    /// A reader for the file at `file_path`.
    pub fn new(file_path: &str) -> (r: Reader)
        ensures
            r.file_path@ == file_path@,
    {
        Reader { file_path: file_path.to_owned() }
    }

    /// `FileDoesNotExist` for the given path unless the caller found the
    /// file on disk.
    pub fn check_file_exists(&self, file_path: &str, input_exists: bool) -> (r: Result<
        (),
        Error,
    >)
        ensures
            input_exists ==> r is Ok,
            !input_exists ==> (r matches Err(e) && e matches Error::FileDoesNotExist(p) && p@
                == file_path@),
    {
        if !input_exists {
            return Err(Error::FileDoesNotExist(file_path.to_owned()));
        }
        Ok(())
    }

    /// Parses `content`, the text of the file at `self.file_path`, in the
    /// format named by the file's extension. `input_exists` says whether
    /// the caller found the file on disk; when it is false the read fails
    /// with `FileDoesNotExist` before any parse is attempted.
    pub fn read(&self, input_exists: bool, content: &str) -> (r: Result<serde_json::Value, Error>)
        ensures
            read_spec(self.file_path@, input_exists, content@, r),
            !input_exists ==> r is Err,
            input_exists && !extension_is_supported(self.file_path@) ==> (r matches Err(e)
                && e is UnsupportedFileExtension),
    {
        match self.check_file_exists(self.file_path.as_str(), input_exists) {
            Err(e) => {
                return Err(e);
            },
            Ok(()) => {},
        }
        match extension_of(self.file_path.as_str()) {
            None => Err(Error::UnsupportedFileExtension),
            Some(ext) => {
                if str_eq(ext.as_str(), "json") {
                    match parse_json(content) {
                        Ok(v) => Ok(v),
                        Err(d) => Err(Error::FailedToReadJsonFile(d)),
                    }
                } else if str_eq(ext.as_str(), "toml") {
                    match parse_toml(content) {
                        Ok(v) => Ok(v),
                        Err(d) => Err(Error::FailedToReadTomlFile(d)),
                    }
                } else if str_eq(ext.as_str(), "yaml") {
                    match parse_yaml(content) {
                        Ok(v) => Ok(v),
                        Err(d) => Err(Error::FailedToReadYamlFile(d)),
                    }
                } else {
                    Err(Error::UnsupportedFileExtension)
                }
            },
        }
    }
}

} // verus!
