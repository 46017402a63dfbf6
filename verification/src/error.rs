use vstd::prelude::*;

verus! {

/// Every way a conversion can fail. Each variant is terminal: the pipeline
/// stops at the first failure and hands the error to the caller unchanged.
///
/// Variants that wrap an underlying failure (a parse error, an OS error,
/// a serializer error) carry its rendered text as a `String`.
#[derive(Debug)]
pub enum Error {
    /// The input file's extension is none of `json`, `toml`, `yaml`.
    UnsupportedFileExtension,
    /// The requested output format is none of `json`, `toml`, `yaml`.
    UnsupportedOutputFormat,
    /// The OS refused the write of the output file.
    FailedToWriteOutputFile(String),
    /// A file already exists at the computed output path.
    FileDoesExist(String),
    /// The input path does not exist on disk.
    FileDoesNotExist(String),
    /// The input file's extension equals the requested output format.
    FileExtensionMatchesOutputFormat,
    /// The input text is not well-formed JSON.
    FailedToReadJsonFile(String),
    /// The input text is not well-formed TOML.
    FailedToReadTomlFile(String),
    /// The input text is not well-formed YAML.
    FailedToReadYamlFile(String),
    /// The value cannot be represented in the requested output format,
    /// for example a bare scalar at the root of a TOML document.
    FailedToSerializeValue(String),
}

/// The text that `Error::message` renders for each variant.
pub open spec fn spec_message(e: Error) -> Seq<char> {
    match e {
        Error::UnsupportedFileExtension => "Unsupported file extension"@,
        Error::UnsupportedOutputFormat => "Unsupported output format"@,
        Error::FailedToWriteOutputFile(_) => "Failed to write the output file"@,
        Error::FileDoesExist(p) => "File does exist: "@ + p@,
        Error::FileDoesNotExist(p) => "File does not exist: "@ + p@,
        Error::FileExtensionMatchesOutputFormat => "File extension matches the output format"@,
        Error::FailedToReadJsonFile(d) => "Failed to read the JSON file: "@ + d@,
        Error::FailedToReadTomlFile(d) => "Failed to read the TOML file: "@ + d@,
        Error::FailedToReadYamlFile(d) => "Failed to read the YAML file: "@ + d@,
        Error::FailedToSerializeValue(d) => "Failed to serialize the value: "@ + d@,
    }
}

impl Error {
    /// Renders the error as one line of text, suitable for display.
    pub fn message(&self) -> (r: String)
        ensures
            r@ == spec_message(*self),
    {
        match self {
            Error::UnsupportedFileExtension => "Unsupported file extension".to_owned(),
            Error::UnsupportedOutputFormat => "Unsupported output format".to_owned(),
            Error::FailedToWriteOutputFile(_) => "Failed to write the output file".to_owned(),
            Error::FileDoesExist(p) => "File does exist: ".to_owned().concat(p.as_str()),
            Error::FileDoesNotExist(p) => "File does not exist: ".to_owned().concat(p.as_str()),
            Error::FileExtensionMatchesOutputFormat => "File extension matches the output format".to_owned(),
            Error::FailedToReadJsonFile(d) => "Failed to read the JSON file: ".to_owned().concat(d.as_str()),
            Error::FailedToReadTomlFile(d) => "Failed to read the TOML file: ".to_owned().concat(d.as_str()),
            Error::FailedToReadYamlFile(d) => "Failed to read the YAML file: ".to_owned().concat(d.as_str()),
            Error::FailedToSerializeValue(d) => "Failed to serialize the value: ".to_owned().concat(d.as_str()),
        }
    }
}

} // verus!
