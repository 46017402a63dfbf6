use vstd::prelude::*;
use crate::error::Error;

verus! {

/// A validated conversion request: the file to convert and the requested
/// output format. The surrounding command line layer fills it in.
#[derive(Debug)]
pub struct Cli {
    /// The file to convert.
    pub file: String,
    /// The requested output format.
    pub format: Format,
}

/// The output format as three mutually exclusive flags, of which exactly
/// one is expected to be set.
#[derive(Debug)]
pub struct Format {
    /// JSON output format.
    pub json: bool,
    /// TOML output format.
    pub toml: bool,
    /// YAML output format.
    pub yaml: bool,
}

/// Whether exactly one of the three format flags is set.
pub open spec fn exactly_one_format(f: Format) -> bool {
    ||| (f.json && !f.toml && !f.yaml)
    ||| (!f.json && f.toml && !f.yaml)
    ||| (!f.json && !f.toml && f.yaml)
}

/// The format name that the set flag selects. Meaningful only when
/// `exactly_one_format` holds.
pub open spec fn spec_output_format(f: Format) -> Seq<char> {
    if f.json {
        "json"@
    } else if f.toml {
        "toml"@
    } else {
        "yaml"@
    }
}

impl Cli {
    /// The name of the requested output format, or
    /// `UnsupportedOutputFormat` unless exactly one flag is set.
    pub fn get_output_format(&self) -> (r: Result<String, Error>)
        ensures
            exactly_one_format(self.format) ==> (r matches Ok(s) && s@ == spec_output_format(
                self.format,
            )),
            !exactly_one_format(self.format) ==> (r matches Err(e)
                && e is UnsupportedOutputFormat),
    {
        match (self.format.json, self.format.toml, self.format.yaml) {
            (true, false, false) => Ok("json".to_owned()),
            (false, true, false) => Ok("toml".to_owned()),
            (false, false, true) => Ok("yaml".to_owned()),
            _ => Err(Error::UnsupportedOutputFormat),
        }
    }
}

} // verus!
