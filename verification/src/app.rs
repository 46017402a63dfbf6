use vstd::prelude::*;
use crate::cli::{exactly_one_format, spec_output_format, Cli};
use crate::converter::{convert_pipeline_spec, Converter};
use crate::error::Error;
use crate::writer::Output;

verus! {

/// Runs one conversion for a validated command line request. The caller
/// gathers the facts from disk — whether the input file exists, its
/// text, and whether a file already sits at the computed output path —
/// and persists the returned output.
pub fn run(args: Cli, input_exists: bool, content: &str, output_exists: bool) -> (r: Result<
    Output,
    Error,
>)
    requires
        exactly_one_format(args.format),
    ensures
        convert_pipeline_spec(
            args.file@,
            spec_output_format(args.format),
            input_exists,
            content@,
            output_exists,
            r,
        ),
{
    let output_format = match args.get_output_format() {
        Ok(f) => f,
        Err(e) => {
            return Err(e);
        },
    };
    let converter = Converter::new(args.file.as_str(), output_format.as_str());
    converter.convert(input_exists, content, output_exists)
}

} // verus!
