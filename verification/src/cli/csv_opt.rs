//! Options for the CSV conversion command.

use vstd::prelude::*;
use vstd::string::StringExecFns;

use crate::cli::lower_of;
use crate::cli::str_eq;
use crate::cli::to_lowercase;
use crate::cli::ParseFormatError;

verus! {

/// The conversion target format.
#[derive(Debug, Clone, Copy, PartialEq, Eq, Structural)]
pub enum OutputFormat {
    Json,
    Yaml,
}

impl OutputFormat {
    /// The lowercase name of the format, as used in file extensions.
    pub fn label(&self) -> (r: String)
        ensures
            *self == OutputFormat::Json ==> r@ == "json"@,
            *self == OutputFormat::Yaml ==> r@ == "yaml"@,
    {
        match self {
            OutputFormat::Json => String::from_str("json"),
            OutputFormat::Yaml => String::from_str("yaml"),
        }
    }
}

/// Parse an output format name, case-insensitively: `json` or `yaml`.
pub fn parse_format(s: &str) -> (r: Result<OutputFormat, ParseFormatError>)
    ensures
        r matches Ok(f) ==> (f == OutputFormat::Json <==> lower_of(s@) == "json"@),
        r matches Ok(f) ==> (f == OutputFormat::Yaml <==> lower_of(s@) == "yaml"@),
        r is Ok <==> (lower_of(s@) == "json"@ || lower_of(s@) == "yaml"@),
        r matches Err(e) ==> e == ParseFormatError::Unsupported,
{
    proof {
        reveal_strlit("json");
        reveal_strlit("yaml");
        assert("json"@[0] == 'j');
        assert("yaml"@[0] == 'y');
        assert("json"@ != "yaml"@);
    }
    let lowered = to_lowercase(s);
    if str_eq(lowered.as_str(), "json") {
        Ok(OutputFormat::Json)
    } else if str_eq(lowered.as_str(), "yaml") {
        Ok(OutputFormat::Yaml)
    } else {
        Err(ParseFormatError::Unsupported)
    }
}

/// Options for the CSV conversion: input file, optional output file, target
/// format, field delimiter, and whether the first record is a header row.
#[derive(Debug, Clone)]
pub struct CsvOpts {
    pub input: String,
    pub output: Option<String>,
    pub format: OutputFormat,
    pub delimiter: char,
    pub header: bool,
}

} // verus!
