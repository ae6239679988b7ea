//! Options for the CSV conversion subcommand and its output-format
//! selector.

use vstd::prelude::*;

verus! {

/// Options for converting a CSV file: input path, optional output path,
/// target format, field delimiter, and whether the file has a header row.
#[derive(Debug, Clone)]
pub struct CsvOpts {
    pub input: String,
    pub output: Option<String>,
    pub format: OutputFormat,
    pub delimiter: char,
    pub header: bool,
}

/// The supported conversion targets.
#[derive(Debug, Clone, Copy, PartialEq, Eq, Structural)]
pub enum OutputFormat {
    Json,
    Yaml,
}

/// The token that names an output format on the command line.
pub open spec fn output_format_token(format: OutputFormat) -> Seq<char> {
    match format {
        OutputFormat::Json => "json"@,
        OutputFormat::Yaml => "yaml"@,
    }
}

/// Which output format, if any, a token selects.
pub open spec fn spec_parse_output_format(s: Seq<char>) -> Option<OutputFormat> {
    if s == "json"@ {
        Some(OutputFormat::Json)
    } else if s == "yaml"@ {
        Some(OutputFormat::Yaml)
    } else {
        None
    }
}

/// Relies on the `format!` macro: the result is exactly the fixed prefix
/// followed by the token.
#[verifier::external_body]
fn invalid_output_format_message(token: &str) -> (r: String)
    ensures
        r@ == "Invalid output format: "@ + token@,
{
    format!("Invalid output format: {}", token)
}

/// Parses an output-format token; exactly `json` and `yaml` are accepted,
/// and the error names the rejected token.
pub fn parse_output_format(format: &str) -> (r: Result<OutputFormat, String>)
    ensures
        r is Ok <==> spec_parse_output_format(format@) is Some,
        r is Ok ==> Some(r->Ok_0) == spec_parse_output_format(format@),
        r is Err ==> r->Err_0@ == "Invalid output format: "@ + format@,
{
    if crate::cli::str_eq(format, "json") {
        Ok(OutputFormat::Json)
    } else if crate::cli::str_eq(format, "yaml") {
        Ok(OutputFormat::Yaml)
    } else {
        Err(invalid_output_format_message(format))
    }
}

impl OutputFormat {
    /// Renders the output format back to its command-line token.
    pub fn name(&self) -> (r: &'static str)
        ensures
            r@ == output_format_token(*self),
    {
        match self {
            OutputFormat::Json => "json",
            OutputFormat::Yaml => "yaml",
        }
    }
}

/// Parsing an output format's own token yields that format back.
pub proof fn lemma_output_format_token_round_trip(format: OutputFormat)
    ensures
        spec_parse_output_format(output_format_token(format)) == Some(format),
{
    reveal_strlit("json");
    reveal_strlit("yaml");
    assert("json"@[0] == 'j');
    assert("yaml"@[0] == 'y');
}

} // verus!
