//! Options for the base64 encode/decode subcommands and their alphabet
//! selector.

use vstd::prelude::*;

verus! {

/// Encode or decode.
#[derive(Debug, Clone)]
pub enum Base64Subcommand {
    Encode(Base64EncodeOpts),
    Decode(Base64DecodeOpts),
}

/// Options for encoding: the input source and the alphabet.
#[derive(Debug, Clone)]
pub struct Base64EncodeOpts {
    pub input: String,
    pub format: Base64Format,
}

/// Options for decoding: the input source and the alphabet.
#[derive(Debug, Clone)]
pub struct Base64DecodeOpts {
    pub input: String,
    pub format: Base64Format,
}

/// The two supported base64 alphabets.
#[derive(Debug, Clone, Copy, PartialEq, Eq, Structural)]
pub enum Base64Format {
    Standard,
    UrlSafe,
}

/// The token that names an alphabet on the command line.
pub open spec fn base64_format_token(format: Base64Format) -> Seq<char> {
    match format {
        Base64Format::Standard => "standard"@,
        Base64Format::UrlSafe => "urlsafe"@,
    }
}

/// Which alphabet, if any, a token selects.
pub open spec fn spec_parse_base64_format(s: Seq<char>) -> Option<Base64Format> {
    if s == "standard"@ {
        Some(Base64Format::Standard)
    } else if s == "urlsafe"@ {
        Some(Base64Format::UrlSafe)
    } else {
        None
    }
}

/// Parses an alphabet token; exactly `standard` and `urlsafe` are accepted.
pub fn parse_base64_format(format: &str) -> (r: Result<Base64Format, &'static str>)
    ensures
        r is Ok <==> spec_parse_base64_format(format@) is Some,
        r is Ok ==> Some(r->Ok_0) == spec_parse_base64_format(format@),
        r is Err ==> r->Err_0@ == "Invalid format"@,
{
    if crate::cli::str_eq(format, "standard") {
        Ok(Base64Format::Standard)
    } else if crate::cli::str_eq(format, "urlsafe") {
        Ok(Base64Format::UrlSafe)
    } else {
        Err("Invalid format")
    }
}

impl Base64Format {
    /// Renders the alphabet back to its command-line token.
    pub fn name(&self) -> (r: &'static str)
        ensures
            r@ == base64_format_token(*self),
    {
        match self {
            Base64Format::Standard => "standard",
            Base64Format::UrlSafe => "urlsafe",
        }
    }
}

/// Parsing an alphabet's own token yields that alphabet back.
pub proof fn lemma_base64_format_token_round_trip(format: Base64Format)
    ensures
        spec_parse_base64_format(base64_format_token(format)) == Some(format),
{
    reveal_strlit("standard");
    reveal_strlit("urlsafe");
    assert("standard"@.len() == 8);
    assert("urlsafe"@.len() == 7);
}

} // verus!
