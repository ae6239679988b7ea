//! Options for the text sign/verify/generate subcommands and the algorithm
//! selector they share.

use vstd::prelude::*;

verus! {

/// The closed set of signing schemes: a symmetric keyed hash and an
/// asymmetric signature scheme.  Parsed from a fixed set of case-sensitive
/// tokens and rendered back to the same tokens.
#[derive(Debug, Clone, Copy, PartialEq, Eq, Structural)]
pub enum TextSignFormat {
    Blake3,
    Ed25519,
}

/// The token that names a format on the command line.
pub open spec fn format_token(format: TextSignFormat) -> Seq<char> {
    match format {
        TextSignFormat::Blake3 => "blake3"@,
        TextSignFormat::Ed25519 => "ed25519"@,
    }
}

/// Which format, if any, a token selects.
pub open spec fn spec_parse_format(s: Seq<char>) -> Option<TextSignFormat> {
    if s == "blake3"@ {
        Some(TextSignFormat::Blake3)
    } else if s == "ed25519"@ {
        Some(TextSignFormat::Ed25519)
    } else {
        None
    }
}

/// Parses an algorithm token; exactly `blake3` and `ed25519` are accepted.
pub fn parse_text_sign_format(s: &str) -> (r: Result<TextSignFormat, &'static str>)
    ensures
        r is Ok <==> spec_parse_format(s@) is Some,
        r is Ok ==> Some(r->Ok_0) == spec_parse_format(s@),
        r is Err ==> r->Err_0@ == "Invalid format"@,
{
    if crate::cli::str_eq(s, "blake3") {
        Ok(TextSignFormat::Blake3)
    } else if crate::cli::str_eq(s, "ed25519") {
        Ok(TextSignFormat::Ed25519)
    } else {
        Err("Invalid format")
    }
}

impl TextSignFormat {
    /// Renders the format back to its command-line token.
    pub fn name(&self) -> (r: &'static str)
        ensures
            r@ == format_token(*self),
    {
        match self {
            TextSignFormat::Blake3 => "blake3",
            TextSignFormat::Ed25519 => "ed25519",
        }
    }
}

/// Parsing a format's own token yields that format back: the selector
/// tokens round-trip.
pub proof fn lemma_format_token_round_trip(format: TextSignFormat)
    ensures
        spec_parse_format(format_token(format)) == Some(format),
{
    reveal_strlit("blake3");
    reveal_strlit("ed25519");
    assert("blake3"@.len() == 6);
    assert("ed25519"@.len() == 7);
}

/// The text subcommands: sign a stream, verify a stream against a
/// signature, or generate fresh key material.
#[derive(Debug, Clone)]
pub enum TextSubcommand {
    Sign(TextSignOpts),
    Verify(TextVerifyOpts),
    Generate(TextKeyGenerateOpts),
}

/// Options for signing: where the input and the key come from, and the
/// scheme to use.
#[derive(Debug, Clone)]
pub struct TextSignOpts {
    pub input: String,
    pub key: String,
    pub format: TextSignFormat,
}

/// Options for verifying: input and key sources, the claimed signature,
/// and the scheme.
#[derive(Debug, Clone)]
pub struct TextVerifyOpts {
    pub input: String,
    pub key: String,
    pub sig: String,
    pub format: TextSignFormat,
}

/// Options for key generation: the scheme and the directory the caller
/// writes the artifacts to.
#[derive(Debug, Clone)]
pub struct TextKeyGenerateOpts {
    pub format: TextSignFormat,
    pub output_path: String,
}

} // verus!
