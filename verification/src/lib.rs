//! A small command-line toolkit library centred on text authentication:
//! signing and verifying byte streams under interchangeable schemes (a
//! symmetric keyed hash and an asymmetric signature scheme), together with
//! the matching key-generation routines.  The command-line option types and
//! the format selectors live beside the engine; all input/output resolution
//! is left to the caller.

pub mod cli;
pub mod process;

pub use cli::base64::Base64DecodeOpts;
pub use cli::base64::Base64EncodeOpts;
pub use cli::base64::Base64Format;
pub use cli::base64::Base64Subcommand;
pub use cli::base64::parse_base64_format;
pub use cli::csv::CsvOpts;
pub use cli::csv::OutputFormat;
pub use cli::csv::parse_output_format;
pub use cli::genpass::GenPassOpts;
pub use cli::jwt::JwtSignOpts;
pub use cli::jwt::JwtSubCommand;
pub use cli::jwt::JwtVerifyOpts;
pub use cli::text::TextKeyGenerateOpts;
pub use cli::text::parse_text_sign_format;
pub use cli::text::TextSignFormat;
pub use cli::text::TextSignOpts;
pub use cli::text::TextSubcommand;
pub use cli::text::TextVerifyOpts;
pub use cli::http::HttpServeOpts;
pub use cli::http::HttpSubCommand;
pub use cli::Opts;
pub use cli::SubCommand;
pub use cli::verify_file;
pub use cli::verify_input_file;
pub use cli::verify_path;
pub use process::gen_pass::process_genpass;
pub use process::text::Blake3;
pub use process::text::Ed25519Signer;
pub use process::text::Ed25519Verifier;
pub use process::text::GeneratedKeySet;
pub use process::text::TextError;
pub use process::text::TextSigner;
pub use process::text::TextVerifier;
pub use process::text::process_text_key_generate;
pub use process::text::process_text_sign;
pub use process::text::process_text_verify;
