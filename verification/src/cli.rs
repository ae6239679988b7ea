//! Command-line option types and the validators their value parsers use.
//! The types here are plain data: argument parsing itself is the caller's
//! concern.

pub mod base64;
pub mod csv;
pub mod genpass;
pub mod http;
pub mod jwt;
pub mod text;

use vstd::prelude::*;

verus! {

/// Top-level options: one subcommand per tool.
#[derive(Debug, Clone)]
pub struct Opts {
    pub cmd: SubCommand,
}

/// The closed set of subcommands the toolkit offers.
#[derive(Debug, Clone)]
pub enum SubCommand {
    Csv(crate::cli::csv::CsvOpts),
    GenPass(crate::cli::genpass::GenPassOpts),
    Base64(crate::cli::base64::Base64Subcommand),
    Text(crate::cli::text::TextSubcommand),
    Http(crate::cli::http::HttpSubCommand),
}

/// Relies on str's `PartialEq`: two string slices are equal exactly when
/// their character sequences are.
#[verifier::external_body]
pub(crate) fn str_eq(a: &str, b: &str) -> (r: bool)
    ensures
        r == (a@ == b@),
{
    a == b
}

/// Relies on std::path::Path::exists; whether a path exists depends on the
/// file system, so nothing is promised of the result.
#[verifier::external_body]
fn path_exists(p: &str) -> bool {
    std::path::Path::new(p).exists()
}

/// Relies on std::path::Path::is_dir; whether a path is a directory depends
/// on the file system, so nothing is promised of the result.
#[verifier::external_body]
fn path_is_dir(p: &str) -> bool {
    std::path::Path::new(p).is_dir()
}

/// Accepts `-` (standard input) unconditionally; any other value must name
/// an existing file.  Whether a file exists is the file system's answer, so
/// the contract pins the accepted value and the error text, not which branch
/// is taken.
pub fn verify_file(filename: &str) -> (r: Result<String, &'static str>)
    ensures
        r is Ok ==> r->Ok_0@ == filename@,
        filename@ == "-"@ ==> r is Ok,
        r is Err ==> r->Err_0@ == "File does not exist"@ && filename@ != "-"@,
{
    if str_eq(filename, "-") || path_exists(filename) {
        Ok(filename.to_owned())
    } else {
        Err("File does not exist")
    }
}

/// Accepts only a path that names an existing directory.
pub fn verify_path(path: &str) -> (r: Result<String, &'static str>)
    ensures
        r is Ok ==> r->Ok_0@ == path@,
        r is Err ==> r->Err_0@ == "Path does not exist or is not a directory"@,
{
    if path_exists(path) && path_is_dir(path) {
        Ok(path.to_owned())
    } else {
        Err("Path does not exist or is not a directory")
    }
}

/// Accepts only a value that names an existing file; unlike [`verify_file`]
/// it has no standard-input marker.
pub fn verify_input_file(filename: &str) -> (r: Result<String, &'static str>)
    ensures
        r is Ok ==> r->Ok_0@ == filename@,
        r is Err ==> r->Err_0@ == "File not found"@,
{
    if path_exists(filename) {
        Ok(filename.to_owned())
    } else {
        Err("File not found")
    }
}

} // verus!
