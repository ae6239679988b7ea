use rcli::Base64Format;
use rcli::OutputFormat;
use rcli::TextSignFormat;
use rcli::parse_base64_format;
use rcli::parse_text_sign_format;
use rcli::parse_output_format;
use rcli::verify_file;
use rcli::verify_input_file;
use rcli::verify_path;

#[test]
fn test_verify_input_file() {
    assert_eq!(verify_file("-"), Ok("-".into()));
    assert_eq!(verify_file("*"), Err("File does not exist"));
    assert_eq!(verify_file("src/lib.rs"), Ok("src/lib.rs".into()));
    assert_eq!(verify_file("not-exist"), Err("File does not exist"));
}

#[test]
fn test_verify_input_file_strict() {
    assert_eq!(verify_input_file("src/lib.rs"), Ok("src/lib.rs".into()));
    assert_eq!(verify_input_file("-"), Err("File not found"));
    assert_eq!(verify_input_file("not-exist"), Err("File not found"));
}

#[test]
fn test_verify_path() {
    assert_eq!(verify_path("src"), Ok("src".into()));
    assert_eq!(
        verify_path("src/lib.rs"),
        Err("Path does not exist or is not a directory")
    );
    assert_eq!(
        verify_path("not-exist"),
        Err("Path does not exist or is not a directory")
    );
}

#[test]
fn test_parse_output_format() {
    assert_eq!(parse_output_format("json"), Ok(OutputFormat::Json));
    assert_eq!(parse_output_format("yaml"), Ok(OutputFormat::Yaml));
    assert_eq!(
        parse_output_format("toml"),
        Err("Invalid output format: toml".to_string())
    );
    assert_eq!(
        parse_output_format("Json"),
        Err("Invalid output format: Json".to_string())
    );
}

#[test]
fn test_parse_base64_format() {
    assert_eq!(parse_base64_format("standard"), Ok(Base64Format::Standard));
    assert_eq!(parse_base64_format("urlsafe"), Ok(Base64Format::UrlSafe));
    assert_eq!(parse_base64_format("base32"), Err("Invalid format"));
}

#[test]
fn test_parse_text_sign_format() {
    assert_eq!(
        parse_text_sign_format("blake3"),
        Ok(TextSignFormat::Blake3)
    );
    assert_eq!(
        parse_text_sign_format("ed25519"),
        Ok(TextSignFormat::Ed25519)
    );
    assert_eq!(
        parse_text_sign_format("Blake3"),
        Err("Invalid format")
    );
}

#[test]
fn test_format_tokens_round_trip() {
    assert_eq!(TextSignFormat::Blake3.name(), "blake3");
    assert_eq!(TextSignFormat::Ed25519.name(), "ed25519");
    assert_eq!(
        parse_text_sign_format(TextSignFormat::Blake3.name()),
        Ok(TextSignFormat::Blake3)
    );
    assert_eq!(
        parse_text_sign_format(TextSignFormat::Ed25519.name()),
        Ok(TextSignFormat::Ed25519)
    );
    assert_eq!(OutputFormat::Json.name(), "json");
    assert_eq!(OutputFormat::Yaml.name(), "yaml");
    assert_eq!(parse_output_format(OutputFormat::Json.name()), Ok(OutputFormat::Json));
    assert_eq!(parse_output_format(OutputFormat::Yaml.name()), Ok(OutputFormat::Yaml));
    assert_eq!(Base64Format::Standard.name(), "standard");
    assert_eq!(Base64Format::UrlSafe.name(), "urlsafe");
    assert_eq!(
        parse_base64_format(Base64Format::Standard.name()),
        Ok(Base64Format::Standard)
    );
    assert_eq!(
        parse_base64_format(Base64Format::UrlSafe.name()),
        Ok(Base64Format::UrlSafe)
    );
}
