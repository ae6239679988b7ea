//! The processing layer: the text-authentication engine, the password
//! generator its key generation uses, and the trusted bindings both rest on.

pub mod crypto;
pub mod gen_pass;
pub mod text;
