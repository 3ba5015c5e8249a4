//! Signing and verifying byte streams under a keyed BLAKE3 hash or Ed25519,
//! with the key material each scheme needs; base64 coding; and the checks
//! that the command line applies to its arguments.
pub mod b64;
pub mod cli;
pub mod crypto;
pub mod text;

pub use b64::{process_decode, process_encode, Base64Error, Base64Format};
pub use cli::{
    check_dir, check_file, check_input_file, parse_base64_format, parse_format,
    parse_text_sign_format, verify_file, verify_input_file, verify_path, CsvOpts, Opts,
    OutputFormat, Subcommand,
};
pub use text::{
    key_bundle_from_seed, process_text_generate, process_text_sign, process_text_verify, Blake3,
    Ed25519Signer, Ed25519Verifier, KeyArtifact, KeyFormatError, TextError, TextSignFormat,
    TextSigner, TextVerifier,
};
