//! Command-line conveniences built around a verified text-signing core:
//! keyed-hash and Ed25519 signatures, key loading and generation, and a
//! URL-safe signature codec.

pub mod cli;
pub mod codec;
pub mod genpass;
pub mod primitives;
pub mod text;

pub use codec::{decode_signature, encode_signature};
pub use genpass::{gen_password, process_genpass, PassError};
pub use text::{
    Blake3, Ed25519Signer, Ed25519Verifier, KeyGenerator, KeyLoader, TextError, TextSign,
    TextSignFormat, TextVerify,
};
pub use cli::{
    check_dir_path, check_existing_name, check_input_name, parse_format, parse_text_sign_format, verify_file,
    verify_input_file, verify_path, CsvOpts, FormatError, GenPassOpts, HettpServeOpts,
    HttpSubCommand, Opts, OutputFormat, SubCommand, TextKeyGenerateOpts, TextSignOpts,
    TextSubCommand, TextVerifyOpts,
};
pub use text::{
    blake3_key_set, ed25519_key_set, process_generate, process_text_sign, process_text_verify,
};
