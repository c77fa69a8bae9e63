pub mod bip39;
pub mod cipher;
pub mod client;
pub mod config;
pub mod error;
pub mod format;
pub mod laws;
pub mod meta;
pub mod pipe;
pub mod range;
pub mod reader;
pub mod responses;
pub mod server;
pub mod stream;
pub mod tar_hash;
pub mod tar_password;
pub mod text;
pub mod writer;
