//! Decryption primitives used by the SteamStub unpackers.
pub mod aes;
pub mod xtea;

pub use self::aes::{AesHelper, CipherMode};
pub use xtea::{steam_drmp_decrypt_pass1, steam_drmp_decrypt_pass2, steam_xor};
