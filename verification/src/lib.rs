//! SteamStub DRM unpacking engine: PE image parsing, the SteamStub
//! decryption primitives, byte-pattern scanning and the unpacker plugins.

pub mod bytes;
pub mod crypto;
pub mod pattern;
pub mod pe;
pub mod text;
pub mod unpackers;

