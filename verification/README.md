# steamless_core

A verified engine for removing the SteamStub DRM layer from Windows
executables, written in Verus.

- `src/` is the library, every function of it proved against its contract:
  - `bytes`: little-endian encodings over byte sequences;
  - `crypto`: the SteamStub XOR stream, the SteamDRMP XTEA passes and an
    AES-256 helper (block decryption through the `aes` and `cbc` crates);
  - `pattern`: the wildcard byte-pattern scanner;
  - `pe`: PE32 / PE32+ parsing, section lookup, RVA translation, the PE
    checksum and the rebuilding of an unpacked image;
  - `unpackers`: the stub headers, the seven variant plugins (1.0, 2.0, 2.1,
    3.0 and 3.1, x86 and x64) and the registry that picks one for an image.
- `tests/` runs the library on concrete images built in the tests.
- `app/` is the command-line front end and the C ABI: file input and
  output, printing, and the checks made before each library call.
