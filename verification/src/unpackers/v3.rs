//! Unpacking of SteamStub variants 3.0 and 3.1 (x86 and x64).
use crate::bytes::{le32, le64};
use crate::crypto::aes::{aes256_decrypt_block, spec_aes_decrypt, AesHelper, CipherMode};
use crate::crypto::xtea::spec_steam_xor;
use crate::pe::file32::{Pe32File, Pe32Section};
use crate::pe::file64::Pe64File;
use crate::pe::sections::{
    geometries, lemma_rva_index_found, rva_file_offset, rva_lookup_defined, rva_lookup_is_defined,
    rva_not_found_message, rva_section_index, rva_section_index_exec, rva_to_file_offset, va_to_rva,
    SectionGeometry,
};
use crate::pe::{
    copy_into, rebuild_defined, rebuild_image, rebuild_is_defined, rebuilt_image, zero_vec, zeros,
};
use crate::text::{hex8, push_hex8};
use crate::unpackers::headers::{
    le32_words, SteamStub32Var30Header, SteamStub32Var31Header, SteamStub64Var30Header,
    SteamStub64Var31Header,
};
use crate::unpackers::stub::{
    decrypt_stub_payloads, read_stub_header, stub_drmp, stub_payload, stub_payloads_are_defined,
    stub_payloads_defined, stub_window,
};
use crate::unpackers::UnpackedImage;
use vstd::prelude::*;

verus! {

/// Which SteamStub 3.x header layout a plugin reads.
#[derive(Debug, Clone, Copy, PartialEq, Eq, Structural)]
pub enum V3HeaderKind {
    Var30x86,
    Var30x64,
    Var31x86,
    Var31x64,
}

/// The fields of a SteamStub 3.x header that unpacking uses.
pub struct V3HeaderFields {
    pub header_size: usize,
    pub signature: u32,
    pub original_entry_point: u64,
    pub bind_section_offset: u32,
    pub payload_size: u32,
    pub drmp_dll_offset: u32,
    pub drmp_dll_size: u32,
    pub steam_app_id: u32,
    pub flags: u32,
    pub code_section_virtual_address: u64,
    pub aes_key: [u8; 32],
    pub aes_iv: [u8; 16],
    pub code_section_stolen_data: [u8; 16],
    pub encryption_keys: [u32; 4],
}

/// The size of the header of layout `kind`, which the plugin takes from
/// the end of the decoded stub window.
pub open spec fn v3_header_size(kind: V3HeaderKind) -> int {
    match kind {
        V3HeaderKind::Var30x86 => 0xB0,
        V3HeaderKind::Var30x64 => 0xD0,
        V3HeaderKind::Var31x86 => 0xE8,
        V3HeaderKind::Var31x64 => 0xF0,
    }
}

/// The layout is the 64-bit one.
pub open spec fn v3_is64(kind: V3HeaderKind) -> bool {
    kind is Var30x64 || kind is Var31x64
}

/// The error of a window too small for the header.
pub open spec fn v3_too_small_message(kind: V3HeaderKind) -> Seq<char> {
    match kind {
        V3HeaderKind::Var30x86 => "Data too small for SteamStub32Var30Header"@,
        V3HeaderKind::Var30x64 => "Data too small for SteamStub64Var30Header"@,
        V3HeaderKind::Var31x86 => "Data too small for SteamStub32Var31Header"@,
        V3HeaderKind::Var31x64 => "Data too small for SteamStub64Var31Header"@,
    }
}

/// Reading the header from the decoded window `d` fails when `d` is
/// shorter than the header.
pub open spec fn v3_fields_error(kind: V3HeaderKind, d: Seq<u8>) -> Option<Seq<char>> {
    if d.len() < v3_header_size(kind) {
        Some(v3_too_small_message(kind))
    } else {
        None
    }
}

/// The header bytes at the end of the decoded window `d`.
pub open spec fn v3_hdr(kind: V3HeaderKind, d: Seq<u8>) -> Seq<u8> {
    d.skip(d.len() - v3_header_size(kind))
}

/// The `u32` header field at `off32` (x86 layout) or `off64` (x64 layout).
pub open spec fn v3_word(kind: V3HeaderKind, d: Seq<u8>, off32: int, off64: int) -> u32 {
    le32(
        v3_hdr(kind, d),
        if v3_is64(kind) {
            off64
        } else {
            off32
        },
    )
}

/// A pointer-sized header field, widened to 64 bits.
pub open spec fn v3_addr(kind: V3HeaderKind, d: Seq<u8>, off32: int, off64: int) -> u64 {
    if v3_is64(kind) {
        le64(v3_hdr(kind, d), off64)
    } else {
        le32(v3_hdr(kind, d), off32) as u64
    }
}

/// Header bytes `[off32, off32 + n)` or `[off64, off64 + n)`.
pub open spec fn v3_bytes(kind: V3HeaderKind, d: Seq<u8>, off32: int, off64: int, n: int) -> Seq<u8> {
    let off = if v3_is64(kind) {
        off64
    } else {
        off32
    };
    v3_hdr(kind, d).subrange(off, off + n)
}

pub open spec fn v3_signature(kind: V3HeaderKind, d: Seq<u8>) -> u32 {
    v3_word(kind, d, 4, 4)
}

pub open spec fn v3_original_entry_point(kind: V3HeaderKind, d: Seq<u8>) -> u64 {
    v3_addr(kind, d, 28, 32)
}

pub open spec fn v3_bind_section_offset(kind: V3HeaderKind, d: Seq<u8>) -> u32 {
    v3_word(kind, d, 20, 24)
}

pub open spec fn v3_payload_size(kind: V3HeaderKind, d: Seq<u8>) -> u32 {
    v3_word(kind, d, 36, 44)
}

pub open spec fn v3_drmp_dll_offset(kind: V3HeaderKind, d: Seq<u8>) -> u32 {
    v3_word(kind, d, 40, 48)
}

pub open spec fn v3_drmp_dll_size(kind: V3HeaderKind, d: Seq<u8>) -> u32 {
    v3_word(kind, d, 44, 52)
}

pub open spec fn v3_steam_app_id(kind: V3HeaderKind, d: Seq<u8>) -> u32 {
    v3_word(kind, d, 48, 56)
}

pub open spec fn v3_flags(kind: V3HeaderKind, d: Seq<u8>) -> u32 {
    v3_word(kind, d, 52, 60)
}

pub open spec fn v3_code_section_va(kind: V3HeaderKind, d: Seq<u8>) -> u64 {
    v3_addr(kind, d, 64, 72)
}

pub open spec fn v3_aes_key(kind: V3HeaderKind, d: Seq<u8>) -> Seq<u8> {
    v3_bytes(kind, d, 72, 88, 32)
}

pub open spec fn v3_aes_iv(kind: V3HeaderKind, d: Seq<u8>) -> Seq<u8> {
    v3_bytes(kind, d, 104, 120, 16)
}

pub open spec fn v3_stolen_data(kind: V3HeaderKind, d: Seq<u8>) -> Seq<u8> {
    v3_bytes(kind, d, 120, 136, 16)
}

pub open spec fn v3_encryption_keys(kind: V3HeaderKind, d: Seq<u8>) -> Seq<u32> {
    le32_words(
        v3_hdr(kind, d),
        if v3_is64(kind) {
            152
        } else {
            136
        },
        4,
    )
}

impl V3HeaderFields {
    /// `self` holds the header fields read from the decoded window `d`.
    pub open spec fn parsed_v3(self, kind: V3HeaderKind, d: Seq<u8>) -> bool {
        &&& self.header_size == v3_header_size(kind)
        &&& self.signature == v3_signature(kind, d)
        &&& self.original_entry_point == v3_original_entry_point(kind, d)
        &&& self.bind_section_offset == v3_bind_section_offset(kind, d)
        &&& self.payload_size == v3_payload_size(kind, d)
        &&& self.drmp_dll_offset == v3_drmp_dll_offset(kind, d)
        &&& self.drmp_dll_size == v3_drmp_dll_size(kind, d)
        &&& self.steam_app_id == v3_steam_app_id(kind, d)
        &&& self.flags == v3_flags(kind, d)
        &&& self.code_section_virtual_address == v3_code_section_va(kind, d)
        &&& self.aes_key@ == v3_aes_key(kind, d)
        &&& self.aes_iv@ == v3_aes_iv(kind, d)
        &&& self.code_section_stolen_data@ == v3_stolen_data(kind, d)
        &&& self.encryption_keys@ == v3_encryption_keys(kind, d)
    }
}

/// Reads the header of layout `kind` from the end of the decoded window.
pub fn parse_v3_fields(kind: V3HeaderKind, data: &[u8]) -> (r: Result<V3HeaderFields, String>)
    ensures
        match r {
            Ok(f) => v3_fields_error(kind, data@) is None && f.parsed_v3(kind, data@),
            Err(e) => v3_fields_error(kind, data@) == Some(e@),
        },
{
    let len = data.len();
    match kind {
        V3HeaderKind::Var30x86 => {
            if len < 0xB0 {
                return Err("Data too small for SteamStub32Var30Header".to_owned());
            }
            let window = vstd::slice::slice_subrange(data, len - 0xB0, len);
            assert(window@ =~= v3_hdr(kind, data@));
            match SteamStub32Var30Header::parse(window) {
                Ok(h) => Ok(
                    V3HeaderFields {
                        header_size: 0xB0,
                        signature: h.signature,
                        original_entry_point: h.original_entry_point as u64,
                        bind_section_offset: h.bind_section_offset,
                        payload_size: h.payload_size,
                        drmp_dll_offset: h.drmp_dll_offset,
                        drmp_dll_size: h.drmp_dll_size,
                        steam_app_id: h.steam_app_id,
                        flags: h.flags,
                        code_section_virtual_address: h.code_section_virtual_address as u64,
                        aes_key: h.aes_key,
                        aes_iv: h.aes_iv,
                        code_section_stolen_data: h.code_section_stolen_data,
                        encryption_keys: h.encryption_keys,
                    },
                ),
                Err(e) => Err(e),
            }
        },
        V3HeaderKind::Var30x64 => {
            if len < 0xD0 {
                return Err("Data too small for SteamStub64Var30Header".to_owned());
            }
            let window = vstd::slice::slice_subrange(data, len - 0xD0, len);
            assert(window@ =~= v3_hdr(kind, data@));
            match SteamStub64Var30Header::parse(window) {
                Ok(h) => Ok(
                    V3HeaderFields {
                        header_size: 0xD0,
                        signature: h.signature,
                        original_entry_point: h.original_entry_point,
                        bind_section_offset: h.bind_section_offset,
                        payload_size: h.payload_size,
                        drmp_dll_offset: h.drmp_dll_offset,
                        drmp_dll_size: h.drmp_dll_size,
                        steam_app_id: h.steam_app_id,
                        flags: h.flags,
                        code_section_virtual_address: h.code_section_virtual_address,
                        aes_key: h.aes_key,
                        aes_iv: h.aes_iv,
                        code_section_stolen_data: h.code_section_stolen_data,
                        encryption_keys: h.encryption_keys,
                    },
                ),
                Err(e) => Err(e),
            }
        },
        V3HeaderKind::Var31x86 => {
            if len < 0xE8 {
                return Err("Data too small for SteamStub32Var31Header".to_owned());
            }
            let window = vstd::slice::slice_subrange(data, len - 0xE8, len);
            assert(window@ =~= v3_hdr(kind, data@));
            match SteamStub32Var31Header::parse(window) {
                Ok(h) => Ok(
                    V3HeaderFields {
                        header_size: 0xE8,
                        signature: h.signature,
                        original_entry_point: h.original_entry_point as u64,
                        bind_section_offset: h.bind_section_offset,
                        payload_size: h.payload_size,
                        drmp_dll_offset: h.drmp_dll_offset,
                        drmp_dll_size: h.drmp_dll_size,
                        steam_app_id: h.steam_app_id,
                        flags: h.flags,
                        code_section_virtual_address: h.code_section_virtual_address as u64,
                        aes_key: h.aes_key,
                        aes_iv: h.aes_iv,
                        code_section_stolen_data: h.code_section_stolen_data,
                        encryption_keys: h.encryption_keys,
                    },
                ),
                Err(e) => Err(e),
            }
        },
        V3HeaderKind::Var31x64 => {
            if len < 0xF0 {
                return Err("Data too small for SteamStub64Var31Header".to_owned());
            }
            let window = vstd::slice::slice_subrange(data, len - 0xF0, len);
            assert(window@ =~= v3_hdr(kind, data@));
            match SteamStub64Var31Header::parse(window) {
                Ok(h) => Ok(
                    V3HeaderFields {
                        header_size: 0xF0,
                        signature: h.signature,
                        original_entry_point: h.original_entry_point,
                        bind_section_offset: h.bind_section_offset,
                        payload_size: h.payload_size,
                        drmp_dll_offset: h.drmp_dll_offset,
                        drmp_dll_size: h.drmp_dll_size,
                        steam_app_id: h.steam_app_id,
                        flags: h.flags,
                        code_section_virtual_address: h.code_section_virtual_address,
                        aes_key: h.aes_key,
                        aes_iv: h.aes_iv,
                        code_section_stolen_data: h.code_section_stolen_data,
                        encryption_keys: h.encryption_keys,
                    },
                ),
                Err(e) => Err(e),
            }
        },
    }
}

/// The two stub header signatures.
pub open spec fn signature_valid(sig: u32) -> bool {
    sig == 0xC0DEC0DF || sig == 0xC0DEC0DE
}

/// The error of a bad signature at the entry point.
pub open spec fn bad_signature_message(sig: u32) -> Seq<char> {
    "Invalid SteamStub DRM header signature: 0x"@ + hex8(sig)
}

/// The error of a bad signature in front of the first TLS callback.
pub open spec fn bad_tls_signature_message(sig: u32) -> Seq<char> {
    "Invalid SteamStub DRM header signature (TLS fallback): 0x"@ + hex8(sig)
}

/// `va` as an RVA of an image with base `image_base`: with 64-bit
/// arithmetic for PE32+, with 32-bit arithmetic (both truncated first)
/// for PE32.
pub open spec fn image_rva(is_pe64: bool, va: u64, image_base: u64) -> u32 {
    if is_pe64 {
        va_to_rva(va, image_base)
    } else {
        let v = va as u32;
        let b = image_base as u32;
        if v >= b {
            (v - b) as u32
        } else {
            v
        }
    }
}

fn image_rva_exec(is_pe64: bool, va: u64, image_base: u64) -> (r: u32)
    ensures
        r == image_rva(is_pe64, va, image_base),
{
    if is_pe64 {
        if va >= image_base {
            (va - image_base) as u32
        } else {
            va as u32
        }
    } else {
        let v = va as u32;
        let b = image_base as u32;
        if v >= b {
            v - b
        } else {
            v
        }
    }
}

/// Finding the stub header: the decoded 0x100-byte window in front of the
/// entry point, or, when its signature is wrong, the one in front of the
/// first TLS callback; with the XOR chaining key and the RVA that the
/// header was found at.
pub open spec fn v3_locate(
    kind: V3HeaderKind,
    d: Seq<u8>,
    secs: Seq<SectionGeometry>,
    ep: u32,
    image_base: u64,
    is_pe64: bool,
    tls: Seq<u64>,
) -> Result<(Seq<u8>, u32, u32), Seq<char>> {
    match rva_file_offset(secs, ep) {
        None => Err(rva_not_found_message(ep)),
        Some(off) => {
            let (dec, key) = spec_steam_xor(stub_window(d, off, 0x100), 0);
            match v3_fields_error(kind, dec) {
                Some(e) => Err(e),
                None => if signature_valid(v3_signature(kind, dec)) {
                    Ok((dec, key, ep))
                } else if tls.len() == 0 {
                    Err(bad_signature_message(v3_signature(kind, dec)))
                } else {
                    let trva = image_rva(is_pe64, tls[0], image_base);
                    match rva_file_offset(secs, trva) {
                        None => Err(rva_not_found_message(trva)),
                        Some(toff) => {
                            let (dec2, key2) = spec_steam_xor(stub_window(d, toff, 0x100), 0);
                            match v3_fields_error(kind, dec2) {
                                Some(e) => Err(e),
                                None => if signature_valid(v3_signature(kind, dec2)) {
                                    Ok((dec2, key2, trva))
                                } else {
                                    Err(bad_tls_signature_message(v3_signature(kind, dec2)))
                                },
                            }
                        },
                    }
                },
            }
        },
    }
}

/// Finding the stub header is defined: the RVA translations are, and the
/// windows end within the image.
pub open spec fn v3_locate_defined(
    kind: V3HeaderKind,
    d: Seq<u8>,
    secs: Seq<SectionGeometry>,
    ep: u32,
    image_base: u64,
    is_pe64: bool,
    tls: Seq<u64>,
) -> bool {
    &&& rva_lookup_defined(secs, ep, 0)
    &&& rva_file_offset(secs, ep) matches Some(off) ==> {
        &&& off <= d.len()
        &&& ({
            let dec = spec_steam_xor(stub_window(d, off, 0x100), 0).0;
            let trva = image_rva(is_pe64, tls[0], image_base);
            v3_fields_error(kind, dec) is None && !signature_valid(v3_signature(kind, dec))
                && tls.len() > 0 ==> {
                &&& rva_lookup_defined(secs, trva, 0)
                &&& rva_file_offset(secs, trva) matches Some(t) ==> t <= d.len()
            }
        })
    }
}

fn bad_signature(prefix: &str, sig: u32) -> (r: String)
    ensures
        r@ == prefix@ + hex8(sig),
{
    let mut msg = prefix.to_owned();
    push_hex8(&mut msg, sig);
    msg
}

/// Finds and reads the stub header (see `v3_locate`).
fn locate_v3_header(
    raw: &[u8],
    sections: &Vec<Pe32Section>,
    entry_point: u32,
    image_base: u64,
    is_pe64: bool,
    tls_callbacks: &Vec<u64>,
    kind: V3HeaderKind,
) -> (r: Result<(V3HeaderFields, u32, u32), String>)
    requires
        v3_locate_defined(
            kind,
            raw@,
            geometries(sections@),
            entry_point,
            image_base,
            is_pe64,
            tls_callbacks@,
        ),
    ensures
        match r {
            Ok((f, key, base)) => v3_locate(
                kind,
                raw@,
                geometries(sections@),
                entry_point,
                image_base,
                is_pe64,
                tls_callbacks@,
            ) matches Ok((dec, k, b)) && k == key && b == base && f.parsed_v3(kind, dec),
            Err(e) => v3_locate(
                kind,
                raw@,
                geometries(sections@),
                entry_point,
                image_base,
                is_pe64,
                tls_callbacks@,
            ) == Err::<(Seq<u8>, u32, u32), Seq<char>>(e@),
        },
{
    let ghost secs = geometries(sections@);
    proof {
        lemma_rva_index_found(secs, entry_point, 0);
    }
    let ep_file_offset = match rva_to_file_offset(sections, entry_point) {
        Ok(off) => off,
        Err(e) => return Err(e),
    };
    assert(rva_file_offset(secs, entry_point) == Some(ep_file_offset as int));
    let (header_bytes, xor_key) = read_stub_header(raw, ep_file_offset, 0x100);
    let fields = match parse_v3_fields(kind, header_bytes.as_slice()) {
        Ok(f) => f,
        Err(e) => return Err(e),
    };
    if fields.signature == 0xC0DEC0DF || fields.signature == 0xC0DEC0DE {
        return Ok((fields, xor_key, entry_point));
    }
    if tls_callbacks.len() == 0 {
        return Err(bad_signature("Invalid SteamStub DRM header signature: 0x", fields.signature));
    }
    let tls_rva = image_rva_exec(is_pe64, tls_callbacks[0], image_base);
    proof {
        lemma_rva_index_found(secs, tls_rva, 0);
    }
    let tls_offset = match rva_to_file_offset(sections, tls_rva) {
        Ok(off) => off,
        Err(e) => return Err(e),
    };
    assert(rva_file_offset(secs, tls_rva) == Some(tls_offset as int));
    let (header_bytes2, xor_key2) = read_stub_header(raw, tls_offset, 0x100);
    let fields2 = match parse_v3_fields(kind, header_bytes2.as_slice()) {
        Ok(f) => f,
        Err(e) => return Err(e),
    };
    if fields2.signature != 0xC0DEC0DF && fields2.signature != 0xC0DEC0DE {
        return Err(
            bad_signature(
                "Invalid SteamStub DRM header signature (TLS fallback): 0x",
                fields2.signature,
            ),
        );
    }
    Ok((fields2, xor_key2, tls_rva))
}

/// How many bytes of the code section's raw data, at `sfo` with `raw_size`
/// bytes, lie in an image of `len` bytes.
pub open spec fn code_copy_size(sfo: int, raw_size: int, len: int) -> int {
    if sfo + raw_size <= len {
        raw_size
    } else if sfo <= len {
        len - sfo
    } else {
        0
    }
}

/// The encrypted code: the stolen bytes from the header, then the code
/// section's raw data as far as it lies in the image, padded with zeros
/// to `raw_size` bytes.
pub open spec fn v3_code_input(stolen: Seq<u8>, d: Seq<u8>, sfo: int, raw_size: int) -> Seq<u8> {
    let c = code_copy_size(sfo, raw_size, d.len() as int);
    stolen + d.subrange(sfo, sfo + c) + zeros((raw_size - c) as nat)
}

/// The index of the code section and its decrypted contents: none when
/// the header's flags say the code is not encrypted or no section holds
/// the code address; no contents when that section has no raw data;
/// otherwise the first `raw_size` bytes of the AES-256-CBC decryption
/// (key from the header, IV the header's IV decrypted with that key) of
/// the encrypted code.
pub open spec fn v3_code(
    kind: V3HeaderKind,
    dec: Seq<u8>,
    d: Seq<u8>,
    secs: Seq<SectionGeometry>,
    image_base: u64,
    is_pe64: bool,
) -> Result<(Option<usize>, Option<Seq<u8>>), Seq<char>> {
    if v3_flags(kind, dec) & 1 != 0 {
        Ok((None, None))
    } else {
        match rva_section_index(
            secs,
            image_rva(is_pe64, v3_code_section_va(kind, dec), image_base),
        ) {
            None => Ok((None, None)),
            Some(idx) => {
                let rs = secs[idx].size_of_raw_data as int;
                let va = secs[idx].virtual_address;
                if rs == 0 {
                    Ok((Some(idx as usize), None))
                } else {
                    match rva_file_offset(secs, va) {
                        None => Err(rva_not_found_message(va)),
                        Some(sfo) => {
                            let key = v3_aes_key(kind, dec);
                            let iv = aes256_decrypt_block(key, v3_aes_iv(kind, dec));
                            let code = v3_code_input(v3_stolen_data(kind, dec), d, sfo, rs);
                            Ok(
                                (
                                    Some(idx as usize),
                                    Some(spec_aes_decrypt(key, iv, code, CipherMode::CBC).take(rs)),
                                ),
                            )
                        },
                    }
                }
            },
        }
    }
}

/// Decrypting the code section is defined: the section lookups are, the
/// section's data starts within the image and its buffer size fits.
pub open spec fn v3_code_defined(
    kind: V3HeaderKind,
    dec: Seq<u8>,
    d: Seq<u8>,
    secs: Seq<SectionGeometry>,
    image_base: u64,
    is_pe64: bool,
) -> bool {
    let code_rva = image_rva(is_pe64, v3_code_section_va(kind, dec), image_base);
    v3_flags(kind, dec) & 1 == 0 ==> {
        &&& rva_lookup_defined(secs, code_rva, 0)
        &&& rva_section_index(secs, code_rva) matches Some(idx) ==> ({
            let rs = secs[idx].size_of_raw_data as int;
            let va = secs[idx].virtual_address;
            rs > 0 ==> {
                &&& rva_lookup_defined(secs, va, rs)
                &&& rva_file_offset(secs, va) matches Some(sfo) ==> sfo <= d.len()
                &&& rs + 16 <= usize::MAX
            }
        })
    }
}

/// Decrypts the code section (see `v3_code`).
#[verifier::rlimit(40)]
fn decrypt_v3_code(
    raw: &[u8],
    sections: &Vec<Pe32Section>,
    image_base: u64,
    is_pe64: bool,
    f: &V3HeaderFields,
    Ghost(kind): Ghost<V3HeaderKind>,
    Ghost(dec): Ghost<Seq<u8>>,
) -> (r: Result<(Option<usize>, Option<Vec<u8>>), String>)
    requires
        f.parsed_v3(kind, dec),
        v3_code_defined(kind, dec, raw@, geometries(sections@), image_base, is_pe64),
    ensures
        match r {
            Ok((idx, Some(c))) => v3_code(kind, dec, raw@, geometries(sections@), image_base, is_pe64)
                == Ok::<(Option<usize>, Option<Seq<u8>>), Seq<char>>((idx, Some(c@))),
            Ok((idx, None)) => v3_code(kind, dec, raw@, geometries(sections@), image_base, is_pe64)
                == Ok::<(Option<usize>, Option<Seq<u8>>), Seq<char>>((idx, None)),
            Err(e) => v3_code(kind, dec, raw@, geometries(sections@), image_base, is_pe64) == Err::<
                (Option<usize>, Option<Seq<u8>>),
                Seq<char>,
            >(e@),
        },
{
    let ghost secs = geometries(sections@);
    if (f.flags & 1) != 0 {
        return Ok((None, None));
    }
    let code_rva = image_rva_exec(is_pe64, f.code_section_virtual_address, image_base);
    let idx = match rva_section_index_exec(sections, code_rva) {
        Some(i) => i,
        None => return Ok((None, None)),
    };
    let sec = &sections[idx];
    assert(secs[idx as int] == crate::pe::sections::geometry_of(sec.header));
    let raw_size = sec.header.size_of_raw_data as usize;
    if raw_size == 0 {
        return Ok((Some(idx), None));
    }
    proof {
        lemma_rva_index_found(secs, sec.header.virtual_address, 0);
    }
    let sec_file_offset = match rva_to_file_offset(sections, sec.header.virtual_address) {
        Ok(off) => off,
        Err(e) => return Err(e),
    };
    assert(rva_file_offset(secs, sec.header.virtual_address) == Some(sec_file_offset as int));
    let len = raw.len();
    let stolen_len: usize = 16;
    let mut code_data = zero_vec(raw_size + stolen_len);
    copy_into(code_data.as_mut_slice(), 0, f.code_section_stolen_data.as_slice(), stolen_len);
    let sec_end = if sec_file_offset + raw_size < len {
        sec_file_offset + raw_size
    } else {
        len
    };
    let copy_size = if sec_end >= sec_file_offset {
        sec_end - sec_file_offset
    } else {
        0
    };
    let src = vstd::slice::slice_subrange(raw, sec_file_offset, sec_file_offset + copy_size);
    copy_into(code_data.as_mut_slice(), stolen_len, src, copy_size);
    proof {
        let stolen = v3_stolen_data(kind, dec);
        assert(copy_size == code_copy_size(
            sec_file_offset as int,
            raw_size as int,
            len as int,
        ));
        assert(code_data@ =~= v3_code_input(stolen, raw@, sec_file_offset as int, raw_size as int));
    }
    let mut aes = AesHelper::new(f.aes_key.as_slice(), f.aes_iv.as_slice(), CipherMode::CBC);
    aes.rebuild_iv(f.aes_iv.as_slice());
    let decrypted = aes.decrypt(code_data.as_slice(), CipherMode::CBC);
    proof {
        crate::crypto::aes::law_aes_decrypt_length(aes.key@, aes.iv@, code_data@, CipherMode::CBC);
        assert(aes.key@.take(32) =~= aes.key@);
        assert(f.aes_iv@.take(16) =~= f.aes_iv@);
    }
    let out = vstd::slice::slice_to_vec(vstd::slice::slice_subrange(decrypted.as_slice(), 0, raw_size));
    assert(out@ =~= decrypted@.take(raw_size as int));
    Ok((Some(idx), Some(out)))
}

/// `a - b`, or 0 when `b > a`.
pub open spec fn saturating_sub32(a: u32, b: u32) -> u32 {
    if a >= b {
        (a - b) as u32
    } else {
        0
    }
}

/// The result of unpacking a 3.x image: the rebuilt image (entry point
/// set to the header's original entry point, code section replaced by its
/// decryption, `.bind` stripped, checksum recomputed), the original entry
/// point and the Steam application id; or the first error.
pub open spec fn spec_unpack_v3(
    kind: V3HeaderKind,
    d: Seq<u8>,
    psecs: Seq<Pe32Section>,
    lfanew: int,
    soh: int,
    ep: u32,
    image_base: u64,
    is_pe64: bool,
    tls: Seq<u64>,
) -> Result<(Seq<u8>, u64, u32), Seq<char>> {
    let secs = geometries(psecs);
    match v3_locate(kind, d, secs, ep, image_base, is_pe64, tls) {
        Err(e) => Err(e),
        Ok((dec, key, base)) => match v3_code(kind, dec, d, secs, image_base, is_pe64) {
            Err(e) => Err(e),
            Ok((idx, code)) => {
                let oep = v3_original_entry_point(kind, dec);
                Ok(
                    (
                        rebuilt_image(
                            d,
                            lfanew,
                            soh,
                            psecs,
                            image_rva(is_pe64, oep, image_base),
                            idx,
                            code,
                            true,
                        ),
                        oep,
                        v3_steam_app_id(kind, dec),
                    ),
                )
            },
        },
    }
}

/// The decoded stub payload of a 3.x image (see `stub_payload`).
pub open spec fn spec_v3_payload(
    kind: V3HeaderKind,
    d: Seq<u8>,
    secs: Seq<SectionGeometry>,
    ep: u32,
    image_base: u64,
    is_pe64: bool,
    tls: Seq<u64>,
) -> Option<Seq<u8>> {
    match v3_locate(kind, d, secs, ep, image_base, is_pe64, tls) {
        Ok((dec, key, base)) => stub_payload(
            d,
            secs,
            saturating_sub32(base, v3_bind_section_offset(kind, dec)),
            v3_payload_size(kind, dec),
            key,
        ),
        Err(_) => None,
    }
}

/// The decoded SteamDRMP module of a 3.x image (see `stub_drmp`).
pub open spec fn spec_v3_drmp(
    kind: V3HeaderKind,
    d: Seq<u8>,
    secs: Seq<SectionGeometry>,
    ep: u32,
    image_base: u64,
    is_pe64: bool,
    tls: Seq<u64>,
) -> Option<Seq<u8>> {
    match v3_locate(kind, d, secs, ep, image_base, is_pe64, tls) {
        Ok((dec, key, base)) => stub_drmp(
            d,
            secs,
            saturating_sub32(base, v3_bind_section_offset(kind, dec)),
            v3_drmp_dll_offset(kind, dec),
            v3_drmp_dll_size(kind, dec),
            v3_encryption_keys(kind, dec),
        ),
        Err(_) => None,
    }
}

/// Unpacking a 3.x image is defined: each step is.
pub open spec fn unpack_v3_defined(
    kind: V3HeaderKind,
    d: Seq<u8>,
    psecs: Seq<Pe32Section>,
    lfanew: int,
    soh: int,
    ep: u32,
    image_base: u64,
    is_pe64: bool,
    tls: Seq<u64>,
) -> bool {
    let secs = geometries(psecs);
    &&& v3_locate_defined(kind, d, secs, ep, image_base, is_pe64, tls)
    &&& v3_locate(kind, d, secs, ep, image_base, is_pe64, tls) matches Ok((dec, key, base)) ==> {
        &&& stub_payloads_defined(
            secs,
            saturating_sub32(base, v3_bind_section_offset(kind, dec)),
            v3_payload_size(kind, dec),
            v3_drmp_dll_offset(kind, dec),
            v3_drmp_dll_size(kind, dec),
        )
        &&& v3_code_defined(kind, dec, d, secs, image_base, is_pe64)
        &&& v3_code(kind, dec, d, secs, image_base, is_pe64) is Ok ==> rebuild_defined(
            d,
            lfanew,
            soh,
            psecs,
            true,
        )
    }
}

/// The view of an optional byte vector.
pub open spec fn opt_vec(o: Option<Vec<u8>>) -> Option<Seq<u8>> {
    match o {
        Some(v) => Some(v@),
        None => None,
    }
}

/// `r` is what unpacking a 3.x image gives.
pub open spec fn unpack_v3_result(
    r: Result<UnpackedImage, String>,
    kind: V3HeaderKind,
    d: Seq<u8>,
    psecs: Seq<Pe32Section>,
    lfanew: int,
    soh: int,
    ep: u32,
    image_base: u64,
    is_pe64: bool,
    tls: Seq<u64>,
) -> bool {
    let secs = geometries(psecs);
    match r {
        Ok(u) => {
            &&& spec_unpack_v3(kind, d, psecs, lfanew, soh, ep, image_base, is_pe64, tls) == Ok::<
                (Seq<u8>, u64, u32),
                Seq<char>,
            >((u.data@, u.original_entry_point, u.steam_app_id))
            &&& opt_vec(u.payload) == spec_v3_payload(kind, d, secs, ep, image_base, is_pe64, tls)
            &&& opt_vec(u.drmp_dll) == spec_v3_drmp(kind, d, secs, ep, image_base, is_pe64, tls)
        },
        Err(e) => spec_unpack_v3(kind, d, psecs, lfanew, soh, ep, image_base, is_pe64, tls) == Err::<
            (Seq<u8>, u64, u32),
            Seq<char>,
        >(e@),
    }
}

/// Unpacks a 3.x image given by its parts.
fn unpack_v3_image(
    raw: &[u8],
    sections: &Vec<Pe32Section>,
    lfanew: usize,
    soh: u16,
    entry_point: u32,
    image_base: u64,
    is_pe64: bool,
    tls_callbacks: &Vec<u64>,
    kind: V3HeaderKind,
) -> (r: Result<UnpackedImage, String>)
    requires
        unpack_v3_defined(
            kind,
            raw@,
            sections@,
            lfanew as int,
            soh as int,
            entry_point,
            image_base,
            is_pe64,
            tls_callbacks@,
        ),
    ensures
        unpack_v3_result(
            r,
            kind,
            raw@,
            sections@,
            lfanew as int,
            soh as int,
            entry_point,
            image_base,
            is_pe64,
            tls_callbacks@,
        ),
{
    let ghost secs = geometries(sections@);
    let (fields, xor_key, base_rva) = match locate_v3_header(
        raw,
        sections,
        entry_point,
        image_base,
        is_pe64,
        tls_callbacks,
        kind,
    ) {
        Ok(v) => v,
        Err(e) => return Err(e),
    };
    let ghost dec = match v3_locate(kind, raw@, secs, entry_point, image_base, is_pe64, tls_callbacks@) {
        Ok((dec, _, _)) => dec,
        Err(_) => Seq::empty(),
    };
    let payload_rva = if base_rva >= fields.bind_section_offset {
        base_rva - fields.bind_section_offset
    } else {
        0
    };
    let (payload, drmp_dll) = decrypt_stub_payloads(
        raw,
        sections,
        payload_rva,
        fields.payload_size,
        fields.drmp_dll_offset,
        fields.drmp_dll_size,
        xor_key,
        &fields.encryption_keys,
    );
    let (code_sec_idx, decrypted_code) = match decrypt_v3_code(
        raw,
        sections,
        image_base,
        is_pe64,
        &fields,
        Ghost(kind),
        Ghost(dec),
    ) {
        Ok(v) => v,
        Err(e) => return Err(e),
    };
    let new_entry_point = image_rva_exec(is_pe64, fields.original_entry_point, image_base);
    let code_ref: Option<&[u8]> = match &decrypted_code {
        Some(c) => Some(c.as_slice()),
        None => None,
    };
    let data = rebuild_image(
        raw,
        lfanew,
        soh,
        sections,
        new_entry_point,
        code_sec_idx,
        code_ref,
        true,
    );
    proof {
        assert(crate::pe::opt_bytes(code_ref) == opt_vec(decrypted_code));
    }
    Ok(
        UnpackedImage {
            data,
            original_entry_point: fields.original_entry_point,
            steam_app_id: fields.steam_app_id,
            payload,
            drmp_dll,
        },
    )
}

/// Whether decrypting the code section is defined (see
/// `v3_code_defined`); when it is, whether the decryption succeeds.
fn v3_code_is_defined(
    raw: &[u8],
    sections: &Vec<Pe32Section>,
    image_base: u64,
    is_pe64: bool,
    f: &V3HeaderFields,
    Ghost(kind): Ghost<V3HeaderKind>,
    Ghost(dec): Ghost<Seq<u8>>,
) -> (r: (bool, bool))
    requires
        f.parsed_v3(kind, dec),
    ensures
        r.0 == v3_code_defined(kind, dec, raw@, geometries(sections@), image_base, is_pe64),
        r.0 ==> r.1 == v3_code(kind, dec, raw@, geometries(sections@), image_base, is_pe64) is Ok,
{
    let ghost secs = geometries(sections@);
    if (f.flags & 1) != 0 {
        return (true, true);
    }
    let code_rva = image_rva_exec(is_pe64, f.code_section_virtual_address, image_base);
    if !rva_lookup_is_defined(sections, code_rva, 0) {
        return (false, false);
    }
    let idx = match rva_section_index_exec(sections, code_rva) {
        Some(i) => i,
        None => return (true, true),
    };
    let h = &sections[idx].header;
    assert(secs[idx as int] == crate::pe::sections::geometry_of(*h));
    if h.size_of_raw_data == 0 {
        return (true, true);
    }
    if !rva_lookup_is_defined(sections, h.virtual_address, h.size_of_raw_data as usize) {
        return (false, false);
    }
    if h.size_of_raw_data as u64 + 16 > usize::MAX as u64 {
        return (false, false);
    }
    proof {
        lemma_rva_index_found(secs, h.virtual_address, 0);
    }
    match rva_to_file_offset(sections, h.virtual_address) {
        Ok(sfo) => (sfo <= raw.len(), true),
        Err(_) => (true, false),
    }
}

/// Whether unpacking a 3.x image given by its parts is defined (see
/// `unpack_v3_defined`).
fn unpack_v3_image_is_defined(
    raw: &[u8],
    sections: &Vec<Pe32Section>,
    lfanew: usize,
    soh: u16,
    entry_point: u32,
    image_base: u64,
    is_pe64: bool,
    tls_callbacks: &Vec<u64>,
    kind: V3HeaderKind,
) -> (r: bool)
    ensures
        r == unpack_v3_defined(
            kind,
            raw@,
            sections@,
            lfanew as int,
            soh as int,
            entry_point,
            image_base,
            is_pe64,
            tls_callbacks@,
        ),
{
    let ghost secs = geometries(sections@);
    if !rva_lookup_is_defined(sections, entry_point, 0) {
        return false;
    }
    proof {
        lemma_rva_index_found(secs, entry_point, 0);
    }
    let off = match rva_to_file_offset(sections, entry_point) {
        Ok(o) => o,
        Err(_) => return true,
    };
    if off > raw.len() {
        return false;
    }
    let (window, _) = read_stub_header(raw, off, 0x100);
    if let Ok(first) = parse_v3_fields(kind, window.as_slice()) {
        if first.signature != 0xC0DEC0DF && first.signature != 0xC0DEC0DE
            && tls_callbacks.len() > 0 {
            let tls_rva = image_rva_exec(is_pe64, tls_callbacks[0], image_base);
            if !rva_lookup_is_defined(sections, tls_rva, 0) {
                return false;
            }
            proof {
                lemma_rva_index_found(secs, tls_rva, 0);
            }
            if let Ok(t) = rva_to_file_offset(sections, tls_rva) {
                if t > raw.len() {
                    return false;
                }
            }
        }
    }
    let (fields, _, base_rva) = match locate_v3_header(
        raw,
        sections,
        entry_point,
        image_base,
        is_pe64,
        tls_callbacks,
        kind,
    ) {
        Ok(v) => v,
        Err(_) => return true,
    };
    let ghost dec = match v3_locate(kind, raw@, secs, entry_point, image_base, is_pe64, tls_callbacks@) {
        Ok((dec, _, _)) => dec,
        Err(_) => Seq::empty(),
    };
    let payload_rva = if base_rva >= fields.bind_section_offset {
        base_rva - fields.bind_section_offset
    } else {
        0
    };
    if !stub_payloads_are_defined(
        sections,
        payload_rva,
        fields.payload_size,
        fields.drmp_dll_offset,
        fields.drmp_dll_size,
    ) {
        return false;
    }
    let (code_ok, code_succeeds) = v3_code_is_defined(
        raw,
        sections,
        image_base,
        is_pe64,
        &fields,
        Ghost(kind),
        Ghost(dec),
    );
    if !code_ok {
        return false;
    }
    !code_succeeds || rebuild_is_defined(raw, lfanew, soh, sections, true)
}

/// Unpacking the PE32+ image `pe64` with layout `kind` is defined.
pub open spec fn pe64_unpack_v3_defined(pe64: Pe64File, kind: V3HeaderKind) -> bool {
    &&& pe64.dos_header.e_lfanew >= 0
    &&& unpack_v3_defined(
        kind,
        pe64.raw_data@,
        pe64.sections@,
        pe64.dos_header.e_lfanew as int,
        pe64.file_header.size_of_optional_header as int,
        pe64.entry_point,
        pe64.image_base,
        true,
        pe64.tls_callbacks@,
    )
}

/// Unpacks a SteamStub 3.x protected PE32+ image: finds the stub header
/// (falling back to the first TLS callback), decodes the payloads,
/// decrypts the code section and rebuilds the image.
pub fn unpack_v3_64(pe64: &Pe64File, kind: V3HeaderKind) -> (r: Result<UnpackedImage, String>)
    requires
        pe64_unpack_v3_defined(*pe64, kind),
    ensures
        unpack_v3_result(
            r,
            kind,
            pe64.raw_data@,
            pe64.sections@,
            pe64.dos_header.e_lfanew as int,
            pe64.file_header.size_of_optional_header as int,
            pe64.entry_point,
            pe64.image_base,
            true,
            pe64.tls_callbacks@,
        ),
{
    unpack_v3_image(
        pe64.raw_data.as_slice(),
        &pe64.sections,
        pe64.dos_header.e_lfanew as usize,
        pe64.file_header.size_of_optional_header,
        pe64.entry_point,
        pe64.image_base,
        true,
        &pe64.tls_callbacks,
        kind,
    )
}

/// Whether unpacking the PE32+ image `pe64` with layout `kind` is defined
/// (see `pe64_unpack_v3_defined`).
pub fn unpack_v3_64_is_defined(pe64: &Pe64File, kind: V3HeaderKind) -> (r: bool)
    ensures
        r == pe64_unpack_v3_defined(*pe64, kind),
{
    pe64.dos_header.e_lfanew >= 0 && unpack_v3_image_is_defined(
        pe64.raw_data.as_slice(),
        &pe64.sections,
        pe64.dos_header.e_lfanew as usize,
        pe64.file_header.size_of_optional_header,
        pe64.entry_point,
        pe64.image_base,
        true,
        &pe64.tls_callbacks,
        kind,
    )
}

/// Unpacking the PE32 image `pe32` with layout `kind` is defined.
pub open spec fn pe32_unpack_v3_defined(pe32: Pe32File, kind: V3HeaderKind) -> bool {
    &&& pe32.dos_header.e_lfanew >= 0
    &&& unpack_v3_defined(
        kind,
        pe32.raw_data@,
        pe32.sections@,
        pe32.dos_header.e_lfanew as int,
        pe32.file_header.size_of_optional_header as int,
        pe32.entry_point,
        pe32.image_base as u64,
        false,
        seq![],
    )
}

/// Unpacks a SteamStub 3.x protected PE32 image. PE32 images have no TLS
/// callback list here, so a bad signature at the entry point is final.
pub fn unpack_v3_32(pe32: &Pe32File, kind: V3HeaderKind) -> (r: Result<UnpackedImage, String>)
    requires
        pe32_unpack_v3_defined(*pe32, kind),
    ensures
        unpack_v3_result(
            r,
            kind,
            pe32.raw_data@,
            pe32.sections@,
            pe32.dos_header.e_lfanew as int,
            pe32.file_header.size_of_optional_header as int,
            pe32.entry_point,
            pe32.image_base as u64,
            false,
            seq![],
        ),
{
    let no_tls: Vec<u64> = Vec::new();
    assert(no_tls@ =~= Seq::<u64>::empty());
    unpack_v3_image(
        pe32.raw_data.as_slice(),
        &pe32.sections,
        pe32.dos_header.e_lfanew as usize,
        pe32.file_header.size_of_optional_header,
        pe32.entry_point,
        pe32.image_base as u64,
        false,
        &no_tls,
        kind,
    )
}

/// Whether unpacking the PE32 image `pe32` with layout `kind` is defined
/// (see `pe32_unpack_v3_defined`).
pub fn unpack_v3_32_is_defined(pe32: &Pe32File, kind: V3HeaderKind) -> (r: bool)
    ensures
        r == pe32_unpack_v3_defined(*pe32, kind),
{
    let no_tls: Vec<u64> = Vec::new();
    assert(no_tls@ =~= Seq::<u64>::empty());
    pe32.dos_header.e_lfanew >= 0 && unpack_v3_image_is_defined(
        pe32.raw_data.as_slice(),
        &pe32.sections,
        pe32.dos_header.e_lfanew as usize,
        pe32.file_header.size_of_optional_header,
        pe32.entry_point,
        pe32.image_base as u64,
        false,
        &no_tls,
        kind,
    )
}

} // verus!
