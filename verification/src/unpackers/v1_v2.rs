//! Unpacking of SteamStub variants 1.0, 2.0 and 2.1 (x86).
use crate::bytes::le32;
use crate::crypto::xtea::{law_steam_xor_length, spec_steam_xor, steam_xor};
use crate::pe::file32::{Pe32File, Pe32Section};
use crate::pe::sections::{
    geometries, geometry_of, lemma_rva_index_found, rva_file_offset, rva_lookup_defined,
    rva_lookup_is_defined, rva_not_found_message, rva_section_index, rva_section_index_exec,
    rva_to_file_offset, SectionGeometry,
};
use crate::pe::{rebuild_defined, rebuild_image, rebuild_is_defined, rebuilt_image};
use crate::text::{hex8, push_hex8};
use crate::unpackers::headers::{
    SteamStub32Var10Header, SteamStub32Var20_856_Header, SteamStub32Var20_884_Header,
};
use crate::unpackers::stub::{
    decrypt_stub_payloads, read_stub_header, stub_drmp, stub_payload, stub_payloads_are_defined,
    stub_payloads_defined, stub_window,
};
use crate::unpackers::v3::{opt_vec, saturating_sub32};
use crate::unpackers::UnpackedImage;
use vstd::prelude::*;

verus! {

/// `va` relative to the PE32 image base `image_base`, or `va` itself when
/// it lies below it.
pub open spec fn pe32_rva(va: u32, image_base: u32) -> u32 {
    if va >= image_base {
        (va - image_base) as u32
    } else {
        va
    }
}

/// `r` is the unpacking outcome `expected`, with the decoded stub payload
/// `payload` and SteamDRMP module `drmp` on success.
pub open spec fn unpacked_as(
    r: Result<UnpackedImage, String>,
    expected: Result<(Seq<u8>, u64, u32), Seq<char>>,
    payload: Option<Seq<u8>>,
    drmp: Option<Seq<u8>>,
) -> bool {
    match r {
        Ok(u) => {
            &&& expected == Ok::<(Seq<u8>, u64, u32), Seq<char>>(
                (u.data@, u.original_entry_point, u.steam_app_id),
            )
            &&& opt_vec(u.payload) == payload
            &&& opt_vec(u.drmp_dll) == drmp
        },
        Err(e) => expected == Err::<(Seq<u8>, u64, u32), Seq<char>>(e@),
    }
}

/// Size of the variant 1.0 stub header.
pub open spec fn v1_header_size() -> int {
    0x2C
}

/// The signature that a variant 1.0 stub header carries.
pub open spec fn v1_signature() -> u32 {
    0xC0DE_C0DF
}

/// The message for an entry point too close to the start of the file.
pub open spec fn v1_too_small_message() -> Seq<char> {
    "Entry point file offset too small for SteamStub v1.0 header"@
}

/// The message for a variant 1.0 header with signature `sig`.
pub open spec fn v1_bad_signature_message(sig: u32) -> Seq<char> {
    "Invalid SteamStub v1.0 header signature: 0x"@ + hex8(sig)
}

/// Finding the variant 1.0 stub header: the 0x2C bytes in front of the
/// entry point, XOR-decoded, with the chaining key; checked for the
/// signature.
pub open spec fn v1_locate(d: Seq<u8>, secs: Seq<SectionGeometry>, ep: u32) -> Result<
    (Seq<u8>, u32),
    Seq<char>,
> {
    match rva_file_offset(secs, ep) {
        None => Err(rva_not_found_message(ep)),
        Some(off) => if off < v1_header_size() {
            Err(v1_too_small_message())
        } else {
            let (dec, key) = spec_steam_xor(stub_window(d, off, v1_header_size()), 0);
            if le32(dec, 4) != v1_signature() {
                Err(v1_bad_signature_message(le32(dec, 4)))
            } else {
                Ok((dec, key))
            }
        },
    }
}

/// The result of unpacking a variant 1.0 image: the rebuilt image (entry
/// point set to the header's original entry point made relative to the
/// image base, `.bind` stripped, checksum recomputed), the original entry
/// point and the Steam application id; or the first error.
pub open spec fn spec_unpack_v1(
    d: Seq<u8>,
    psecs: Seq<Pe32Section>,
    lfanew: int,
    soh: int,
    ep: u32,
    image_base: u32,
) -> Result<(Seq<u8>, u64, u32), Seq<char>> {
    match v1_locate(d, geometries(psecs), ep) {
        Err(e) => Err(e),
        Ok((dec, key)) => {
            let oep = le32(dec, 20);
            Ok(
                (
                    rebuilt_image(
                        d,
                        lfanew,
                        soh,
                        psecs,
                        pe32_rva(oep, image_base),
                        None,
                        None,
                        true,
                    ),
                    oep as u64,
                    le32(dec, 36),
                ),
            )
        },
    }
}

/// The decoded stub payload of a variant 1.0 image (see `stub_payload`).
pub open spec fn spec_v1_payload(d: Seq<u8>, secs: Seq<SectionGeometry>, ep: u32) -> Option<
    Seq<u8>,
> {
    match v1_locate(d, secs, ep) {
        Ok((dec, key)) => stub_payload(
            d,
            secs,
            saturating_sub32(ep, le32(dec, 16)),
            le32(dec, 24),
            key,
        ),
        Err(_) => None,
    }
}

/// The decoded SteamDRMP module of a variant 1.0 image (see `stub_drmp`),
/// decoded with an all-zero key.
pub open spec fn spec_v1_drmp(d: Seq<u8>, secs: Seq<SectionGeometry>, ep: u32) -> Option<
    Seq<u8>,
> {
    match v1_locate(d, secs, ep) {
        Ok((dec, key)) => stub_drmp(
            d,
            secs,
            saturating_sub32(ep, le32(dec, 16)),
            le32(dec, 28),
            le32(dec, 32),
            seq![0u32, 0u32, 0u32, 0u32],
        ),
        Err(_) => None,
    }
}

/// Unpacking a variant 1.0 image is defined: the entry point translates
/// to an offset within the image, the payload lookups are defined and the
/// image can be rebuilt.
pub open spec fn unpack_v1_defined(
    d: Seq<u8>,
    psecs: Seq<Pe32Section>,
    lfanew: int,
    soh: int,
    ep: u32,
) -> bool {
    let secs = geometries(psecs);
    &&& rva_lookup_defined(secs, ep, 0)
    &&& rva_file_offset(secs, ep) matches Some(off) ==> off <= d.len()
    &&& v1_locate(d, secs, ep) matches Ok((dec, key)) ==> {
        &&& stub_payloads_defined(
            secs,
            saturating_sub32(ep, le32(dec, 16)),
            le32(dec, 24),
            le32(dec, 28),
            le32(dec, 32),
        )
        &&& rebuild_defined(d, lfanew, soh, psecs, true)
    }
}

/// Finds, decodes and checks the variant 1.0 stub header.
fn locate_v1_header(raw: &[u8], sections: &Vec<Pe32Section>, entry_point: u32) -> (r: Result<
    (SteamStub32Var10Header, u32),
    String,
>)
    requires
        rva_lookup_defined(geometries(sections@), entry_point, 0),
        rva_file_offset(geometries(sections@), entry_point) matches Some(off) ==> off
            <= raw@.len(),
    ensures
        match r {
            Ok((h, key)) => v1_locate(raw@, geometries(sections@), entry_point) matches Ok(
                (dec, k),
            ) && k == key && h.parsed_from(dec),
            Err(e) => v1_locate(raw@, geometries(sections@), entry_point) == Err::<
                (Seq<u8>, u32),
                Seq<char>,
            >(e@),
        },
{
    let ghost secs = geometries(sections@);
    proof {
        lemma_rva_index_found(secs, entry_point, 0);
    }
    let ep_file_offset = match rva_to_file_offset(sections, entry_point) {
        Ok(off) => off,
        Err(e) => return Err(e),
    };
    assert(rva_file_offset(secs, entry_point) == Some(ep_file_offset as int));
    if ep_file_offset < 0x2C {
        return Err("Entry point file offset too small for SteamStub v1.0 header".to_owned());
    }
    let (header_bytes, xor_key) = read_stub_header(raw, ep_file_offset, 0x2C);
    proof {
        law_steam_xor_length(stub_window(raw@, ep_file_offset as int, 0x2C), 0);
    }
    let header = match SteamStub32Var10Header::parse(header_bytes.as_slice()) {
        Ok(h) => h,
        Err(e) => return Err(e),
    };
    if header.signature != 0xC0DEC0DF {
        let mut msg = "Invalid SteamStub v1.0 header signature: 0x".to_owned();
        push_hex8(&mut msg, header.signature);
        return Err(msg);
    }
    Ok((header, xor_key))
}

/// Unpacks a variant 1.0 image given by its parts.
fn unpack_v1_image(
    raw: &[u8],
    sections: &Vec<Pe32Section>,
    lfanew: usize,
    soh: u16,
    entry_point: u32,
    image_base: u32,
) -> (r: Result<UnpackedImage, String>)
    requires
        unpack_v1_defined(raw@, sections@, lfanew as int, soh as int, entry_point),
    ensures
        unpacked_as(
            r,
            spec_unpack_v1(raw@, sections@, lfanew as int, soh as int, entry_point, image_base),
            spec_v1_payload(raw@, geometries(sections@), entry_point),
            spec_v1_drmp(raw@, geometries(sections@), entry_point),
        ),
{
    let (header, xor_key) = match locate_v1_header(raw, sections, entry_point) {
        Ok(v) => v,
        Err(e) => return Err(e),
    };
    let payload_rva = if entry_point >= header.bind_section_offset {
        entry_point - header.bind_section_offset
    } else {
        0
    };
    let zero_keys: [u32; 4] = [0u32, 0u32, 0u32, 0u32];
    assert(zero_keys@ =~= seq![0u32, 0u32, 0u32, 0u32]);
    let (payload, drmp_dll) = decrypt_stub_payloads(
        raw,
        sections,
        payload_rva,
        header.payload_size,
        header.drmp_dll_offset,
        header.drmp_dll_size,
        xor_key,
        &zero_keys,
    );
    let oep = header.original_entry_point;
    let new_entry_point = if oep >= image_base {
        oep - image_base
    } else {
        oep
    };
    let data = rebuild_image(raw, lfanew, soh, sections, new_entry_point, None, None, true);
    Ok(
        UnpackedImage {
            data,
            original_entry_point: oep as u64,
            steam_app_id: header.steam_app_id,
            payload,
            drmp_dll,
        },
    )
}

/// Unpacking the PE32 image `pe32` as variant 1.0 is defined.
pub open spec fn pe32_unpack_v1_defined(pe32: Pe32File) -> bool {
    &&& pe32.dos_header.e_lfanew >= 0
    &&& unpack_v1_defined(
        pe32.raw_data@,
        pe32.sections@,
        pe32.dos_header.e_lfanew as int,
        pe32.file_header.size_of_optional_header as int,
        pe32.entry_point,
    )
}

/// Whether the entry point translates (see `rva_lookup_defined`) to an
/// offset within the image; gives that offset when it exists.
fn entry_offset_is_defined(raw: &[u8], sections: &Vec<Pe32Section>, entry_point: u32) -> (r: (
    bool,
    Option<usize>,
))
    ensures
        r.0 == (rva_lookup_defined(geometries(sections@), entry_point, 0) && (rva_file_offset(
            geometries(sections@),
            entry_point,
        ) matches Some(off) ==> off <= raw@.len())),
        r.0 ==> match r.1 {
            Some(off) => rva_file_offset(geometries(sections@), entry_point) == Some(off as int),
            None => rva_file_offset(geometries(sections@), entry_point) is None,
        },
{
    if !rva_lookup_is_defined(sections, entry_point, 0) {
        return (false, None);
    }
    proof {
        lemma_rva_index_found(geometries(sections@), entry_point, 0);
    }
    match rva_to_file_offset(sections, entry_point) {
        Ok(off) => (off <= raw.len(), Some(off)),
        Err(_) => (true, None),
    }
}

/// Whether unpacking `pe32` as variant 1.0 is defined (see
/// `pe32_unpack_v1_defined`).
pub fn unpack_v1_is_defined(pe32: &Pe32File) -> (r: bool)
    ensures
        r == pe32_unpack_v1_defined(*pe32),
{
    if pe32.dos_header.e_lfanew < 0 {
        return false;
    }
    let raw = pe32.raw_data.as_slice();
    let sections = &pe32.sections;
    let (ok, _) = entry_offset_is_defined(raw, sections, pe32.entry_point);
    if !ok {
        return false;
    }
    let (header, _) = match locate_v1_header(raw, sections, pe32.entry_point) {
        Ok(v) => v,
        Err(_) => return true,
    };
    let payload_rva = if pe32.entry_point >= header.bind_section_offset {
        pe32.entry_point - header.bind_section_offset
    } else {
        0
    };
    stub_payloads_are_defined(
        sections,
        payload_rva,
        header.payload_size,
        header.drmp_dll_offset,
        header.drmp_dll_size,
    ) && rebuild_is_defined(
        raw,
        pe32.dos_header.e_lfanew as usize,
        pe32.file_header.size_of_optional_header,
        sections,
        true,
    )
}

/// Unpacks a SteamStub 1.0 protected PE32 image: decodes and checks the
/// stub header, decodes the payloads and rebuilds the image.
pub fn unpack_v1(pe32: &Pe32File) -> (r: Result<UnpackedImage, String>)
    requires
        pe32_unpack_v1_defined(*pe32),
    ensures
        unpacked_as(
            r,
            spec_unpack_v1(
                pe32.raw_data@,
                pe32.sections@,
                pe32.dos_header.e_lfanew as int,
                pe32.file_header.size_of_optional_header as int,
                pe32.entry_point,
                pe32.image_base,
            ),
            spec_v1_payload(pe32.raw_data@, geometries(pe32.sections@), pe32.entry_point),
            spec_v1_drmp(pe32.raw_data@, geometries(pe32.sections@), pe32.entry_point),
        ),
{
    unpack_v1_image(
        pe32.raw_data.as_slice(),
        &pe32.sections,
        pe32.dos_header.e_lfanew as usize,
        pe32.file_header.size_of_optional_header,
        pe32.entry_point,
        pe32.image_base,
    )
}


/// Which SteamStub 2.x header layout a plugin reads.
#[derive(Debug, Clone, Copy, PartialEq, Eq, Structural)]
pub enum V2HeaderKind {
    /// Variant 2.0: the 856-byte header.
    Var20,
    /// Variant 2.1: the 884-byte header.
    Var21,
}

/// Size of the stub header of layout `kind`.
pub open spec fn v2_header_size(kind: V2HeaderKind) -> int {
    match kind {
        V2HeaderKind::Var20 => 856,
        V2HeaderKind::Var21 => 884,
    }
}

/// How far the fields from the original entry point on lie behind their
/// 2.0 offsets in layout `kind`.
pub open spec fn v2_shift(kind: V2HeaderKind) -> int {
    match kind {
        V2HeaderKind::Var20 => 0,
        V2HeaderKind::Var21 => 4,
    }
}

/// The message for an entry point too close to the start of the file.
pub open spec fn v2_too_small_message(kind: V2HeaderKind) -> Seq<char> {
    match kind {
        V2HeaderKind::Var20 => "Entry point file offset too small for SteamStub v2.0 header"@,
        V2HeaderKind::Var21 => "Entry point file offset too small for SteamStub v2.1 header"@,
    }
}

/// The original entry point field of a decoded 2.x header.
pub open spec fn v2_oep(kind: V2HeaderKind, dec: Seq<u8>) -> u32 {
    le32(dec, 40 + v2_shift(kind))
}

/// The code section address field of a decoded 2.x header.
pub open spec fn v2_code_va(kind: V2HeaderKind, dec: Seq<u8>) -> u32 {
    le32(dec, 44 + v2_shift(kind))
}

/// The code section XOR key field of a decoded 2.x header.
pub open spec fn v2_code_key(kind: V2HeaderKind, dec: Seq<u8>) -> u32 {
    le32(dec, 52 + v2_shift(kind))
}

/// The Steam application id field of a decoded 2.x header.
pub open spec fn v2_app_id(kind: V2HeaderKind, dec: Seq<u8>) -> u32 {
    le32(dec, 56 + v2_shift(kind))
}

/// Finding the 2.x stub header: the bytes in front of the entry point,
/// XOR-decoded, with the chaining key.
pub open spec fn v2_locate(kind: V2HeaderKind, d: Seq<u8>, secs: Seq<SectionGeometry>, ep: u32) -> Result<
    (Seq<u8>, u32),
    Seq<char>,
> {
    match rva_file_offset(secs, ep) {
        None => Err(rva_not_found_message(ep)),
        Some(off) => if off < v2_header_size(kind) {
            Err(v2_too_small_message(kind))
        } else {
            Ok(spec_steam_xor(stub_window(d, off, v2_header_size(kind)), 0))
        },
    }
}

/// The code section of a 2.x image: the index of the section that holds
/// the header's code address, and its raw data XOR-decoded with the
/// header's code key (the header chaining key `key` when that is zero);
/// no data when the section has no raw data, neither when no section
/// holds the address.
pub open spec fn v2_code(
    kind: V2HeaderKind,
    dec: Seq<u8>,
    key: u32,
    d: Seq<u8>,
    secs: Seq<SectionGeometry>,
    image_base: u32,
) -> Result<(Option<usize>, Option<Seq<u8>>), Seq<char>> {
    match rva_section_index(secs, pe32_rva(v2_code_va(kind, dec), image_base)) {
        None => Ok((None, None)),
        Some(idx) => {
            let rs = secs[idx].size_of_raw_data as int;
            let va = secs[idx].virtual_address;
            if rs == 0 {
                Ok((Some(idx as usize), None))
            } else {
                match rva_file_offset(secs, va) {
                    None => Err(rva_not_found_message(va)),
                    Some(sfo) => {
                        let ck = v2_code_key(kind, dec);
                        let k = if ck != 0 {
                            ck
                        } else {
                            key
                        };
                        Ok((Some(idx as usize), Some(spec_steam_xor(d.subrange(sfo, sfo + rs), k).0)))
                    },
                }
            }
        },
    }
}

/// Decoding the code section is defined: the section's lookup is, and its
/// raw data lies within the image.
pub open spec fn v2_code_defined(
    kind: V2HeaderKind,
    dec: Seq<u8>,
    d: Seq<u8>,
    secs: Seq<SectionGeometry>,
    image_base: u32,
) -> bool {
    rva_section_index(secs, pe32_rva(v2_code_va(kind, dec), image_base)) matches Some(idx) ==> ({
        let rs = secs[idx].size_of_raw_data as int;
        let va = secs[idx].virtual_address;
        rs > 0 ==> {
            &&& rva_lookup_defined(secs, va, 0)
            &&& rva_file_offset(secs, va) matches Some(sfo) ==> sfo + rs <= d.len()
        }
    })
}

/// The result of unpacking a 2.x image: the rebuilt image (entry point
/// set to the header's original entry point made relative to the image
/// base, code section replaced by its decoding, `.bind` stripped,
/// checksum recomputed), the original entry point and the Steam
/// application id; or the first error.
pub open spec fn spec_unpack_v2(
    kind: V2HeaderKind,
    d: Seq<u8>,
    psecs: Seq<Pe32Section>,
    lfanew: int,
    soh: int,
    ep: u32,
    image_base: u32,
) -> Result<(Seq<u8>, u64, u32), Seq<char>> {
    let secs = geometries(psecs);
    match v2_locate(kind, d, secs, ep) {
        Err(e) => Err(e),
        Ok((dec, key)) => match v2_code(kind, dec, key, d, secs, image_base) {
            Err(e) => Err(e),
            Ok((idx, code)) => {
                let oep = v2_oep(kind, dec);
                Ok(
                    (
                        rebuilt_image(
                            d,
                            lfanew,
                            soh,
                            psecs,
                            pe32_rva(oep, image_base),
                            idx,
                            code,
                            true,
                        ),
                        oep as u64,
                        v2_app_id(kind, dec),
                    ),
                )
            },
        },
    }
}

/// Unpacking a 2.x image is defined: each step is.
pub open spec fn unpack_v2_defined(
    kind: V2HeaderKind,
    d: Seq<u8>,
    psecs: Seq<Pe32Section>,
    lfanew: int,
    soh: int,
    ep: u32,
    image_base: u32,
) -> bool {
    let secs = geometries(psecs);
    &&& rva_lookup_defined(secs, ep, 0)
    &&& rva_file_offset(secs, ep) matches Some(off) ==> off <= d.len()
    &&& v2_locate(kind, d, secs, ep) matches Ok((dec, key)) ==> {
        &&& v2_code_defined(kind, dec, d, secs, image_base)
        &&& v2_code(kind, dec, key, d, secs, image_base) is Ok ==> rebuild_defined(
            d,
            lfanew,
            soh,
            psecs,
            true,
        )
    }
}

/// The fields of a 2.x header that unpacking reads.
struct V2Fields {
    oep: u32,
    code_section_virtual_address: u32,
    code_section_xor_key: u32,
    steam_app_id: u32,
}

impl V2Fields {
    /// `self` holds the fields of the decoded header `dec`.
    spec fn read_from(self, kind: V2HeaderKind, dec: Seq<u8>) -> bool {
        &&& self.oep == v2_oep(kind, dec)
        &&& self.code_section_virtual_address == v2_code_va(kind, dec)
        &&& self.code_section_xor_key == v2_code_key(kind, dec)
        &&& self.steam_app_id == v2_app_id(kind, dec)
    }
}

/// Finds and decodes the 2.x stub header.
fn locate_v2_header(
    raw: &[u8],
    sections: &Vec<Pe32Section>,
    entry_point: u32,
    kind: V2HeaderKind,
) -> (r: Result<(V2Fields, u32), String>)
    requires
        rva_lookup_defined(geometries(sections@), entry_point, 0),
        rva_file_offset(geometries(sections@), entry_point) matches Some(off) ==> off
            <= raw@.len(),
    ensures
        match r {
            Ok((f, key)) => v2_locate(kind, raw@, geometries(sections@), entry_point) matches Ok(
                (dec, k),
            ) && k == key && f.read_from(kind, dec),
            Err(e) => v2_locate(kind, raw@, geometries(sections@), entry_point) == Err::<
                (Seq<u8>, u32),
                Seq<char>,
            >(e@),
        },
{
    let ghost secs = geometries(sections@);
    proof {
        lemma_rva_index_found(secs, entry_point, 0);
    }
    let ep_file_offset = match rva_to_file_offset(sections, entry_point) {
        Ok(off) => off,
        Err(e) => return Err(e),
    };
    assert(rva_file_offset(secs, entry_point) == Some(ep_file_offset as int));
    match kind {
        V2HeaderKind::Var20 => {
            if ep_file_offset < 856 {
                return Err(
                    "Entry point file offset too small for SteamStub v2.0 header".to_owned(),
                );
            }
            let (header_bytes, xor_key) = read_stub_header(raw, ep_file_offset, 856);
            proof {
                law_steam_xor_length(stub_window(raw@, ep_file_offset as int, 856), 0);
            }
            let h = match SteamStub32Var20_856_Header::parse(header_bytes.as_slice()) {
                Ok(h) => h,
                Err(e) => return Err(e),
            };
            Ok(
                (
                    V2Fields {
                        oep: h.oep,
                        code_section_virtual_address: h.code_section_virtual_address,
                        code_section_xor_key: h.code_section_xor_key,
                        steam_app_id: h.steam_app_id,
                    },
                    xor_key,
                ),
            )
        },
        V2HeaderKind::Var21 => {
            if ep_file_offset < 884 {
                return Err(
                    "Entry point file offset too small for SteamStub v2.1 header".to_owned(),
                );
            }
            let (header_bytes, xor_key) = read_stub_header(raw, ep_file_offset, 884);
            proof {
                law_steam_xor_length(stub_window(raw@, ep_file_offset as int, 884), 0);
            }
            let h = match SteamStub32Var20_884_Header::parse(header_bytes.as_slice()) {
                Ok(h) => h,
                Err(e) => return Err(e),
            };
            Ok(
                (
                    V2Fields {
                        oep: h.oep,
                        code_section_virtual_address: h.code_section_virtual_address,
                        code_section_xor_key: h.code_section_xor_key,
                        steam_app_id: h.steam_app_id,
                    },
                    xor_key,
                ),
            )
        },
    }
}

/// Decodes the code section (see `v2_code`).
fn decrypt_v2_code(
    raw: &[u8],
    sections: &Vec<Pe32Section>,
    image_base: u32,
    f: &V2Fields,
    xor_key: u32,
    Ghost(kind): Ghost<V2HeaderKind>,
    Ghost(dec): Ghost<Seq<u8>>,
) -> (r: Result<(Option<usize>, Option<Vec<u8>>), String>)
    requires
        f.read_from(kind, dec),
        v2_code_defined(kind, dec, raw@, geometries(sections@), image_base),
    ensures
        match r {
            Ok((idx, c)) => v2_code(kind, dec, xor_key, raw@, geometries(sections@), image_base)
                == Ok::<(Option<usize>, Option<Seq<u8>>), Seq<char>>((idx, opt_vec(c))),
            Err(e) => v2_code(kind, dec, xor_key, raw@, geometries(sections@), image_base) == Err::<
                (Option<usize>, Option<Seq<u8>>),
                Seq<char>,
            >(e@),
        },
{
    let ghost secs = geometries(sections@);
    let va = f.code_section_virtual_address;
    let code_rva = if va >= image_base {
        va - image_base
    } else {
        va
    };
    let idx = match rva_section_index_exec(sections, code_rva) {
        Some(i) => i,
        None => return Ok((None, None)),
    };
    let sec = &sections[idx];
    assert(secs[idx as int] == geometry_of(sec.header));
    let raw_size = sec.header.size_of_raw_data as usize;
    if raw_size == 0 {
        return Ok((Some(idx), None));
    }
    proof {
        lemma_rva_index_found(secs, sec.header.virtual_address, 0);
    }
    let sec_file_offset = match rva_to_file_offset(sections, sec.header.virtual_address) {
        Ok(off) => off,
        Err(e) => return Err(e),
    };
    assert(rva_file_offset(secs, sec.header.virtual_address) == Some(sec_file_offset as int));
    let len = raw.len();
    assert(sec_file_offset + raw_size <= len);
    let mut code_data = vstd::slice::slice_to_vec(
        vstd::slice::slice_subrange(raw, sec_file_offset, sec_file_offset + raw_size),
    );
    if f.code_section_xor_key != 0 {
        steam_xor(code_data.as_mut_slice(), f.code_section_xor_key);
    } else {
        steam_xor(code_data.as_mut_slice(), xor_key);
    }
    Ok((Some(idx), Some(code_data)))
}

/// Unpacks a 2.x image given by its parts.
fn unpack_v2_image(
    raw: &[u8],
    sections: &Vec<Pe32Section>,
    lfanew: usize,
    soh: u16,
    entry_point: u32,
    image_base: u32,
    kind: V2HeaderKind,
) -> (r: Result<UnpackedImage, String>)
    requires
        unpack_v2_defined(kind, raw@, sections@, lfanew as int, soh as int, entry_point, image_base),
    ensures
        unpacked_as(
            r,
            spec_unpack_v2(kind, raw@, sections@, lfanew as int, soh as int, entry_point, image_base),
            None,
            None,
        ),
{
    let ghost secs = geometries(sections@);
    let (fields, xor_key) = match locate_v2_header(raw, sections, entry_point, kind) {
        Ok(v) => v,
        Err(e) => return Err(e),
    };
    let ghost dec = match v2_locate(kind, raw@, secs, entry_point) {
        Ok((dec, _)) => dec,
        Err(_) => Seq::empty(),
    };
    let (code_sec_idx, decrypted_code) = match decrypt_v2_code(
        raw,
        sections,
        image_base,
        &fields,
        xor_key,
        Ghost(kind),
        Ghost(dec),
    ) {
        Ok(v) => v,
        Err(e) => return Err(e),
    };
    let oep = fields.oep;
    let new_entry_point = if oep >= image_base {
        oep - image_base
    } else {
        oep
    };
    let code_ref: Option<&[u8]> = match &decrypted_code {
        Some(c) => Some(c.as_slice()),
        None => None,
    };
    let data = rebuild_image(
        raw,
        lfanew,
        soh,
        sections,
        new_entry_point,
        code_sec_idx,
        code_ref,
        true,
    );
    proof {
        assert(crate::pe::opt_bytes(code_ref) == opt_vec(decrypted_code));
    }
    Ok(
        UnpackedImage {
            data,
            original_entry_point: oep as u64,
            steam_app_id: fields.steam_app_id,
            payload: None,
            drmp_dll: None,
        },
    )
}

/// Unpacking the PE32 image `pe32` with 2.x layout `kind` is defined.
pub open spec fn pe32_unpack_v2_defined(pe32: Pe32File, kind: V2HeaderKind) -> bool {
    &&& pe32.dos_header.e_lfanew >= 0
    &&& unpack_v2_defined(
        kind,
        pe32.raw_data@,
        pe32.sections@,
        pe32.dos_header.e_lfanew as int,
        pe32.file_header.size_of_optional_header as int,
        pe32.entry_point,
        pe32.image_base,
    )
}

/// Whether decoding the code section is defined (see `v2_code_defined`);
/// when it is, whether that decoding succeeds.
fn v2_code_is_defined(
    raw: &[u8],
    sections: &Vec<Pe32Section>,
    image_base: u32,
    f: &V2Fields,
    Ghost(kind): Ghost<V2HeaderKind>,
    Ghost(dec): Ghost<Seq<u8>>,
    Ghost(key): Ghost<u32>,
) -> (r: (bool, bool))
    requires
        f.read_from(kind, dec),
    ensures
        r.0 == v2_code_defined(kind, dec, raw@, geometries(sections@), image_base),
        r.0 ==> r.1 == v2_code(kind, dec, key, raw@, geometries(sections@), image_base) is Ok,
{
    let ghost secs = geometries(sections@);
    let va = f.code_section_virtual_address;
    let code_rva = if va >= image_base {
        va - image_base
    } else {
        va
    };
    let idx = match rva_section_index_exec(sections, code_rva) {
        Some(i) => i,
        None => return (true, true),
    };
    let h = &sections[idx].header;
    assert(secs[idx as int] == geometry_of(*h));
    if h.size_of_raw_data == 0 {
        return (true, true);
    }
    if !rva_lookup_is_defined(sections, h.virtual_address, 0) {
        return (false, false);
    }
    proof {
        lemma_rva_index_found(secs, h.virtual_address, 0);
    }
    match rva_to_file_offset(sections, h.virtual_address) {
        Ok(sfo) => (sfo as u64 + h.size_of_raw_data as u64 <= raw.len() as u64, true),
        Err(_) => (true, false),
    }
}

/// Whether unpacking `pe32` with 2.x layout `kind` is defined (see
/// `pe32_unpack_v2_defined`).
pub fn unpack_v2_is_defined(pe32: &Pe32File, kind: V2HeaderKind) -> (r: bool)
    ensures
        r == pe32_unpack_v2_defined(*pe32, kind),
{
    if pe32.dos_header.e_lfanew < 0 {
        return false;
    }
    let raw = pe32.raw_data.as_slice();
    let sections = &pe32.sections;
    let (ok, _) = entry_offset_is_defined(raw, sections, pe32.entry_point);
    if !ok {
        return false;
    }
    let (fields, key) = match locate_v2_header(raw, sections, pe32.entry_point, kind) {
        Ok(v) => v,
        Err(_) => return true,
    };
    let ghost dec = match v2_locate(kind, raw@, geometries(sections@), pe32.entry_point) {
        Ok((dec, _)) => dec,
        Err(_) => Seq::empty(),
    };
    let (code_ok, code_succeeds) = v2_code_is_defined(
        raw,
        sections,
        pe32.image_base,
        &fields,
        Ghost(kind),
        Ghost(dec),
        Ghost(key),
    );
    if !code_ok {
        return false;
    }
    !code_succeeds || rebuild_is_defined(
        raw,
        pe32.dos_header.e_lfanew as usize,
        pe32.file_header.size_of_optional_header,
        sections,
        true,
    )
}

/// Unpacks a SteamStub 2.x protected PE32 image: decodes the stub header,
/// decodes the code section and rebuilds the image.
pub fn unpack_v2(pe32: &Pe32File, kind: V2HeaderKind) -> (r: Result<UnpackedImage, String>)
    requires
        pe32_unpack_v2_defined(*pe32, kind),
    ensures
        unpacked_as(
            r,
            spec_unpack_v2(
                kind,
                pe32.raw_data@,
                pe32.sections@,
                pe32.dos_header.e_lfanew as int,
                pe32.file_header.size_of_optional_header as int,
                pe32.entry_point,
                pe32.image_base,
            ),
            None,
            None,
        ),
{
    unpack_v2_image(
        pe32.raw_data.as_slice(),
        &pe32.sections,
        pe32.dos_header.e_lfanew as usize,
        pe32.file_header.size_of_optional_header,
        pe32.entry_point,
        pe32.image_base,
        kind,
    )
}

} // verus!
