//! Steps shared by the unpackers: reading the XOR-encoded stub header in
//! front of an entry point, and decoding the stub payload and the
//! SteamDRMP module.
use crate::crypto::xtea::{
    drmp_stream, spec_steam_xor, steam_drmp_decrypt_pass1, steam_xor, DRMP_IV,
};
use crate::pe::file32::Pe32Section;
use crate::pe::sections::{
    geometries, lemma_rva_index_found, rva_file_offset, rva_lookup_defined, rva_lookup_is_defined,
    rva_to_file_offset, SectionGeometry,
};
use vstd::prelude::*;

verus! {

/// The `size` bytes that end at `end` (fewer when `end < size`).
pub open spec fn stub_window(d: Seq<u8>, end: int, size: int) -> Seq<u8> {
    d.subrange(
        if end >= size {
            end - size
        } else {
            0
        },
        end,
    )
}

/// Copies the `size` bytes before `end` and XOR-decodes them with a zero
/// key (so the first word is the key); gives the decoded bytes and the
/// chaining key.
pub fn read_stub_header(raw: &[u8], end: usize, size: usize) -> (r: (Vec<u8>, u32))
    requires
        end <= raw@.len(),
    ensures
        (r.0@, r.1) == spec_steam_xor(stub_window(raw@, end as int, size as int), 0),
{
    let start = if end >= size {
        end - size
    } else {
        0
    };
    let mut bytes = vstd::slice::slice_to_vec(vstd::slice::slice_subrange(raw, start, end));
    let key = steam_xor(bytes.as_mut_slice(), 0);
    (bytes, key)
}

/// `x` rounded up to a multiple of 16, as `(x + 0x0F) & !0x0F` in `u32`.
pub open spec fn round16(x: u32) -> u32 {
    (((x + 0x0F) as u32) & 0xFFFF_FFF0u32) as u32
}

/// The stub payload: the `round16(payload_size)` bytes at the file offset
/// of `payload_rva`, XOR-decoded with `key`; `None` when the size is zero,
/// the RVA lies in no section or the bytes run past the image.
pub open spec fn stub_payload(
    d: Seq<u8>,
    secs: Seq<SectionGeometry>,
    payload_rva: u32,
    payload_size: u32,
    key: u32,
) -> Option<Seq<u8>> {
    let size = round16(payload_size) as int;
    if size == 0 {
        None
    } else {
        match rva_file_offset(secs, payload_rva) {
            Some(off) => if off + size <= d.len() {
                Some(spec_steam_xor(d.subrange(off, off + size), key).0)
            } else {
                None
            },
            None => None,
        }
    }
}

/// The SteamDRMP module: the `size` bytes at the file offset of
/// `payload_rva + offset`, decoded with the pass-1 XTEA stream under
/// `keys`; `None` when the size is zero, the RVA lies in no section or the
/// bytes run past the image.
pub open spec fn stub_drmp(
    d: Seq<u8>,
    secs: Seq<SectionGeometry>,
    payload_rva: u32,
    offset: u32,
    size: u32,
    keys: Seq<u32>,
) -> Option<Seq<u8>> {
    if size == 0 {
        None
    } else {
        match rva_file_offset(secs, (payload_rva + offset) as u32) {
            Some(off) => if off + size <= d.len() {
                Some(drmp_stream(d.subrange(off, off + size as int), keys, DRMP_IV, DRMP_IV))
            } else {
                None
            },
            None => None,
        }
    }
}

/// Decoding the payload and the SteamDRMP module is defined: the size
/// rounding does not overflow, the RVA translations are defined, and the
/// DRMP RVA sum does not overflow.
pub open spec fn stub_payloads_defined(
    secs: Seq<SectionGeometry>,
    payload_rva: u32,
    payload_size: u32,
    drmp_offset: u32,
    drmp_size: u32,
) -> bool {
    &&& payload_size + 0x0F <= u32::MAX
    &&& round16(payload_size) > 0 ==> rva_lookup_defined(
        secs,
        payload_rva,
        round16(payload_size) as int,
    )
    &&& drmp_size > 0 ==> {
        &&& payload_rva + drmp_offset <= u32::MAX
        &&& rva_lookup_defined(secs, (payload_rva + drmp_offset) as u32, drmp_size as int)
    }
}

/// Whether decoding the payload and the SteamDRMP module is defined (see
/// `stub_payloads_defined`).
pub fn stub_payloads_are_defined(
    sections: &Vec<Pe32Section>,
    payload_rva: u32,
    payload_size: u32,
    drmp_offset: u32,
    drmp_size: u32,
) -> (r: bool)
    ensures
        r == stub_payloads_defined(
            geometries(sections@),
            payload_rva,
            payload_size,
            drmp_offset,
            drmp_size,
        ),
{
    if payload_size > 0xFFFF_FFFF - 0x0F {
        return false;
    }
    let size = (payload_size + 0x0F) & !0x0Fu32;
    assert(!0x0Fu32 == 0xFFFF_FFF0u32) by (bit_vector);
    assert(size == round16(payload_size));
    if size > 0 && !rva_lookup_is_defined(sections, payload_rva, size as usize) {
        return false;
    }
    if drmp_size > 0 {
        if payload_rva > 0xFFFF_FFFF - drmp_offset {
            return false;
        }
        return rva_lookup_is_defined(sections, payload_rva + drmp_offset, drmp_size as usize);
    }
    true
}

/// Decodes the stub payload and the SteamDRMP module (see `stub_payload`
/// and `stub_drmp`).
pub fn decrypt_stub_payloads(
    raw: &[u8],
    sections: &Vec<Pe32Section>,
    payload_rva: u32,
    payload_size: u32,
    drmp_offset: u32,
    drmp_size: u32,
    key: u32,
    keys: &[u32; 4],
) -> (r: (Option<Vec<u8>>, Option<Vec<u8>>))
    requires
        stub_payloads_defined(
            geometries(sections@),
            payload_rva,
            payload_size,
            drmp_offset,
            drmp_size,
        ),
    ensures
        match r.0 {
            Some(p) => stub_payload(raw@, geometries(sections@), payload_rva, payload_size, key)
                == Some(p@),
            None => stub_payload(raw@, geometries(sections@), payload_rva, payload_size, key) is None,
        },
        match r.1 {
            Some(p) => stub_drmp(
                raw@,
                geometries(sections@),
                payload_rva,
                drmp_offset,
                drmp_size,
                keys@,
            ) == Some(p@),
            None => stub_drmp(
                raw@,
                geometries(sections@),
                payload_rva,
                drmp_offset,
                drmp_size,
                keys@,
            ) is None,
        },
{
    let ghost secs = geometries(sections@);
    let len = raw.len();
    let size = (payload_size + 0x0F) & !0x0Fu32;
    assert(!0x0Fu32 == 0xFFFF_FFF0u32) by (bit_vector);
    assert(size == round16(payload_size));
    let mut payload: Option<Vec<u8>> = None;
    if size > 0 {
        proof {
            lemma_rva_index_found(secs, payload_rva, 0);
        }
        if let Ok(off) = rva_to_file_offset(sections, payload_rva) {
            assert(rva_file_offset(secs, payload_rva) == Some(off as int));
            if off + size as usize <= len {
                let mut bytes = vstd::slice::slice_to_vec(
                    vstd::slice::slice_subrange(raw, off, off + size as usize),
                );
                steam_xor(bytes.as_mut_slice(), key);
                payload = Some(bytes);
            }
        }
    }
    let mut drmp: Option<Vec<u8>> = None;
    if drmp_size > 0 {
        let drmp_rva = payload_rva + drmp_offset;
        proof {
            lemma_rva_index_found(secs, drmp_rva, 0);
        }
        if let Ok(off) = rva_to_file_offset(sections, drmp_rva) {
            assert(rva_file_offset(secs, drmp_rva) == Some(off as int));
            if off + drmp_size as usize <= len {
                let mut bytes = vstd::slice::slice_to_vec(
                    vstd::slice::slice_subrange(raw, off, off + drmp_size as usize),
                );
                steam_drmp_decrypt_pass1(bytes.as_mut_slice(), keys);
                drmp = Some(bytes);
            }
        }
    }
    (payload, drmp)
}

} // verus!
