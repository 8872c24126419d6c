//! The built-in unpacker plugins, one per SteamStub variant, and how each
//! recognises the loader code in the `.bind` section.
//!
//! Variant 2.0 (x86) is recognised by its argument loads
//! `8B 44 24 04 8B 4C 24 08 8B 54 24 0C`; variant 3.0 (x86) by the 3.x
//! loader start together with a header size of 0xB0 or 0xD0 read behind a
//! `... 68` prologue (at offset 16) or else a `... 8D 83` prologue (at
//! offset 22). Unpacking follows the stub header layouts in `headers`.
use crate::bytes::{le32, read_le32};
use crate::pattern::{find_pattern, opt_index, spec_find_pattern};
use crate::pe::file32::Pe32Section;
use crate::pe::sections::{first_named, geometries};
use crate::pe::{opt_bytes, PeFile};
use crate::unpackers::v1_v2::{
    pe32_unpack_v1_defined, pe32_unpack_v2_defined, spec_unpack_v1, spec_unpack_v2, spec_v1_drmp,
    spec_v1_payload, unpack_v1, unpack_v1_is_defined, unpack_v2, unpack_v2_is_defined, unpacked_as,
    V2HeaderKind,
};
use crate::unpackers::v3::{
    pe32_unpack_v3_defined, pe64_unpack_v3_defined, unpack_v3_32, unpack_v3_32_is_defined,
    unpack_v3_64, unpack_v3_64_is_defined, unpack_v3_result, V3HeaderKind,
};
use crate::unpackers::{UnpackedImage, UnpackerPlugin};
use vstd::prelude::*;

verus! {

/// The raw data of the first `.bind` section among `secs`.
pub open spec fn bind_section_data(secs: Seq<Pe32Section>) -> Option<Seq<u8>> {
    match first_named(secs, ".bind"@) {
        Some(i) => Some(secs[i].data@),
        None => None,
    }
}

/// The `.bind` data of `pe`, when `pe` has one and is a PE32+ image
/// exactly when `want64` holds.
pub open spec fn bind_of(pe: PeFile, want64: bool) -> Option<Seq<u8>> {
    match pe {
        PeFile::Pe32(f) => if want64 {
            None
        } else {
            bind_section_data(f.sections@)
        },
        PeFile::Pe64(f) => if want64 {
            bind_section_data(f.sections@)
        } else {
            None
        },
    }
}

/// The `.bind` data that a plugin for images of kind `want64` scans.
fn bind_data<'a>(pe: &'a PeFile, want64: bool) -> (r: Option<&'a [u8]>)
    ensures
        opt_bytes(r) == bind_of(*pe, want64),
{
    if pe.is_64bit() != want64 || !pe.has_section(".bind") {
        return None;
    }
    match pe {
        PeFile::Pe32(f) => match f.get_section(".bind") {
            Some(s) => Some(s.data.as_slice()),
            None => None,
        },
        PeFile::Pe64(f) => match f.get_section(".bind") {
            Some(s) => Some(s.data.as_slice()),
            None => None,
        },
    }
}

/// `pattern` occurs in `b`.
pub open spec fn found(b: Seq<u8>, pattern: Seq<char>) -> bool {
    spec_find_pattern(b, pattern) is Some
}

/// The magnitude of `w` read as a two's-complement `i32`.
pub open spec fn abs32(w: u32) -> u32 {
    if w < 0x8000_0000 {
        w
    } else {
        (0x1_0000_0000 - w) as u32
    }
}

/// The header-size word `p` bytes past the position `o` in `b`, when
/// there is a position and the word lies within `b`.
pub open spec fn size_word(b: Seq<u8>, o: Option<int>, p: int) -> Option<u32> {
    match o {
        Some(i) => if i + p + 4 <= b.len() {
            Some(le32(b, i + p))
        } else {
            None
        },
        None => None,
    }
}

/// A word read, if any, is not `i32::MIN`, whose magnitude `i32::abs`
/// cannot give.
pub open spec fn word_ok(w: Option<u32>) -> bool {
    !(w matches Some(x) && x == 0x8000_0000)
}

/// A word was read and its magnitude is a 3.0 header size.
pub open spec fn v30_size(w: Option<u32>) -> bool {
    w matches Some(x) && (abs32(x) == 0xB0 || abs32(x) == 0xD0)
}

/// A word was read and its magnitude is a 3.1 header size.
pub open spec fn v31_size(w: Option<u32>) -> bool {
    w matches Some(x) && (abs32(x) == 0xF0 || abs32(x) == 0xE8 || abs32(x) == 0xEC)
}

/// Reads the header-size word (see `size_word`).
fn read_size_word(b: &[u8], o: Option<usize>, p: usize) -> (r: Option<u32>)
    requires
        p <= 32,
    ensures
        r == size_word(b@, opt_index(o), p as int),
{
    match o {
        Some(i) => {
            let len = b.len();
            if i <= len && len - i >= p + 4 {
                Some(read_le32(b, i + p))
            } else {
                None
            }
        },
        None => None,
    }
}

/// The magnitude of `w` read as an `i32`.
fn abs_word(w: u32) -> (r: u32)
    requires
        w != 0x8000_0000,
    ensures
        r == abs32(w),
{
    if w < 0x8000_0000 {
        w
    } else {
        (0xFFFF_FFFFu32 - w) + 1
    }
}

/// Whether a word was read whose magnitude is a 3.0 header size.
fn is_v30_size(w: Option<u32>) -> (r: bool)
    requires
        word_ok(w),
    ensures
        r == v30_size(w),
{
    match w {
        Some(x) => {
            let a = abs_word(x);
            a == 0xB0 || a == 0xD0
        },
        None => false,
    }
}

/// Whether a word was read whose magnitude is a 3.1 header size.
fn is_v31_size(w: Option<u32>) -> (r: bool)
    requires
        word_ok(w),
    ensures
        r == v31_size(w),
{
    match w {
        Some(x) => {
            let a = abs_word(x);
            a == 0xF0 || a == 0xE8 || a == 0xEC
        },
        None => false,
    }
}

/// The start of the 3.x x86 loader.
pub open spec fn x86_loader_pattern() -> Seq<char> {
    "E8 00 00 00 00 50 53 51 52 56 57 55 8B 44 24 1C 2D 05 00 00 00 8B CC 83 E4 F0 51 51 51 50"@
}

/// The start of the 3.x x64 loader.
pub open spec fn x64_loader_pattern() -> Seq<char> {
    "E8 00 00 00 00 50 53 51 52 56 57 55 41 50"@
}

/// The header-size word that the 3.0 x86 plugin reads: behind the first
/// `... 68` prologue at offset 16, or else behind the first `... 8D 83`
/// prologue at offset 22.
pub open spec fn v30x86_word(b: Seq<u8>) -> Option<u32> {
    let a = spec_find_pattern(b, "55 8B EC 81 EC ?? ?? ?? ?? 53 ?? ?? ?? ?? ?? 68"@);
    if a is Some {
        size_word(b, a, 16)
    } else {
        size_word(b, spec_find_pattern(b, "55 8B EC 81 EC ?? ?? ?? ?? 53 ?? ?? ?? ?? ?? 8D 83"@), 22)
    }
}

/// The header-size word that the 3.0 x64 plugin reads.
pub open spec fn v30x64_word(b: Seq<u8>) -> Option<u32> {
    size_word(b, spec_find_pattern(b, "48 8D 91 ?? ?? ?? ?? 48"@), 3)
}

/// The three header-size words that the 3.1 x86 plugin tries, in order.
pub open spec fn v31x86_word(b: Seq<u8>, k: int) -> Option<u32> {
    if k == 0 {
        size_word(b, spec_find_pattern(b, "55 8B EC 81 EC ?? ?? ?? ?? 53 ?? ?? ?? ?? ?? 68"@), 0x10)
    } else if k == 1 {
        size_word(
            b,
            spec_find_pattern(b, "55 8B EC 81 EC ?? ?? ?? ?? 53 ?? ?? ?? ?? ?? 8D 83"@),
            0x16,
        )
    } else {
        size_word(
            b,
            spec_find_pattern(b, "55 8B EC 81 EC ?? ?? ?? ?? 56 ?? ?? ?? ?? ?? ?? ?? ?? ?? ?? 8D"@),
            0x10,
        )
    }
}

/// Where the 3.1 x64 plugin looks for the header size: behind the first
/// `lea rdx, [rcx + ...]` followed by `48`, else by `41`, else 5 bytes
/// into the first `mov qword [rsp + ...], ...` followed by `48`.
pub open spec fn v31x64_offset(b: Seq<u8>) -> Option<int> {
    let a = spec_find_pattern(b, "48 8D 91 ?? ?? ?? ?? 48"@);
    let c = spec_find_pattern(b, "48 8D 91 ?? ?? ?? ?? 41"@);
    if a is Some {
        a
    } else if c is Some {
        c
    } else {
        match spec_find_pattern(b, "48 C7 84 24 ?? ?? ?? ?? ?? ?? ?? ?? 48"@) {
            Some(o) => Some(o + 5),
            None => None,
        }
    }
}

/// The header-size word that the 3.1 x64 plugin reads.
pub open spec fn v31x64_word(b: Seq<u8>) -> Option<u32> {
    size_word(b, v31x64_offset(b), 3)
}

/// Reads the header-size word of the 3.0 x86 plugin (see `v30x86_word`).
fn read_v30x86_word(b: &[u8]) -> (r: Option<u32>)
    ensures
        r == v30x86_word(b@),
{
    let mut offset = find_pattern(b, "55 8B EC 81 EC ?? ?? ?? ?? 53 ?? ?? ?? ?? ?? 68");
    let mut p_val: usize = 16;
    if offset.is_none() {
        offset = find_pattern(b, "55 8B EC 81 EC ?? ?? ?? ?? 53 ?? ?? ?? ?? ?? 8D 83");
        p_val = 22;
    }
    read_size_word(b, offset, p_val)
}

/// Reads the header-size word of the 3.0 x64 plugin (see `v30x64_word`).
fn read_v30x64_word(b: &[u8]) -> (r: Option<u32>)
    ensures
        r == v30x64_word(b@),
{
    read_size_word(b, find_pattern(b, "48 8D 91 ?? ?? ?? ?? 48"), 3)
}

/// Reads the `k`-th header-size word of the 3.1 x86 plugin (see
/// `v31x86_word`).
fn read_v31x86_word(b: &[u8], k: usize) -> (r: Option<u32>)
    requires
        k < 3,
    ensures
        r == v31x86_word(b@, k as int),
{
    if k == 0 {
        read_size_word(b, find_pattern(b, "55 8B EC 81 EC ?? ?? ?? ?? 53 ?? ?? ?? ?? ?? 68"), 0x10)
    } else if k == 1 {
        read_size_word(
            b,
            find_pattern(b, "55 8B EC 81 EC ?? ?? ?? ?? 53 ?? ?? ?? ?? ?? 8D 83"),
            0x16,
        )
    } else {
        read_size_word(
            b,
            find_pattern(b, "55 8B EC 81 EC ?? ?? ?? ?? 56 ?? ?? ?? ?? ?? ?? ?? ?? ?? ?? 8D"),
            0x10,
        )
    }
}

/// Reads the header-size word of the 3.1 x64 plugin (see `v31x64_word`);
/// the word behind the `mov` form is read 8 bytes past its start.
fn read_v31x64_word(b: &[u8]) -> (r: Option<u32>)
    ensures
        r == v31x64_word(b@),
{
    let mut offset = find_pattern(b, "48 8D 91 ?? ?? ?? ?? 48");
    if offset.is_none() {
        offset = find_pattern(b, "48 8D 91 ?? ?? ?? ?? 41");
    }
    let mut p_val: usize = 3;
    if offset.is_none() {
        if let Some(off2) = find_pattern(b, "48 C7 84 24 ?? ?? ?? ?? ?? ?? ?? ?? 48") {
            offset = Some(off2);
            p_val = 8;
        }
    }
    read_size_word(b, offset, p_val)
}

/// The message for a PE32+ image handed to an x86 plugin.
pub open spec fn not_pe32_message() -> Seq<char> {
    "Not a 32-bit PE file"@
}

/// The message for a PE32 image handed to an x64 plugin.
pub open spec fn not_pe64_message() -> Seq<char> {
    "Not a 64-bit PE file"@
}

/// `r` is the error `msg`.
pub open spec fn fails_with(r: Result<UnpackedImage, String>, msg: Seq<char>) -> bool {
    r matches Err(e) && e@ == msg
}

/// SteamStub Variant 1.0 (x86) Unpacker Plugin.
pub struct Variant10x86;

impl UnpackerPlugin for Variant10x86 {
    open spec fn spec_name(&self) -> Seq<char> {
        "SteamStub Variant 1.0 Unpacker (x86)"@
    }

    open spec fn spec_version(&self) -> Seq<char> {
        "1.0.0"@
    }

    open spec fn spec_is_64bit(&self) -> bool {
        false
    }

    open spec fn accepts(&self, pe: PeFile) -> bool {
        bind_of(pe, false) matches Some(b) && found(
            b,
            "60 81 EC 00 10 00 00 BE ?? ?? ?? ?? B9 6A"@,
        )
    }

    open spec fn can_process_defined(&self, pe: PeFile) -> bool {
        true
    }

    open spec fn unpack_defined(&self, pe: PeFile) -> bool {
        pe matches PeFile::Pe32(f) ==> pe32_unpack_v1_defined(f)
    }

    open spec fn unpacked(&self, pe: PeFile, r: Result<UnpackedImage, String>) -> bool {
        match pe {
            PeFile::Pe32(f) => unpacked_as(
                r,
                spec_unpack_v1(
                    f.raw_data@,
                    f.sections@,
                    f.dos_header.e_lfanew as int,
                    f.file_header.size_of_optional_header as int,
                    f.entry_point,
                    f.image_base,
                ),
                spec_v1_payload(f.raw_data@, geometries(f.sections@), f.entry_point),
                spec_v1_drmp(f.raw_data@, geometries(f.sections@), f.entry_point),
            ),
            PeFile::Pe64(_) => fails_with(r, not_pe32_message()),
        }
    }

    fn name(&self) -> (r: &'static str) {
        "SteamStub Variant 1.0 Unpacker (x86)"
    }

    fn version(&self) -> (r: &'static str) {
        "1.0.0"
    }

    fn is_64bit(&self) -> (r: bool) {
        false
    }

    fn can_process(&self, pe: &PeFile) -> (r: bool) {
        match bind_data(pe, false) {
            Some(b) => find_pattern(b, "60 81 EC 00 10 00 00 BE ?? ?? ?? ?? B9 6A").is_some(),
            None => false,
        }
    }

    fn unpack(&self, pe: &PeFile) -> (r: Result<UnpackedImage, String>) {
        match pe {
            PeFile::Pe32(f) => unpack_v1(f),
            PeFile::Pe64(_) => Err("Not a 32-bit PE file".to_owned()),
        }
    }
}

/// The outcome of unpacking `pe` with a 2.x plugin of layout `kind`.
pub open spec fn v2_unpacked(kind: V2HeaderKind, pe: PeFile, r: Result<UnpackedImage, String>) -> bool {
    match pe {
        PeFile::Pe32(f) => unpacked_as(
            r,
            spec_unpack_v2(
                kind,
                f.raw_data@,
                f.sections@,
                f.dos_header.e_lfanew as int,
                f.file_header.size_of_optional_header as int,
                f.entry_point,
                f.image_base,
            ),
            None,
            None,
        ),
        PeFile::Pe64(_) => fails_with(r, not_pe32_message()),
    }
}

/// SteamStub Variant 2.0 (x86) Unpacker Plugin.
pub struct Variant20x86;

impl UnpackerPlugin for Variant20x86 {
    open spec fn spec_name(&self) -> Seq<char> {
        "SteamStub Variant 2.0 Unpacker (x86)"@
    }

    open spec fn spec_version(&self) -> Seq<char> {
        "2.0.0"@
    }

    open spec fn spec_is_64bit(&self) -> bool {
        false
    }

    open spec fn accepts(&self, pe: PeFile) -> bool {
        bind_of(pe, false) matches Some(b) && found(b, "8B 44 24 04 8B 4C 24 08 8B 54 24 0C"@)
    }

    open spec fn can_process_defined(&self, pe: PeFile) -> bool {
        true
    }

    open spec fn unpack_defined(&self, pe: PeFile) -> bool {
        pe matches PeFile::Pe32(f) ==> pe32_unpack_v2_defined(f, V2HeaderKind::Var20)
    }

    open spec fn unpacked(&self, pe: PeFile, r: Result<UnpackedImage, String>) -> bool {
        v2_unpacked(V2HeaderKind::Var20, pe, r)
    }

    fn name(&self) -> (r: &'static str) {
        "SteamStub Variant 2.0 Unpacker (x86)"
    }

    fn version(&self) -> (r: &'static str) {
        "2.0.0"
    }

    fn is_64bit(&self) -> (r: bool) {
        false
    }

    fn can_process(&self, pe: &PeFile) -> (r: bool) {
        match bind_data(pe, false) {
            Some(b) => find_pattern(b, "8B 44 24 04 8B 4C 24 08 8B 54 24 0C").is_some(),
            None => false,
        }
    }

    fn unpack(&self, pe: &PeFile) -> (r: Result<UnpackedImage, String>) {
        match pe {
            PeFile::Pe32(f) => unpack_v2(f, V2HeaderKind::Var20),
            PeFile::Pe64(_) => Err("Not a 32-bit PE file".to_owned()),
        }
    }
}

/// SteamStub Variant 2.1 (x86) Unpacker Plugin.
pub struct Variant21x86;

impl UnpackerPlugin for Variant21x86 {
    open spec fn spec_name(&self) -> Seq<char> {
        "SteamStub Variant 2.1 Unpacker (x86)"@
    }

    open spec fn spec_version(&self) -> Seq<char> {
        "2.1.0"@
    }

    open spec fn spec_is_64bit(&self) -> bool {
        false
    }

    open spec fn accepts(&self, pe: PeFile) -> bool {
        bind_of(pe, false) matches Some(b) && found(
            b,
            "55 8B EC 81 EC ?? ?? ?? ?? 53 56 57 8D 7D"@,
        )
    }

    open spec fn can_process_defined(&self, pe: PeFile) -> bool {
        true
    }

    open spec fn unpack_defined(&self, pe: PeFile) -> bool {
        pe matches PeFile::Pe32(f) ==> pe32_unpack_v2_defined(f, V2HeaderKind::Var21)
    }

    open spec fn unpacked(&self, pe: PeFile, r: Result<UnpackedImage, String>) -> bool {
        v2_unpacked(V2HeaderKind::Var21, pe, r)
    }

    fn name(&self) -> (r: &'static str) {
        "SteamStub Variant 2.1 Unpacker (x86)"
    }

    fn version(&self) -> (r: &'static str) {
        "2.1.0"
    }

    fn is_64bit(&self) -> (r: bool) {
        false
    }

    fn can_process(&self, pe: &PeFile) -> (r: bool) {
        match bind_data(pe, false) {
            Some(b) => find_pattern(b, "55 8B EC 81 EC ?? ?? ?? ?? 53 56 57 8D 7D").is_some(),
            None => false,
        }
    }

    fn unpack(&self, pe: &PeFile) -> (r: Result<UnpackedImage, String>) {
        match pe {
            PeFile::Pe32(f) => unpack_v2(f, V2HeaderKind::Var21),
            PeFile::Pe64(_) => Err("Not a 32-bit PE file".to_owned()),
        }
    }
}

/// The outcome of unpacking `pe` with the x86 3.x plugin of layout `kind`.
pub open spec fn v3_32_unpacked(kind: V3HeaderKind, pe: PeFile, r: Result<UnpackedImage, String>) -> bool {
    match pe {
        PeFile::Pe32(f) => unpack_v3_result(
            r,
            kind,
            f.raw_data@,
            f.sections@,
            f.dos_header.e_lfanew as int,
            f.file_header.size_of_optional_header as int,
            f.entry_point,
            f.image_base as u64,
            false,
            seq![],
        ),
        PeFile::Pe64(_) => fails_with(r, not_pe32_message()),
    }
}

/// The outcome of unpacking `pe` with the x64 3.x plugin of layout `kind`.
pub open spec fn v3_64_unpacked(kind: V3HeaderKind, pe: PeFile, r: Result<UnpackedImage, String>) -> bool {
    match pe {
        PeFile::Pe64(f) => unpack_v3_result(
            r,
            kind,
            f.raw_data@,
            f.sections@,
            f.dos_header.e_lfanew as int,
            f.file_header.size_of_optional_header as int,
            f.entry_point,
            f.image_base,
            true,
            f.tls_callbacks@,
        ),
        PeFile::Pe32(_) => fails_with(r, not_pe64_message()),
    }
}

/// SteamStub Variant 3.0 (x86) Unpacker Plugin.
pub struct Variant30x86;

impl UnpackerPlugin for Variant30x86 {
    open spec fn spec_name(&self) -> Seq<char> {
        "SteamStub Variant 3.0 Unpacker (x86)"@
    }

    open spec fn spec_version(&self) -> Seq<char> {
        "3.0.0"@
    }

    open spec fn spec_is_64bit(&self) -> bool {
        false
    }

    open spec fn accepts(&self, pe: PeFile) -> bool {
        bind_of(pe, false) matches Some(b) && found(b, x86_loader_pattern()) && v30_size(
            v30x86_word(b),
        )
    }

    open spec fn can_process_defined(&self, pe: PeFile) -> bool {
        match bind_of(pe, false) {
            Some(b) => found(b, x86_loader_pattern()) ==> word_ok(v30x86_word(b)),
            None => true,
        }
    }

    open spec fn unpack_defined(&self, pe: PeFile) -> bool {
        pe matches PeFile::Pe32(f) ==> pe32_unpack_v3_defined(f, V3HeaderKind::Var30x86)
    }

    open spec fn unpacked(&self, pe: PeFile, r: Result<UnpackedImage, String>) -> bool {
        v3_32_unpacked(V3HeaderKind::Var30x86, pe, r)
    }

    fn name(&self) -> (r: &'static str) {
        "SteamStub Variant 3.0 Unpacker (x86)"
    }

    fn version(&self) -> (r: &'static str) {
        "3.0.0"
    }

    fn is_64bit(&self) -> (r: bool) {
        false
    }

    fn can_process(&self, pe: &PeFile) -> (r: bool) {
        let b = match bind_data(pe, false) {
            Some(b) => b,
            None => return false,
        };
        if find_pattern(
            b,
            "E8 00 00 00 00 50 53 51 52 56 57 55 8B 44 24 1C 2D 05 00 00 00 8B CC 83 E4 F0 51 51 51 50",
        ).is_none() {
            return false;
        }
        is_v30_size(read_v30x86_word(b))
    }

    fn unpack(&self, pe: &PeFile) -> (r: Result<UnpackedImage, String>) {
        match pe {
            PeFile::Pe32(f) => unpack_v3_32(f, V3HeaderKind::Var30x86),
            PeFile::Pe64(_) => Err("Not a 32-bit PE file".to_owned()),
        }
    }
}

/// SteamStub Variant 3.0 (x64) Unpacker Plugin.
pub struct Variant30x64;

impl UnpackerPlugin for Variant30x64 {
    open spec fn spec_name(&self) -> Seq<char> {
        "SteamStub Variant 3.0 Unpacker (x64)"@
    }

    open spec fn spec_version(&self) -> Seq<char> {
        "3.0.0"@
    }

    open spec fn spec_is_64bit(&self) -> bool {
        true
    }

    open spec fn accepts(&self, pe: PeFile) -> bool {
        bind_of(pe, true) matches Some(b) && found(b, x64_loader_pattern()) && v30_size(
            v30x64_word(b),
        )
    }

    open spec fn can_process_defined(&self, pe: PeFile) -> bool {
        match bind_of(pe, true) {
            Some(b) => found(b, x64_loader_pattern()) ==> word_ok(v30x64_word(b)),
            None => true,
        }
    }

    open spec fn unpack_defined(&self, pe: PeFile) -> bool {
        pe matches PeFile::Pe64(f) ==> pe64_unpack_v3_defined(f, V3HeaderKind::Var30x64)
    }

    open spec fn unpacked(&self, pe: PeFile, r: Result<UnpackedImage, String>) -> bool {
        v3_64_unpacked(V3HeaderKind::Var30x64, pe, r)
    }

    fn name(&self) -> (r: &'static str) {
        "SteamStub Variant 3.0 Unpacker (x64)"
    }

    fn version(&self) -> (r: &'static str) {
        "3.0.0"
    }

    fn is_64bit(&self) -> (r: bool) {
        true
    }

    fn can_process(&self, pe: &PeFile) -> (r: bool) {
        let b = match bind_data(pe, true) {
            Some(b) => b,
            None => return false,
        };
        if find_pattern(b, "E8 00 00 00 00 50 53 51 52 56 57 55 41 50").is_none() {
            return false;
        }
        is_v30_size(read_v30x64_word(b))
    }

    fn unpack(&self, pe: &PeFile) -> (r: Result<UnpackedImage, String>) {
        match pe {
            PeFile::Pe64(f) => unpack_v3_64(f, V3HeaderKind::Var30x64),
            PeFile::Pe32(_) => Err("Not a 64-bit PE file".to_owned()),
        }
    }
}

/// The 3.1 x86 plugin finds a 3.1 header size among its three words,
/// trying them in order from the `k`-th.
pub open spec fn v31x86_accepts_from(b: Seq<u8>, k: int) -> bool
    decreases 3 - k,
{
    if k < 0 || k >= 3 {
        false
    } else {
        v31_size(v31x86_word(b, k)) || v31x86_accepts_from(b, k + 1)
    }
}

/// The 3.1 x86 plugin reads no `i32::MIN` word before it finds a match,
/// trying its words in order from the `k`-th.
pub open spec fn v31x86_defined_from(b: Seq<u8>, k: int) -> bool
    decreases 3 - k,
{
    if k < 0 || k >= 3 {
        true
    } else {
        word_ok(v31x86_word(b, k)) && (v31_size(v31x86_word(b, k)) || v31x86_defined_from(b, k + 1))
    }
}

/// SteamStub Variant 3.1 (x86) Unpacker Plugin.
pub struct Variant31x86;

impl UnpackerPlugin for Variant31x86 {
    open spec fn spec_name(&self) -> Seq<char> {
        "SteamStub Variant 3.1 Unpacker (x86)"@
    }

    open spec fn spec_version(&self) -> Seq<char> {
        "3.1.0"@
    }

    open spec fn spec_is_64bit(&self) -> bool {
        false
    }

    open spec fn accepts(&self, pe: PeFile) -> bool {
        bind_of(pe, false) matches Some(b) && found(b, x86_loader_pattern()) && v31x86_accepts_from(
            b,
            0,
        )
    }

    open spec fn can_process_defined(&self, pe: PeFile) -> bool {
        match bind_of(pe, false) {
            Some(b) => found(b, x86_loader_pattern()) ==> v31x86_defined_from(b, 0),
            None => true,
        }
    }

    open spec fn unpack_defined(&self, pe: PeFile) -> bool {
        pe matches PeFile::Pe32(f) ==> pe32_unpack_v3_defined(f, V3HeaderKind::Var31x86)
    }

    open spec fn unpacked(&self, pe: PeFile, r: Result<UnpackedImage, String>) -> bool {
        v3_32_unpacked(V3HeaderKind::Var31x86, pe, r)
    }

    fn name(&self) -> (r: &'static str) {
        "SteamStub Variant 3.1 Unpacker (x86)"
    }

    fn version(&self) -> (r: &'static str) {
        "3.1.0"
    }

    fn is_64bit(&self) -> (r: bool) {
        false
    }

    fn can_process(&self, pe: &PeFile) -> (r: bool) {
        let b = match bind_data(pe, false) {
            Some(b) => b,
            None => return false,
        };
        if find_pattern(
            b,
            "E8 00 00 00 00 50 53 51 52 56 57 55 8B 44 24 1C 2D 05 00 00 00 8B CC 83 E4 F0 51 51 51 50",
        ).is_none() {
            return false;
        }
        let mut k: usize = 0;
        while k < 3
            invariant
                k <= 3,
                bind_of(*pe, false) == Some(b@),
                found(b@, x86_loader_pattern()),
                v31x86_defined_from(b@, k as int),
                v31x86_accepts_from(b@, 0) == v31x86_accepts_from(b@, k as int),
            decreases 3 - k,
        {
            if is_v31_size(read_v31x86_word(b, k)) {
                return true;
            }
            k = k + 1;
        }
        false
    }

    fn unpack(&self, pe: &PeFile) -> (r: Result<UnpackedImage, String>) {
        match pe {
            PeFile::Pe32(f) => unpack_v3_32(f, V3HeaderKind::Var31x86),
            PeFile::Pe64(_) => Err("Not a 32-bit PE file".to_owned()),
        }
    }
}

/// SteamStub Variant 3.1 (x64) Unpacker Plugin.
pub struct Variant31x64;

impl UnpackerPlugin for Variant31x64 {
    open spec fn spec_name(&self) -> Seq<char> {
        "SteamStub Variant 3.1 Unpacker (x64)"@
    }

    open spec fn spec_version(&self) -> Seq<char> {
        "3.1.0"@
    }

    open spec fn spec_is_64bit(&self) -> bool {
        true
    }

    open spec fn accepts(&self, pe: PeFile) -> bool {
        bind_of(pe, true) matches Some(b) && found(b, x64_loader_pattern()) && v31_size(
            v31x64_word(b),
        )
    }

    open spec fn can_process_defined(&self, pe: PeFile) -> bool {
        match bind_of(pe, true) {
            Some(b) => found(b, x64_loader_pattern()) ==> word_ok(v31x64_word(b)),
            None => true,
        }
    }

    open spec fn unpack_defined(&self, pe: PeFile) -> bool {
        pe matches PeFile::Pe64(f) ==> pe64_unpack_v3_defined(f, V3HeaderKind::Var31x64)
    }

    open spec fn unpacked(&self, pe: PeFile, r: Result<UnpackedImage, String>) -> bool {
        v3_64_unpacked(V3HeaderKind::Var31x64, pe, r)
    }

    fn name(&self) -> (r: &'static str) {
        "SteamStub Variant 3.1 Unpacker (x64)"
    }

    fn version(&self) -> (r: &'static str) {
        "3.1.0"
    }

    fn is_64bit(&self) -> (r: bool) {
        true
    }

    fn can_process(&self, pe: &PeFile) -> (r: bool) {
        let b = match bind_data(pe, true) {
            Some(b) => b,
            None => return false,
        };
        if find_pattern(b, "E8 00 00 00 00 50 53 51 52 56 57 55 41 50").is_none() {
            return false;
        }
        is_v31_size(read_v31x64_word(b))
    }

    fn unpack(&self, pe: &PeFile) -> (r: Result<UnpackedImage, String>) {
        match pe {
            PeFile::Pe64(f) => unpack_v3_64(f, V3HeaderKind::Var31x64),
            PeFile::Pe32(_) => Err("Not a 64-bit PE file".to_owned()),
        }
    }
}

/// One of the built-in plugins; it behaves as the plugin of the same
/// name.
#[derive(Debug, Clone, Copy, PartialEq, Eq, Structural)]
pub enum BuiltinPlugin {
    /// `Variant10x86`.
    Variant10x86,
    /// `Variant20x86`.
    Variant20x86,
    /// `Variant21x86`.
    Variant21x86,
    /// `Variant30x86`.
    Variant30x86,
    /// `Variant30x64`.
    Variant30x64,
    /// `Variant31x86`.
    Variant31x86,
    /// `Variant31x64`.
    Variant31x64,
}

impl UnpackerPlugin for BuiltinPlugin {
    open spec fn spec_name(&self) -> Seq<char> {
        match self {
            BuiltinPlugin::Variant10x86 => Variant10x86.spec_name(),
            BuiltinPlugin::Variant20x86 => Variant20x86.spec_name(),
            BuiltinPlugin::Variant21x86 => Variant21x86.spec_name(),
            BuiltinPlugin::Variant30x86 => Variant30x86.spec_name(),
            BuiltinPlugin::Variant30x64 => Variant30x64.spec_name(),
            BuiltinPlugin::Variant31x86 => Variant31x86.spec_name(),
            BuiltinPlugin::Variant31x64 => Variant31x64.spec_name(),
        }
    }

    open spec fn spec_version(&self) -> Seq<char> {
        match self {
            BuiltinPlugin::Variant10x86 => Variant10x86.spec_version(),
            BuiltinPlugin::Variant20x86 => Variant20x86.spec_version(),
            BuiltinPlugin::Variant21x86 => Variant21x86.spec_version(),
            BuiltinPlugin::Variant30x86 => Variant30x86.spec_version(),
            BuiltinPlugin::Variant30x64 => Variant30x64.spec_version(),
            BuiltinPlugin::Variant31x86 => Variant31x86.spec_version(),
            BuiltinPlugin::Variant31x64 => Variant31x64.spec_version(),
        }
    }

    open spec fn spec_is_64bit(&self) -> bool {
        match self {
            BuiltinPlugin::Variant10x86 => Variant10x86.spec_is_64bit(),
            BuiltinPlugin::Variant20x86 => Variant20x86.spec_is_64bit(),
            BuiltinPlugin::Variant21x86 => Variant21x86.spec_is_64bit(),
            BuiltinPlugin::Variant30x86 => Variant30x86.spec_is_64bit(),
            BuiltinPlugin::Variant30x64 => Variant30x64.spec_is_64bit(),
            BuiltinPlugin::Variant31x86 => Variant31x86.spec_is_64bit(),
            BuiltinPlugin::Variant31x64 => Variant31x64.spec_is_64bit(),
        }
    }

    open spec fn accepts(&self, pe: PeFile) -> bool {
        match self {
            BuiltinPlugin::Variant10x86 => Variant10x86.accepts(pe),
            BuiltinPlugin::Variant20x86 => Variant20x86.accepts(pe),
            BuiltinPlugin::Variant21x86 => Variant21x86.accepts(pe),
            BuiltinPlugin::Variant30x86 => Variant30x86.accepts(pe),
            BuiltinPlugin::Variant30x64 => Variant30x64.accepts(pe),
            BuiltinPlugin::Variant31x86 => Variant31x86.accepts(pe),
            BuiltinPlugin::Variant31x64 => Variant31x64.accepts(pe),
        }
    }

    open spec fn can_process_defined(&self, pe: PeFile) -> bool {
        match self {
            BuiltinPlugin::Variant10x86 => Variant10x86.can_process_defined(pe),
            BuiltinPlugin::Variant20x86 => Variant20x86.can_process_defined(pe),
            BuiltinPlugin::Variant21x86 => Variant21x86.can_process_defined(pe),
            BuiltinPlugin::Variant30x86 => Variant30x86.can_process_defined(pe),
            BuiltinPlugin::Variant30x64 => Variant30x64.can_process_defined(pe),
            BuiltinPlugin::Variant31x86 => Variant31x86.can_process_defined(pe),
            BuiltinPlugin::Variant31x64 => Variant31x64.can_process_defined(pe),
        }
    }

    open spec fn unpack_defined(&self, pe: PeFile) -> bool {
        match self {
            BuiltinPlugin::Variant10x86 => Variant10x86.unpack_defined(pe),
            BuiltinPlugin::Variant20x86 => Variant20x86.unpack_defined(pe),
            BuiltinPlugin::Variant21x86 => Variant21x86.unpack_defined(pe),
            BuiltinPlugin::Variant30x86 => Variant30x86.unpack_defined(pe),
            BuiltinPlugin::Variant30x64 => Variant30x64.unpack_defined(pe),
            BuiltinPlugin::Variant31x86 => Variant31x86.unpack_defined(pe),
            BuiltinPlugin::Variant31x64 => Variant31x64.unpack_defined(pe),
        }
    }

    open spec fn unpacked(&self, pe: PeFile, r: Result<UnpackedImage, String>) -> bool {
        match self {
            BuiltinPlugin::Variant10x86 => Variant10x86.unpacked(pe, r),
            BuiltinPlugin::Variant20x86 => Variant20x86.unpacked(pe, r),
            BuiltinPlugin::Variant21x86 => Variant21x86.unpacked(pe, r),
            BuiltinPlugin::Variant30x86 => Variant30x86.unpacked(pe, r),
            BuiltinPlugin::Variant30x64 => Variant30x64.unpacked(pe, r),
            BuiltinPlugin::Variant31x86 => Variant31x86.unpacked(pe, r),
            BuiltinPlugin::Variant31x64 => Variant31x64.unpacked(pe, r),
        }
    }

    fn name(&self) -> (r: &'static str) {
        match self {
            BuiltinPlugin::Variant10x86 => Variant10x86.name(),
            BuiltinPlugin::Variant20x86 => Variant20x86.name(),
            BuiltinPlugin::Variant21x86 => Variant21x86.name(),
            BuiltinPlugin::Variant30x86 => Variant30x86.name(),
            BuiltinPlugin::Variant30x64 => Variant30x64.name(),
            BuiltinPlugin::Variant31x86 => Variant31x86.name(),
            BuiltinPlugin::Variant31x64 => Variant31x64.name(),
        }
    }

    fn version(&self) -> (r: &'static str) {
        match self {
            BuiltinPlugin::Variant10x86 => Variant10x86.version(),
            BuiltinPlugin::Variant20x86 => Variant20x86.version(),
            BuiltinPlugin::Variant21x86 => Variant21x86.version(),
            BuiltinPlugin::Variant30x86 => Variant30x86.version(),
            BuiltinPlugin::Variant30x64 => Variant30x64.version(),
            BuiltinPlugin::Variant31x86 => Variant31x86.version(),
            BuiltinPlugin::Variant31x64 => Variant31x64.version(),
        }
    }

    fn is_64bit(&self) -> (r: bool) {
        match self {
            BuiltinPlugin::Variant10x86 => Variant10x86.is_64bit(),
            BuiltinPlugin::Variant20x86 => Variant20x86.is_64bit(),
            BuiltinPlugin::Variant21x86 => Variant21x86.is_64bit(),
            BuiltinPlugin::Variant30x86 => Variant30x86.is_64bit(),
            BuiltinPlugin::Variant30x64 => Variant30x64.is_64bit(),
            BuiltinPlugin::Variant31x86 => Variant31x86.is_64bit(),
            BuiltinPlugin::Variant31x64 => Variant31x64.is_64bit(),
        }
    }

    fn can_process(&self, pe: &PeFile) -> (r: bool) {
        match self {
            BuiltinPlugin::Variant10x86 => Variant10x86.can_process(pe),
            BuiltinPlugin::Variant20x86 => Variant20x86.can_process(pe),
            BuiltinPlugin::Variant21x86 => Variant21x86.can_process(pe),
            BuiltinPlugin::Variant30x86 => Variant30x86.can_process(pe),
            BuiltinPlugin::Variant30x64 => Variant30x64.can_process(pe),
            BuiltinPlugin::Variant31x86 => Variant31x86.can_process(pe),
            BuiltinPlugin::Variant31x64 => Variant31x64.can_process(pe),
        }
    }

    fn unpack(&self, pe: &PeFile) -> (r: Result<UnpackedImage, String>) {
        match self {
            BuiltinPlugin::Variant10x86 => Variant10x86.unpack(pe),
            BuiltinPlugin::Variant20x86 => Variant20x86.unpack(pe),
            BuiltinPlugin::Variant21x86 => Variant21x86.unpack(pe),
            BuiltinPlugin::Variant30x86 => Variant30x86.unpack(pe),
            BuiltinPlugin::Variant30x64 => Variant30x64.unpack(pe),
            BuiltinPlugin::Variant31x86 => Variant31x86.unpack(pe),
            BuiltinPlugin::Variant31x64 => Variant31x64.unpack(pe),
        }
    }
}

/// Whether a word read, if any, is not `i32::MIN`.
fn word_is_ok(w: Option<u32>) -> (r: bool)
    ensures
        r == word_ok(w),
{
    match w {
        Some(x) => x != 0x8000_0000,
        None => true,
    }
}

impl BuiltinPlugin {
    /// Whether unpacking `pe` with this plugin is defined (see
    /// `unpack_defined`).
    pub fn unpack_is_defined(&self, pe: &PeFile) -> (r: bool)
        ensures
            r == self.unpack_defined(*pe),
    {
        match (self, pe) {
            (BuiltinPlugin::Variant10x86, PeFile::Pe32(f)) => unpack_v1_is_defined(f),
            (BuiltinPlugin::Variant20x86, PeFile::Pe32(f)) => unpack_v2_is_defined(f, V2HeaderKind::Var20),
            (BuiltinPlugin::Variant21x86, PeFile::Pe32(f)) => unpack_v2_is_defined(f, V2HeaderKind::Var21),
            (BuiltinPlugin::Variant30x86, PeFile::Pe32(f)) => unpack_v3_32_is_defined(
                f,
                V3HeaderKind::Var30x86,
            ),
            (BuiltinPlugin::Variant31x86, PeFile::Pe32(f)) => unpack_v3_32_is_defined(
                f,
                V3HeaderKind::Var31x86,
            ),
            (BuiltinPlugin::Variant30x64, PeFile::Pe64(f)) => unpack_v3_64_is_defined(
                f,
                V3HeaderKind::Var30x64,
            ),
            (BuiltinPlugin::Variant31x64, PeFile::Pe64(f)) => unpack_v3_64_is_defined(
                f,
                V3HeaderKind::Var31x64,
            ),
            _ => true,
        }
    }

    /// Whether asking this plugin if it recognises `pe` is defined (see
    /// `can_process_defined`): no header-size word that it reads is
    /// `i32::MIN`.
    pub fn can_process_is_defined(&self, pe: &PeFile) -> (r: bool)
        ensures
            r == self.can_process_defined(*pe),
    {
        let (want64, loader) = match self {
            BuiltinPlugin::Variant10x86 => return true,
            BuiltinPlugin::Variant20x86 => return true,
            BuiltinPlugin::Variant21x86 => return true,
            BuiltinPlugin::Variant30x86 => (false, "E8 00 00 00 00 50 53 51 52 56 57 55 8B 44 24 1C 2D 05 00 00 00 8B CC 83 E4 F0 51 51 51 50"),
            BuiltinPlugin::Variant31x86 => (false, "E8 00 00 00 00 50 53 51 52 56 57 55 8B 44 24 1C 2D 05 00 00 00 8B CC 83 E4 F0 51 51 51 50"),
            BuiltinPlugin::Variant30x64 => (true, "E8 00 00 00 00 50 53 51 52 56 57 55 41 50"),
            BuiltinPlugin::Variant31x64 => (true, "E8 00 00 00 00 50 53 51 52 56 57 55 41 50"),
        };
        let b = match bind_data(pe, want64) {
            Some(b) => b,
            None => return true,
        };
        if find_pattern(b, loader).is_none() {
            return true;
        }
        match self {
            BuiltinPlugin::Variant30x86 => word_is_ok(read_v30x86_word(b)),
            BuiltinPlugin::Variant30x64 => word_is_ok(read_v30x64_word(b)),
            BuiltinPlugin::Variant31x64 => word_is_ok(read_v31x64_word(b)),
            _ => {
                let mut k: usize = 0;
                while k < 3
                    invariant
                        k <= 3,
                        *self == BuiltinPlugin::Variant31x86,
                        bind_of(*pe, false) == Some(b@),
                        found(b@, x86_loader_pattern()),
                        v31x86_defined_from(b@, 0) == v31x86_defined_from(b@, k as int),
                    decreases 3 - k,
                {
                    let w = read_v31x86_word(b, k);
                    if !word_is_ok(w) {
                        return false;
                    }
                    if is_v31_size(w) {
                        return true;
                    }
                    k = k + 1;
                }
                true
            },
        }
    }
}

/// A built-in plugin recognises only images of its own kind: PE32+
/// images for the x64 plugins, PE32 images for the x86 ones.
pub proof fn law_builtin_bitness(plugin: BuiltinPlugin, pe: PeFile)
    ensures
        plugin.accepts(pe) ==> (pe is Pe64) == plugin.spec_is_64bit(),
{
}


/// The 3.0 x86 plugin recognises a PE32 image exactly when its `.bind`
/// data holds the 3.x x86 loader and a header size of 0xB0 or 0xD0 (or
/// their negations, as `i32`): read 16 bytes into the first `... 68`
/// prologue, or, when there is none, 22 bytes into the first `... 8D 83`
/// prologue.
pub proof fn law_variant30x86_accepts(pe: PeFile)
    ensures
        Variant30x86.accepts(pe) <==> match bind_of(pe, false) {
            Some(b) => found(b, "E8 00 00 00 00 50 53 51 52 56 57 55 8B 44 24 1C 2D 05 00 00 00 8B CC 83 E4 F0 51 51 51 50"@) && match spec_find_pattern(b, "55 8B EC 81 EC ?? ?? ?? ?? 53 ?? ?? ?? ?? ?? 68"@) {
                Some(o) => o + 16 + 4 <= b.len() && (le32(b, o + 16) == 0xB0u32 || le32(b, o + 16) == 0xD0u32 || le32(b, o + 16) == 0xFFFF_FF50u32 || le32(b, o + 16) == 0xFFFF_FF30u32),
                None => match spec_find_pattern(b, "55 8B EC 81 EC ?? ?? ?? ?? 53 ?? ?? ?? ?? ?? 8D 83"@) {
                    Some(o) => o + 22 + 4 <= b.len() && (le32(b, o + 22) == 0xB0u32 || le32(b, o + 22) == 0xD0u32 || le32(b, o + 22) == 0xFFFF_FF50u32 || le32(b, o + 22) == 0xFFFF_FF30u32),
                    None => false,
                },
            },
            None => false,
        },
{
}

/// The 3.0 x64 plugin recognises a PE32+ image exactly when its `.bind`
/// data holds the 3.x x64 loader and a header size of 0xB0 or 0xD0 (or
/// their negations) 3 bytes into the first `lea rdx, [rcx + ...]`
/// followed by `48`.
pub proof fn law_variant30x64_accepts(pe: PeFile)
    ensures
        Variant30x64.accepts(pe) <==> match bind_of(pe, true) {
            Some(b) => found(b, "E8 00 00 00 00 50 53 51 52 56 57 55 41 50"@) && match spec_find_pattern(b, "48 8D 91 ?? ?? ?? ?? 48"@) {
                Some(o) => o + 3 + 4 <= b.len() && (le32(b, o + 3) == 0xB0u32 || le32(b, o + 3) == 0xD0u32 || le32(b, o + 3) == 0xFFFF_FF50u32 || le32(b, o + 3) == 0xFFFF_FF30u32),
                None => false,
            },
            None => false,
        },
{
}

/// The 3.1 x86 plugin recognises a PE32 image exactly when its `.bind`
/// data holds the 3.x x86 loader and a header size of 0xF0, 0xE8 or 0xEC
/// (or their negations) lies 0x10 bytes into the first `... 68`
/// prologue, 0x16 bytes into the first `... 8D 83` prologue, or 0x10
/// bytes into the first `... 56 ... 8D` prologue.
pub proof fn law_variant31x86_accepts(pe: PeFile)
    ensures
        Variant31x86.accepts(pe) <==> match bind_of(pe, false) {
            Some(b) => found(b, "E8 00 00 00 00 50 53 51 52 56 57 55 8B 44 24 1C 2D 05 00 00 00 8B CC 83 E4 F0 51 51 51 50"@) && ((match spec_find_pattern(b, "55 8B EC 81 EC ?? ?? ?? ?? 53 ?? ?? ?? ?? ?? 68"@) {
                Some(o) => o + 0x10 + 4 <= b.len() && (le32(b, o + 0x10) == 0xF0u32 || le32(b, o + 0x10) == 0xE8u32 || le32(b, o + 0x10) == 0xECu32 || le32(b, o + 0x10) == 0xFFFF_FF10u32 || le32(b, o + 0x10) == 0xFFFF_FF18u32 || le32(b, o + 0x10) == 0xFFFF_FF14u32),
                None => false,
            }) || (match spec_find_pattern(b, "55 8B EC 81 EC ?? ?? ?? ?? 53 ?? ?? ?? ?? ?? 8D 83"@) {
                Some(o) => o + 0x16 + 4 <= b.len() && (le32(b, o + 0x16) == 0xF0u32 || le32(b, o + 0x16) == 0xE8u32 || le32(b, o + 0x16) == 0xECu32 || le32(b, o + 0x16) == 0xFFFF_FF10u32 || le32(b, o + 0x16) == 0xFFFF_FF18u32 || le32(b, o + 0x16) == 0xFFFF_FF14u32),
                None => false,
            }) || (match spec_find_pattern(b, "55 8B EC 81 EC ?? ?? ?? ?? 56 ?? ?? ?? ?? ?? ?? ?? ?? ?? ?? 8D"@) {
                Some(o) => o + 0x10 + 4 <= b.len() && (le32(b, o + 0x10) == 0xF0u32 || le32(b, o + 0x10) == 0xE8u32 || le32(b, o + 0x10) == 0xECu32 || le32(b, o + 0x10) == 0xFFFF_FF10u32 || le32(b, o + 0x10) == 0xFFFF_FF18u32 || le32(b, o + 0x10) == 0xFFFF_FF14u32),
                None => false,
            })),
            None => false,
        },
{
    reveal_with_fuel(v31x86_accepts_from, 4);
}

/// The 3.1 x64 plugin recognises a PE32+ image exactly when its `.bind`
/// data holds the 3.x x64 loader and a header size of 0xF0, 0xE8 or 0xEC
/// (or their negations) lies 3 bytes into the first `lea rdx, [rcx + ...]`
/// followed by `48`, else followed by `41`, else 8 bytes into the first
/// `mov qword [rsp + ...], ...` followed by `48`.
pub proof fn law_variant31x64_accepts(pe: PeFile)
    ensures
        Variant31x64.accepts(pe) <==> match bind_of(pe, true) {
            Some(b) => found(b, "E8 00 00 00 00 50 53 51 52 56 57 55 41 50"@) && match spec_find_pattern(b, "48 8D 91 ?? ?? ?? ?? 48"@) {
                Some(o) => o + 3 + 4 <= b.len() && (le32(b, o + 3) == 0xF0u32 || le32(b, o + 3) == 0xE8u32 || le32(b, o + 3) == 0xECu32 || le32(b, o + 3) == 0xFFFF_FF10u32 || le32(b, o + 3) == 0xFFFF_FF18u32 || le32(b, o + 3) == 0xFFFF_FF14u32),
                None => match spec_find_pattern(b, "48 8D 91 ?? ?? ?? ?? 41"@) {
                    Some(o) => o + 3 + 4 <= b.len() && (le32(b, o + 3) == 0xF0u32 || le32(b, o + 3) == 0xE8u32 || le32(b, o + 3) == 0xECu32 || le32(b, o + 3) == 0xFFFF_FF10u32 || le32(b, o + 3) == 0xFFFF_FF18u32 || le32(b, o + 3) == 0xFFFF_FF14u32),
                    None => match spec_find_pattern(b, "48 C7 84 24 ?? ?? ?? ?? ?? ?? ?? ?? 48"@) {
                        Some(o) => o + 8 + 4 <= b.len() && (le32(b, o + 8) == 0xF0u32 || le32(b, o + 8) == 0xE8u32 || le32(b, o + 8) == 0xECu32 || le32(b, o + 8) == 0xFFFF_FF10u32 || le32(b, o + 8) == 0xFFFF_FF18u32 || le32(b, o + 8) == 0xFFFF_FF14u32),
                        None => false,
                    },
                },
            },
            None => false,
        },
{
}


/// The 1.0, 2.0 and 2.1 x86 plugins recognise a PE32 image exactly when
/// its `.bind` data holds, respectively, the 1.0 loader
/// `60 81 EC 00 10 00 00 BE ?? ?? ?? ?? B9 6A`, the 2.0 argument loads
/// `8B 44 24 04 8B 4C 24 08 8B 54 24 0C`, or the 2.1 prologue
/// `55 8B EC 81 EC ?? ?? ?? ?? 53 56 57 8D 7D`; none of them recognises a
/// PE32+ image.
pub proof fn law_variant1x_2x_accepts(pe: PeFile)
    ensures
        Variant10x86.accepts(pe) <==> match pe {
            PeFile::Pe32(f) => match bind_section_data(f.sections@) {
                Some(b) => spec_find_pattern(b, "60 81 EC 00 10 00 00 BE ?? ?? ?? ?? B9 6A"@) is Some,
                None => false,
            },
            PeFile::Pe64(_) => false,
        },
        Variant20x86.accepts(pe) <==> match pe {
            PeFile::Pe32(f) => match bind_section_data(f.sections@) {
                Some(b) => spec_find_pattern(b, "8B 44 24 04 8B 4C 24 08 8B 54 24 0C"@) is Some,
                None => false,
            },
            PeFile::Pe64(_) => false,
        },
        Variant21x86.accepts(pe) <==> match pe {
            PeFile::Pe32(f) => match bind_section_data(f.sections@) {
                Some(b) => spec_find_pattern(b, "55 8B EC 81 EC ?? ?? ?? ?? 53 56 57 8D 7D"@) is Some,
                None => false,
            },
            PeFile::Pe64(_) => false,
        },
{
}

} // verus!
