use aes::cipher::block_padding::NoPadding;
use aes::cipher::{BlockEncrypt, BlockEncryptMut, KeyInit, KeyIvInit};
use aes::Aes256;
use steamless_core::crypto::{steam_drmp_decrypt_pass1, steam_xor};
use steamless_core::pe::{
    compute_pe_checksum, rebuild_image, rebuild_is_defined, strip_section_header, Pe32File, Pe64File,
    PeFile,
};
use steamless_core::unpackers::variants::{
    BuiltinPlugin, Variant10x86, Variant20x86, Variant21x86, Variant30x64, Variant30x86,
    Variant31x64, Variant31x86,
};
use steamless_core::unpackers::headers::{
    SteamStub32Var30Header, SteamStub32Var31Header, SteamStub64Var30Header, SteamStub64Var31Header,
};
use steamless_core::unpackers::{UnpackerPlugin, UnpackerRegistry};

const OPT: usize = 0x98;
const FILE_HEADER: usize = 0x84;

struct Sec {
    name: &'static str,
    va: u32,
    vsize: u32,
    raw: u32,
    raw_size: u32,
}

fn put16(d: &mut [u8], off: usize, v: u16) {
    d[off..off + 2].copy_from_slice(&v.to_le_bytes());
}

fn put32(d: &mut [u8], off: usize, v: u32) {
    d[off..off + 4].copy_from_slice(&v.to_le_bytes());
}

fn put64(d: &mut [u8], off: usize, v: u64) {
    d[off..off + 8].copy_from_slice(&v.to_le_bytes());
}

fn get32(d: &[u8], off: usize) -> u32 {
    u32::from_le_bytes(d[off..off + 4].try_into().unwrap())
}

fn section_table(pe64: bool) -> usize {
    OPT + if pe64 { 0xF0 } else { 0xE0 }
}

fn build_image(pe64: bool, sections: &[Sec], ep: u32, image_base: u64, total_len: usize) -> Vec<u8> {
    let mut d = vec![0u8; total_len];
    d[0] = b'M';
    d[1] = b'Z';
    put32(&mut d, 60, 0x80);
    d[0x80..0x84].copy_from_slice(b"PE\0\0");
    put16(&mut d, FILE_HEADER, if pe64 { 0x8664 } else { 0x14C });
    put16(&mut d, FILE_HEADER + 2, sections.len() as u16);
    put16(&mut d, FILE_HEADER + 16, if pe64 { 0xF0 } else { 0xE0 });
    put16(&mut d, OPT, if pe64 { 0x20B } else { 0x10B });
    put32(&mut d, OPT + 16, ep);
    put32(&mut d, OPT + 20, 0x1000);
    if pe64 {
        put64(&mut d, OPT + 24, image_base);
        put32(&mut d, OPT + 108, 16);
    } else {
        put32(&mut d, OPT + 28, image_base as u32);
        put32(&mut d, OPT + 92, 16);
    }
    let sho = section_table(pe64);
    for (k, s) in sections.iter().enumerate() {
        let h = sho + 40 * k;
        d[h..h + s.name.len()].copy_from_slice(s.name.as_bytes());
        put32(&mut d, h + 8, s.vsize);
        put32(&mut d, h + 12, s.va);
        put32(&mut d, h + 16, s.raw_size);
        put32(&mut d, h + 20, s.raw);
    }
    d
}

/// Stores `words` so that SteamStub XOR decoding with a zero key gives them
/// back; returns the chaining key after them.
fn encode_header(d: &mut [u8], off: usize, words: &[u32]) -> u32 {
    let mut prev = 0u32;
    for (i, w) in words.iter().enumerate() {
        let stored = if i == 0 { *w } else { *w ^ prev };
        put32(d, off + 4 * i, stored);
        prev = stored;
    }
    prev
}

/// Stores `words` so that SteamStub XOR decoding with `key` gives them back.
fn encode_with_key(d: &mut [u8], off: usize, words: &[u32], key: u32) {
    let mut prev = key;
    for (i, w) in words.iter().enumerate() {
        let stored = *w ^ prev;
        put32(d, off + 4 * i, stored);
        prev = stored;
    }
}

fn pe_checksum_oracle(d: &[u8], off: usize) -> u32 {
    let mut d = d.to_vec();
    d[off..off + 4].fill(0);
    let mut sum: u64 = 0;
    let mut i = 0;
    while i + 1 < d.len() {
        sum = (sum + u16::from_le_bytes([d[i], d[i + 1]]) as u64) & 0xFFFF_FFFF;
        i += 2;
    }
    if i < d.len() {
        sum = (sum + d[i] as u64) & 0xFFFF_FFFF;
    }
    sum = (sum & 0xFFFF) + (sum >> 16);
    sum += sum >> 16;
    sum &= 0xFFFF;
    (sum + d.len() as u64) as u32
}

fn place(d: &mut [u8], off: usize, bytes: &[u8]) {
    d[off..off + bytes.len()].copy_from_slice(bytes);
}

const V10_CODE: [u8; 14] = [0x60, 0x81, 0xEC, 0x00, 0x10, 0x00, 0x00, 0xBE, 1, 2, 3, 4, 0xB9, 0x6A];
const V20_CODE: [u8; 12] = [0x8B, 0x44, 0x24, 0x04, 0x8B, 0x4C, 0x24, 0x08, 0x8B, 0x54, 0x24, 0x0C];
const V21_CODE: [u8; 14] = [0x55, 0x8B, 0xEC, 0x81, 0xEC, 9, 9, 9, 9, 0x53, 0x56, 0x57, 0x8D, 0x7D];
const X86_LOADER: [u8; 30] = [
    0xE8, 0x00, 0x00, 0x00, 0x00, 0x50, 0x53, 0x51, 0x52, 0x56, 0x57, 0x55, 0x8B, 0x44, 0x24, 0x1C,
    0x2D, 0x05, 0x00, 0x00, 0x00, 0x8B, 0xCC, 0x83, 0xE4, 0xF0, 0x51, 0x51, 0x51, 0x50,
];
const X64_LOADER: [u8; 14] = [0xE8, 0x00, 0x00, 0x00, 0x00, 0x50, 0x53, 0x51, 0x52, 0x56, 0x57, 0x55, 0x41, 0x50];

fn two_section_pe32(bind_size: u32) -> Vec<u8> {
    build_image(
        false,
        &[
            Sec { name: ".text", va: 0x1000, vsize: 0x200, raw: 0x200, raw_size: 0x200 },
            Sec { name: ".bind", va: 0x2000, vsize: bind_size, raw: 0x400, raw_size: bind_size },
        ],
        0x2100,
        0x40_0000,
        0x400 + bind_size as usize,
    )
}

fn two_section_pe64() -> Vec<u8> {
    build_image(
        true,
        &[
            Sec { name: ".text", va: 0x1000, vsize: 0x200, raw: 0x200, raw_size: 0x200 },
            Sec { name: ".bind", va: 0x2000, vsize: 0x400, raw: 0x400, raw_size: 0x400 },
        ],
        0x2100,
        0x1_4000_0000,
        0x800,
    )
}

fn parse(d: &[u8]) -> PeFile {
    PeFile::parse(d).unwrap()
}

#[test]
fn parse_pe32_fields_and_sections() {
    let d = two_section_pe32(0x400);
    let f = Pe32File::parse(&d).unwrap();
    assert_eq!(f.entry_point, 0x2100);
    assert_eq!(f.image_base, 0x40_0000);
    assert_eq!(f.sections.len(), 2);
    assert!(f.has_section(".bind"));
    assert!(!f.has_section(".rsrc"));
    assert!(!f.has_section(".bin"));
    assert!(!f.has_section(".BIND"));
    assert!(!f.has_section(".bind "));
    assert!(f.get_section("").is_none());
    assert!(f.has_section(".text"));
    let bind = f.get_section(".bind").unwrap();
    assert_eq!(bind.header.virtual_address, 0x2000);
    assert_eq!(bind.data.len(), 0x400);
    assert_eq!(f.get_file_offset_from_rva(0x2100), Ok(0x500));
    assert_eq!(f.get_rva_from_va(0x40_2100), 0x2100);
    assert_eq!(f.get_rva_from_va(0x2100), 0x2100);
    assert_eq!(f.get_owner_section_index(0x40_1010), Some(0));
    assert_eq!(f.get_owner_section_index(0x2010), Some(1));
    assert_eq!(f.get_owner_section_index(0x9000), None);
    let i = f.get_owner_section_index(0x40_2010).unwrap();
    let h = &f.sections[i].header;
    assert_eq!(
        f.get_file_offset_from_rva(0x2010),
        Ok(h.pointer_to_raw_data as usize + (0x2010 - h.virtual_address) as usize)
    );
}

#[test]
fn rva_outside_sections_is_an_error() {
    let d = two_section_pe32(0x400);
    let f = Pe32File::parse(&d).unwrap();
    assert_eq!(f.get_file_offset_from_rva(0x9000), Err("RVA 0x00009000 not found in any section".to_string()));
}

#[test]
fn parse_pe64_and_kind_selection() {
    let d = two_section_pe64();
    assert_eq!(Pe32File::parse(&d).err(), Some("Not a PE32 32-bit executable".to_string()));
    let f = Pe64File::parse(&d).unwrap();
    assert_eq!(f.image_base, 0x1_4000_0000);
    assert_eq!(f.get_rva_from_va(0x1_4000_2100), 0x2100);
    assert!(f.tls_callbacks.is_empty());
    let pe = parse(&d);
    assert!(pe.is_64bit());
    assert_eq!(pe.entry_point(), 0x2100);
    assert_eq!(pe.image_base(), 0x1_4000_0000);
    assert!(pe.has_section(".text"));
    let pe32 = parse(&two_section_pe32(0x400));
    assert!(!pe32.is_64bit());
    assert_eq!(pe32.image_base(), 0x40_0000);
}

#[test]
fn parse_errors() {
    assert_eq!(PeFile::parse(&[0u8; 10]).err(), Some("Failed to parse file as PE32 or PE32+".to_string()));
    assert_eq!(Pe32File::parse(&[0u8; 10]).err(), Some("File too small for DOS header".to_string()));
    let mut d = two_section_pe32(0x400);
    d[0] = b'X';
    assert_eq!(Pe32File::parse(&d).err(), Some("Invalid DOS signature".to_string()));
    let mut d = two_section_pe32(0x400);
    put32(&mut d, 60, 0x7FFF_0000);
    assert_eq!(Pe32File::parse(&d).err(), Some("Invalid e_lfanew offset".to_string()));
    let mut d = two_section_pe32(0x400);
    d[0x81] = b'X';
    assert_eq!(Pe32File::parse(&d).err(), Some("Invalid PE signature".to_string()));
    let d = two_section_pe32(0x400);
    assert_eq!(Pe64File::parse(&d).err(), Some("Not a PE32+ 64-bit executable".to_string()));
}

#[test]
fn section_names_trim_nuls() {
    let mut d = two_section_pe32(0x400);
    let h = section_table(false) + 40;
    d[h..h + 8].copy_from_slice(b"\0.bind\0\0");
    let f = Pe32File::parse(&d).unwrap();
    assert!(f.has_section(".bind"));
}

#[test]
fn checksum_matches_oracle_and_is_idempotent() {
    let mut d: Vec<u8> = (0..1001u32).map(|i| (i * 7 + 3) as u8).collect();
    let expected = pe_checksum_oracle(&d, 100);
    compute_pe_checksum(&mut d, 100);
    assert_eq!(get32(&d, 100), expected);
    let once = d.clone();
    compute_pe_checksum(&mut d, 100);
    assert_eq!(d, once);
}

#[test]
fn checksum_exact_small_value() {
    let mut d = vec![0x01, 0x00, 0x02, 0x00, 0xAA, 0xBB, 0xCC, 0xDD, 0x03];
    compute_pe_checksum(&mut d, 4);
    assert_eq!(get32(&d, 4), 0x0000_000F);
}

#[test]
fn checksum_field_out_of_range_leaves_data() {
    let mut d = vec![1u8, 2, 3];
    compute_pe_checksum(&mut d, 2);
    assert_eq!(d, vec![1, 2, 3]);
}

#[test]
fn strip_section_header_moves_later_headers() {
    let mut d = vec![0u8; 200];
    put16(&mut d, 2, 3);
    for k in 0..3u8 {
        d[40 + 10 * k as usize..50 + 10 * k as usize].fill(k + 1);
    }
    d[150..160].fill(0xEE);
    strip_section_header(&mut d, 0, 40, 3, 1, 10, 150, 10);
    assert_eq!(u16::from_le_bytes([d[2], d[3]]), 2);
    assert!(d[40..50].iter().all(|&b| b == 1));
    assert!(d[50..60].iter().all(|&b| b == 3));
    assert!(d[60..70].iter().all(|&b| b == 0));
    assert!(d[150..160].iter().all(|&b| b == 0));
}

fn v10_image(payload_size: u32, drmp_size: u32, signature: u32) -> (Vec<u8>, u32) {
    let mut d = two_section_pe32(0x400);
    place(&mut d, 0x500, &V10_CODE);
    let words = [
        0x1122_3344,
        signature,
        0x40_0000,
        0x2100,
        0x100,
        0x40_1000,
        payload_size,
        0x40,
        drmp_size,
        480,
        0,
    ];
    let key = encode_header(&mut d, 0x500 - 0x2C, &words);
    (d, key)
}

#[test]
fn registry_lists_seven_variants_in_order() {
    let registry = UnpackerRegistry::new();
    let list = registry.list_plugins();
    let expected = vec![
        ("SteamStub Variant 1.0 Unpacker (x86)", "1.0.0", false),
        ("SteamStub Variant 2.0 Unpacker (x86)", "2.0.0", false),
        ("SteamStub Variant 2.1 Unpacker (x86)", "2.1.0", false),
        ("SteamStub Variant 3.0 Unpacker (x86)", "3.0.0", false),
        ("SteamStub Variant 3.0 Unpacker (x64)", "3.0.0", true),
        ("SteamStub Variant 3.1 Unpacker (x86)", "3.1.0", false),
        ("SteamStub Variant 3.1 Unpacker (x64)", "3.1.0", true),
    ];
    assert_eq!(list, expected);
}

#[test]
fn registry_register_appends() {
    let mut registry = UnpackerRegistry::new();
    registry.register(BuiltinPlugin::Variant10x86);
    let list = registry.list_plugins();
    assert_eq!(list.len(), 8);
    assert_eq!(list[7].0, "SteamStub Variant 1.0 Unpacker (x86)");
}

#[test]
fn registry_finds_nothing_without_bind() {
    let d = build_image(
        false,
        &[Sec { name: ".text", va: 0x1000, vsize: 0x200, raw: 0x200, raw_size: 0x200 }],
        0x1000,
        0x40_0000,
        0x400,
    );
    let pe = parse(&d);
    assert!(UnpackerRegistry::new().find_unpacker(&pe).is_none());
}

#[test]
fn registry_first_match_wins_after_register() {
    let (d, _) = v10_image(0, 0, 0xC0DE_C0DF);
    let pe = parse(&d);
    let mut registry = UnpackerRegistry::new();
    registry.register(BuiltinPlugin::Variant20x86);
    let found = registry.find_unpacker(&pe).unwrap();
    assert_eq!(*found, BuiltinPlugin::Variant10x86);
}

#[test]
fn variant10_recognised_and_unpacked() {
    let (mut d, key) = v10_image(0x20, 0x10, 0xC0DE_C0DF);
    let plain: Vec<u32> = (0..8).map(|i| 0x0101_0101 * (i + 1)).collect();
    encode_with_key(&mut d, 0x400, &plain, key);
    let drmp_raw: Vec<u8> = (0..16u8).map(|b| b ^ 0x5A).collect();
    place(&mut d, 0x440, &drmp_raw);
    let pe = parse(&d);
    let registry = UnpackerRegistry::new();
    let plugin = registry.find_unpacker(&pe).unwrap();
    assert_eq!(plugin.name(), "SteamStub Variant 1.0 Unpacker (x86)");
    assert!(Variant10x86.can_process(&pe));
    assert!(!Variant20x86.can_process(&pe));
    let out = plugin.unpack(&pe).unwrap();
    assert_eq!(out.original_entry_point, 0x40_1000);
    assert_eq!(out.steam_app_id, 480);
    let payload = out.payload.clone().unwrap();
    let expected_payload: Vec<u8> = plain.iter().flat_map(|w| w.to_le_bytes()).collect();
    assert_eq!(payload, expected_payload);
    let mut expected_drmp = drmp_raw.clone();
    steam_drmp_decrypt_pass1(&mut expected_drmp, &[0; 4]);
    assert_eq!(out.drmp_dll.clone().unwrap(), expected_drmp);
    let img = out.data;
    assert_eq!(img.len(), d.len());
    assert_eq!(get32(&img, OPT + 16), 0x1000);
    assert_eq!(u16::from_le_bytes([img[FILE_HEADER + 2], img[FILE_HEADER + 3]]), 1);
    let last = section_table(false) + 40;
    assert!(img[last..last + 40].iter().all(|&b| b == 0));
    assert!(img[0x400..0x800].iter().all(|&b| b == 0));
    assert_eq!(&img[0x200..0x400], &d[0x200..0x400]);
    assert_eq!(get32(&img, OPT + 64), pe_checksum_oracle(&img, OPT + 64));
}

#[test]
fn variant10_without_payload_gives_none() {
    let (d, _) = v10_image(0, 0, 0xC0DE_C0DF);
    let out = Variant10x86.unpack(&parse(&d)).unwrap();
    assert!(out.payload.is_none());
    assert!(out.drmp_dll.is_none());
}

#[test]
fn variant10_bad_signature() {
    let (d, _) = v10_image(0, 0, 0x1234_5678);
    let err = Variant10x86.unpack(&parse(&d)).err().unwrap();
    assert_eq!(err, "Invalid SteamStub v1.0 header signature: 0x12345678");
}

#[test]
fn variant10_entry_point_too_close_to_start() {
    let mut d = build_image(
        false,
        &[Sec { name: ".bind", va: 0x1000, vsize: 0x200, raw: 0x10, raw_size: 0x200 }],
        0x1010,
        0x40_0000,
        0x400,
    );
    place(&mut d, 0x20, &V10_CODE);
    let err = Variant10x86.unpack(&parse(&d)).err().unwrap();
    assert_eq!(err, "Entry point file offset too small for SteamStub v1.0 header");
}

#[test]
fn variant10_entry_point_outside_sections() {
    let mut d = two_section_pe32(0x400);
    put32(&mut d, OPT + 16, 0x9000);
    let err = Variant10x86.unpack(&parse(&d)).err().unwrap();
    assert_eq!(err, "RVA 0x00009000 not found in any section");
}

#[test]
fn x86_plugins_refuse_pe64() {
    let pe = parse(&two_section_pe64());
    assert_eq!(Variant10x86.unpack(&pe).err().unwrap(), "Not a 32-bit PE file");
    assert_eq!(Variant20x86.unpack(&pe).err().unwrap(), "Not a 32-bit PE file");
    assert_eq!(Variant31x86.unpack(&pe).err().unwrap(), "Not a 32-bit PE file");
    assert!(!Variant10x86.can_process(&pe));
    let pe32 = parse(&two_section_pe32(0x400));
    assert_eq!(Variant31x64.unpack(&pe32).err().unwrap(), "Not a 64-bit PE file");
    assert_eq!(Variant30x64.unpack(&pe32).err().unwrap(), "Not a 64-bit PE file");
}

fn v2_image(code_key: u32, v21: bool) -> (Vec<u8>, Vec<u32>, u32) {
    let mut d = two_section_pe32(0x800);
    place(&mut d, 0x780, if v21 { &V21_CODE[..] } else { &V20_CODE[..] });
    put32(&mut d, OPT + 16, 0x2380);
    let size = if v21 { 884 } else { 856 };
    let mut words = vec![0u32; size / 4];
    words[0] = 0xA5A5_0001;
    let shift = if v21 { 1 } else { 0 };
    words[10 + shift] = 0x40_1000;
    words[11 + shift] = 0x40_1000;
    words[13 + shift] = code_key;
    words[14 + shift] = 730;
    let header_key = encode_header(&mut d, 0x780 - size, &words);
    let plain: Vec<u32> = (0..128u32).map(|i| i.wrapping_mul(0x0102_0304)).collect();
    let key = if code_key != 0 { code_key } else { header_key };
    encode_with_key(&mut d, 0x200, &plain, key);
    (d, plain, header_key)
}

#[test]
fn variant20_decodes_code_with_its_key() {
    let (d, plain, _) = v2_image(0x0BAD_CAFE, false);
    let pe = parse(&d);
    let plugin = UnpackerRegistry::new().find_unpacker(&pe).unwrap().clone();
    assert_eq!(plugin, BuiltinPlugin::Variant20x86);
    let out = plugin.unpack(&pe).unwrap();
    assert_eq!(out.original_entry_point, 0x40_1000);
    assert_eq!(out.steam_app_id, 730);
    assert!(out.payload.is_none());
    let expected: Vec<u8> = plain.iter().flat_map(|w| w.to_le_bytes()).collect();
    assert_eq!(&out.data[0x200..0x400], &expected[..]);
    assert_eq!(get32(&out.data, OPT + 16), 0x1000);
    assert_eq!(get32(&out.data, OPT + 64), pe_checksum_oracle(&out.data, OPT + 64));
}

#[test]
fn variant21_falls_back_to_header_key() {
    let (d, plain, _) = v2_image(0, true);
    let pe = parse(&d);
    assert!(Variant21x86.can_process(&pe));
    let out = Variant21x86.unpack(&pe).unwrap();
    assert_eq!(out.steam_app_id, 730);
    let expected: Vec<u8> = plain.iter().flat_map(|w| w.to_le_bytes()).collect();
    assert_eq!(&out.data[0x200..0x400], &expected[..]);
}

#[test]
fn variant2_entry_point_too_close_to_start() {
    let d = build_image(
        false,
        &[Sec { name: ".bind", va: 0x2000, vsize: 0x400, raw: 0x200, raw_size: 0x400 }],
        0x2140,
        0x40_0000,
        0x600,
    );
    let pe = parse(&d);
    assert_eq!(
        Variant20x86.unpack(&pe).err().unwrap(),
        "Entry point file offset too small for SteamStub v2.0 header"
    );
    assert_eq!(
        Variant21x86.unpack(&pe).err().unwrap(),
        "Entry point file offset too small for SteamStub v2.1 header"
    );
}

fn v31_x86_image(size_word: u32, signature: u32) -> Vec<u8> {
    v3_x86_image(size_word, signature, 6)
}

/// A 3.x x86 image whose header record starts at word `h` of the
/// 0x100-byte window in front of the entry point.
fn v3_x86_image(size_word: u32, signature: u32, h: usize) -> Vec<u8> {
    let mut d = two_section_pe32(0x400);
    place(&mut d, 0x500, &X86_LOADER);
    let mut prologue = vec![0x55, 0x8B, 0xEC, 0x81, 0xEC, 0, 0, 0, 0, 0x53, 0, 0, 0, 0, 0, 0x68];
    prologue.extend_from_slice(&size_word.to_le_bytes());
    place(&mut d, 0x600, &prologue);
    let mut words = vec![0u32; 64];
    words[0] = 0x7777_0000;
    words[h + 1] = signature;
    words[h + 7] = 0x40_1000;
    words[h + 12] = 570;
    words[h + 13] = 1;
    encode_header(&mut d, 0x500 - 0x100, &words);
    d
}

#[test]
fn variant31_x86_recognised_and_unpacked_without_code_decryption() {
    let d = v31_x86_image(0xE8, 0xC0DE_C0DF);
    let pe = parse(&d);
    let plugin = UnpackerRegistry::new().find_unpacker(&pe).unwrap().clone();
    assert_eq!(plugin, BuiltinPlugin::Variant31x86);
    assert!(!Variant30x86.can_process(&pe));
    let out = plugin.unpack(&pe).unwrap();
    assert_eq!(out.original_entry_point, 0x40_1000);
    assert_eq!(out.steam_app_id, 570);
    assert_eq!(&out.data[0x200..0x400], &d[0x200..0x400]);
    assert_eq!(get32(&out.data, OPT + 16), 0x1000);
}

#[test]
fn variant31_x86_negative_size_word_counts_by_magnitude() {
    let d = v31_x86_image(0u32.wrapping_sub(0xEC), 0xC0DE_C0DF);
    assert!(Variant31x86.can_process(&parse(&d)));
    let d = v31_x86_image(0x100, 0xC0DE_C0DF);
    assert!(!Variant31x86.can_process(&parse(&d)));
}

#[test]
fn variant31_x86_bad_signature() {
    let d = v31_x86_image(0xE8, 0xDEAD_BEEF);
    let err = Variant31x86.unpack(&parse(&d)).err().unwrap();
    assert_eq!(err, "Invalid SteamStub DRM header signature: 0xDEADBEEF");
}

#[test]
fn variant30_x86_recognised_and_unpacked() {
    let mut d = v3_x86_image(0xB0, 0xC0DE_C0DF, 20);
    assert!(Variant30x86.can_process(&parse(&d)));
    put32(&mut d, 0x600 + 16, 0xD0);
    let pe = parse(&d);
    let plugin = UnpackerRegistry::new().find_unpacker(&pe).unwrap().clone();
    assert_eq!(plugin, BuiltinPlugin::Variant30x86);
    let out = plugin.unpack(&pe).unwrap();
    assert_eq!(out.original_entry_point, 0x40_1000);
    assert_eq!(out.steam_app_id, 570);
    assert_eq!(get32(&out.data, OPT + 16), 0x1000);
    assert_eq!(get32(&out.data, OPT + 64), pe_checksum_oracle(&out.data, OPT + 64));
}

fn v31_x64_image(with_tls: bool) -> Vec<u8> {
    v3_x64_image(with_tls, 0xF0, 4)
}

/// A 3.x x64 image whose loader gives header size `size` and whose
/// header record starts at word `h` of the window.
fn v3_x64_image(with_tls: bool, size: u8, h: usize) -> Vec<u8> {
    let mut d = two_section_pe64();
    place(&mut d, 0x500, &X64_LOADER);
    place(&mut d, 0x7C0, &[0x48, 0x8D, 0x91, size, 0x00, 0x00, 0x00, 0x48]);
    let mut words = vec![0u32; 64];
    words[0] = 0x1357_0000;
    words[h + 1] = 0xC0DE_C0DE;
    words[h + 8] = 0x4000_1000;
    words[h + 9] = 0x1;
    words[h + 14] = 440;
    words[h + 15] = 1;
    if with_tls {
        encode_header(&mut d, 0x700 - 0x100, &words);
        put32(&mut d, OPT + 184, 0x2300);
        put64(&mut d, 0x700 + 24, 0x1_4000_2320);
        put64(&mut d, 0x720, 0x1_4000_2300);
    } else {
        encode_header(&mut d, 0x500 - 0x100, &words);
    }
    d
}

#[test]
fn variant31_x64_recognised_and_unpacked() {
    let d = v31_x64_image(false);
    let pe = parse(&d);
    let plugin = UnpackerRegistry::new().find_unpacker(&pe).unwrap().clone();
    assert_eq!(plugin, BuiltinPlugin::Variant31x64);
    assert!(plugin.is_64bit());
    let out = plugin.unpack(&pe).unwrap();
    assert_eq!(out.original_entry_point, 0x1_4000_1000);
    assert_eq!(out.steam_app_id, 440);
    assert_eq!(get32(&out.data, OPT + 16), 0x1000);
    assert_eq!(get32(&out.data, OPT + 64), pe_checksum_oracle(&out.data, OPT + 64));
}

#[test]
fn variant31_x64_finds_header_through_tls_callback() {
    let d = v31_x64_image(true);
    let pe = parse(&d);
    match &pe {
        PeFile::Pe64(f) => assert_eq!(f.tls_callbacks, vec![0x1_4000_2300]),
        _ => panic!("expected a PE32+ image"),
    }
    let out = Variant31x64.unpack(&pe).unwrap();
    assert_eq!(out.steam_app_id, 440);
}

#[test]
fn variant30_x64_recognised_and_unpacked() {
    let d = v3_x64_image(false, 0xD0, 12);
    let pe = parse(&d);
    assert!(Variant30x64.can_process(&pe));
    assert!(!Variant31x64.can_process(&pe));
    let plugin = UnpackerRegistry::new().find_unpacker(&pe).unwrap().clone();
    assert_eq!(plugin, BuiltinPlugin::Variant30x64);
    let out = plugin.unpack(&pe).unwrap();
    assert_eq!(out.original_entry_point, 0x1_4000_1000);
    assert_eq!(out.steam_app_id, 440);
    assert_eq!(get32(&out.data, OPT + 16), 0x1000);
}

#[test]
fn variant30_x64_entry_point_window_too_short() {
    let mut d = v3_x64_image(false, 0xD0, 12);
    put32(&mut d, OPT + 16, 0x2000);
    put32(&mut d, section_table(true) + 40 + 20, 0x80);
    let pe = parse(&d);
    assert_eq!(
        Variant30x64.unpack(&pe).err().unwrap(),
        "Data too small for SteamStub64Var30Header"
    );
}

#[test]
fn header_sizes_follow_documentation() {
    assert!(SteamStub32Var30Header::parse(&[0u8; 0xB0]).is_ok());
    assert_eq!(
        SteamStub32Var30Header::parse(&[0u8; 0xAF]).err().unwrap(),
        "Data too small for SteamStub32Var30Header"
    );
    assert!(SteamStub64Var30Header::parse(&[0u8; 0xD0]).is_ok());
    assert_eq!(
        SteamStub64Var30Header::parse(&[0u8; 0xCF]).err().unwrap(),
        "Data too small for SteamStub64Var30Header"
    );
    assert!(SteamStub32Var31Header::parse(&[0u8; 0xE8]).is_ok());
    assert_eq!(
        SteamStub32Var31Header::parse(&[0u8; 0xCC]).err().unwrap(),
        "Data too small for SteamStub32Var31Header"
    );
    assert!(SteamStub64Var31Header::parse(&[0u8; 0xF0]).is_ok());
    assert!(SteamStub64Var31Header::parse(&[0u8; 0xEF]).is_err());
    let mut d = [0u8; 0xB0];
    d[4..8].copy_from_slice(&0xC0DE_C0DFu32.to_le_bytes());
    d[0xAC..0xB0].copy_from_slice(&7u32.to_le_bytes());
    let h = SteamStub32Var30Header::parse(&d).unwrap();
    assert_eq!(h.signature, 0xC0DE_C0DF);
    assert_eq!(h.unknown0003[5], 7);
}

#[test]
fn parse_is_defined_on_well_formed_images() {
    assert!(PeFile::parse_is_defined(&two_section_pe32(0x400)));
    assert!(PeFile::parse_is_defined(&two_section_pe64()));
    assert!(PeFile::parse_is_defined(&[0u8; 10]));
}

#[test]
fn parse_is_not_defined_for_lfanew_just_below_zero() {
    let mut d = two_section_pe32(0x400);
    put32(&mut d, 60, 0xFFFF_FFFE);
    assert!(!PeFile::parse_is_defined(&d));
    put32(&mut d, 60, 0xFFFF_FF00);
    assert!(PeFile::parse_is_defined(&d));
    assert_eq!(PeFile::parse(&d).err(), Some("Failed to parse file as PE32 or PE32+".to_string()));
}

#[test]
fn find_is_not_defined_for_min_size_word() {
    let d = v31_x86_image(0x8000_0000, 0xC0DE_C0DF);
    let pe = parse(&d);
    let registry = UnpackerRegistry::new();
    assert!(!registry.find_is_defined(&pe));
    assert!(!BuiltinPlugin::Variant31x86.can_process_is_defined(&pe));
    assert!(!BuiltinPlugin::Variant30x86.can_process_is_defined(&pe));
    assert!(BuiltinPlugin::Variant10x86.can_process_is_defined(&pe));
    let d = v31_x86_image(0xE8, 0xC0DE_C0DF);
    assert!(registry.find_is_defined(&parse(&d)));
}

#[test]
fn unpack_is_defined_checks_section_bounds() {
    let (d, _) = v10_image(0, 0, 0xC0DE_C0DF);
    let pe = parse(&d);
    assert!(BuiltinPlugin::Variant10x86.unpack_is_defined(&pe));
    assert!(BuiltinPlugin::Variant31x64.unpack_is_defined(&pe));
    let mut d = d;
    let h = section_table(false);
    put32(&mut d, h + 8, 0xFFFF_FFFF);
    let pe = parse(&d);
    assert!(!BuiltinPlugin::Variant10x86.unpack_is_defined(&pe));
}

#[test]
fn section_names_read_lossily() {
    let mut d = two_section_pe32(0x400);
    let h = section_table(false);
    d[h..h + 8].copy_from_slice(b"\xFF.text\0\0");
    let f = Pe32File::parse(&d).unwrap();
    assert!(f.has_section("\u{FFFD}.text"));
    assert!(!f.has_section(".text"));
}

#[test]
fn x64_plugins_refuse_pe32() {
    let mut d = two_section_pe32(0x400);
    place(&mut d, 0x500, &X64_LOADER);
    place(&mut d, 0x600, &[0x48, 0x8D, 0x91, 0xF0, 0x00, 0x00, 0x00, 0x48]);
    let pe = parse(&d);
    assert!(!Variant31x64.can_process(&pe));
    assert!(!Variant30x64.can_process(&pe));
    assert!(UnpackerRegistry::new().find_unpacker(&pe).is_none());
}

#[test]
fn variant31_x64_alternative_size_locations() {
    let mut d = v31_x64_image(false);
    place(&mut d, 0x7C0, &[0x48, 0x8D, 0x91, 0xE8, 0x00, 0x00, 0x00, 0x41]);
    assert!(Variant31x64.can_process(&parse(&d)));
    let mut d = v31_x64_image(false);
    place(&mut d, 0x7C0, &[0x48, 0xC7, 0x84, 0x24, 0, 0, 0, 0, 0xEC, 0, 0, 0, 0x48]);
    assert!(Variant31x64.can_process(&parse(&d)));
}

fn words_of(bytes: &[u8]) -> Vec<u32> {
    bytes.chunks(4).map(|c| u32::from_le_bytes(c.try_into().unwrap())).collect()
}

#[test]
fn variant31_x86_decrypts_code_section() {
    let key: Vec<u8> = (0u8..32).map(|b| b.wrapping_mul(7).wrapping_add(1)).collect();
    let iv_real: Vec<u8> = (0u8..16).map(|b| b ^ 0xA5).collect();
    let mut iv_stored = aes::Block::clone_from_slice(&iv_real);
    Aes256::new(aes::cipher::generic_array::GenericArray::from_slice(&key)).encrypt_block(&mut iv_stored);
    let plain: Vec<u8> = (0..0x210u32).map(|i| (i * 13 + 5) as u8).collect();
    let mut cipher_text = plain.clone();
    cbc::Encryptor::<Aes256>::new_from_slices(&key, &iv_real)
        .unwrap()
        .encrypt_padded_mut::<NoPadding>(&mut cipher_text, 0x210)
        .unwrap();

    let mut d = v31_x86_image(0xE8, 0xC0DE_C0DF);
    place(&mut d, 0x200, &cipher_text[16..]);
    let mut window = vec![0u8; 0x100];
    let h = 0x18;
    window[0..4].copy_from_slice(&0x7777_0000u32.to_le_bytes());
    window[h + 4..h + 8].copy_from_slice(&0xC0DE_C0DFu32.to_le_bytes());
    window[h + 28..h + 32].copy_from_slice(&0x40_1000u32.to_le_bytes());
    window[h + 48..h + 52].copy_from_slice(&570u32.to_le_bytes());
    window[h + 64..h + 68].copy_from_slice(&0x40_1000u32.to_le_bytes());
    window[h + 68..h + 72].copy_from_slice(&0x200u32.to_le_bytes());
    window[h + 72..h + 104].copy_from_slice(&key);
    window[h + 104..h + 120].copy_from_slice(&iv_stored);
    window[h + 120..h + 136].copy_from_slice(&cipher_text[..16]);
    encode_header(&mut d, 0x400, &words_of(&window));

    let pe = parse(&d);
    assert!(BuiltinPlugin::Variant31x86.unpack_is_defined(&pe));
    let out = Variant31x86.unpack(&pe).unwrap();
    assert_eq!(out.steam_app_id, 570);
    assert_eq!(&out.data[0x200..0x400], &plain[..0x200]);
    assert_eq!(get32(&out.data, OPT + 64), pe_checksum_oracle(&out.data, OPT + 64));
}

#[test]
fn rebuild_needs_only_the_entry_point_field() {
    let raw = vec![0xAAu8; 44];
    let sections = Vec::new();
    assert!(rebuild_is_defined(&raw, 0, 0, &sections, true));
    assert!(!rebuild_is_defined(&raw[..43], 0, 0, &sections, true));
    let out = rebuild_image(&raw, 0, 0, &sections, 0x1234_5678, None, None, true);
    assert_eq!(out.len(), 44);
    assert_eq!(get32(&out, 40), 0x1234_5678);
    assert_eq!(&out[..40], &raw[..40]);
}
