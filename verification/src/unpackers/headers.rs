//! The SteamStub loader headers of each variant, as stored (XOR-decoded)
//! in front of the stub entry point.
use crate::bytes::{le32, le64, read_le32, read_le64};
use vstd::array::ArrayAdditionalExecFns;
use vstd::prelude::*;

verus! {

/// The `N` bytes at `off`.
fn read_byte_array<const N: usize>(data: &[u8], off: usize) -> (r: [u8; N])
    requires
        off + N <= data@.len(),
    ensures
        r@ == data@.subrange(off as int, off + N),
{
    let _len = data.len();
    let mut a: [u8; N] = vstd::array::array_fill_for_copy_types::<u8, N>(0u8);
    let mut k: usize = 0;
    while k < N
        invariant
            k <= N,
            _len == data@.len(),
            off + N <= data@.len(),
            a@.len() == N,
            forall|j: int| 0 <= j < k ==> #[trigger] a@[j] == data@[off + j],
        decreases N - k,
    {
        a.set(k, data[off + k]);
        k = k + 1;
    }
    assert(a@ =~= data@.subrange(off as int, off + N));
    a
}

/// The `N` little-endian `u32` words at `off`.
pub open spec fn le32_words(d: Seq<u8>, off: int, n: nat) -> Seq<u32> {
    Seq::new(n, |i: int| le32(d, off + 4 * i))
}

/// The `N` little-endian `u32` words at `off`.
fn read_word_array<const N: usize>(data: &[u8], off: usize) -> (r: [u32; N])
    requires
        off + 4 * N <= data@.len(),
    ensures
        r@ == le32_words(data@, off as int, N as nat),
{
    let _len = data.len();
    let mut a: [u32; N] = vstd::array::array_fill_for_copy_types::<u32, N>(0u32);
    let mut k: usize = 0;
    while k < N
        invariant
            k <= N,
            _len == data@.len(),
            off + 4 * N <= data@.len(),
            a@.len() == N,
            forall|j: int| 0 <= j < k ==> #[trigger] a@[j] == le32(data@, off + 4 * j),
        decreases N - k,
    {
        a.set(k, read_le32(data, off + 4 * k));
        k = k + 1;
    }
    assert(a@ =~= le32_words(data@, off as int, N as nat));
    a
}

/// Size of `SteamStub32Var10Header` in bytes.
pub const STEAM_STUB32_VAR10_HEADER_SIZE: usize = 44;

/// SteamStub DRM Variant 1.0 x86 Header structure (0x2C bytes).
#[derive(Debug, Clone, Copy)]
pub struct SteamStub32Var10Header {
    pub xor_key: u32,
    pub signature: u32,
    pub image_base: u32,
    pub address_of_entry_point: u32,
    pub bind_section_offset: u32,
    pub original_entry_point: u32,
    pub payload_size: u32,
    pub drmp_dll_offset: u32,
    pub drmp_dll_size: u32,
    pub steam_app_id: u32,
    pub flags: u32,
}

impl SteamStub32Var10Header {
    /// `self` holds the little-endian fields at the start of `d`.
    pub open spec fn parsed_from(self, d: Seq<u8>) -> bool {
        &&& self.xor_key == le32(d, 0)
        &&& self.signature == le32(d, 4)
        &&& self.image_base == le32(d, 8)
        &&& self.address_of_entry_point == le32(d, 12)
        &&& self.bind_section_offset == le32(d, 16)
        &&& self.original_entry_point == le32(d, 20)
        &&& self.payload_size == le32(d, 24)
        &&& self.drmp_dll_offset == le32(d, 28)
        &&& self.drmp_dll_size == le32(d, 32)
        &&& self.steam_app_id == le32(d, 36)
        &&& self.flags == le32(d, 40)
    }

    /// Reads the header at the start of `data`.
    pub fn parse(data: &[u8]) -> (r: Result<Self, String>)
        ensures
            data@.len() < STEAM_STUB32_VAR10_HEADER_SIZE ==> (r matches Err(e) && e@ == "Data too small for SteamStub32Var10Header"@),
            data@.len() >= STEAM_STUB32_VAR10_HEADER_SIZE ==> (r matches Ok(h) && h.parsed_from(data@)),
    {
        if data.len() < STEAM_STUB32_VAR10_HEADER_SIZE {
            return Err("Data too small for SteamStub32Var10Header".to_owned());
        }
        Ok(SteamStub32Var10Header {
            xor_key: read_le32(data, 0),
            signature: read_le32(data, 4),
            image_base: read_le32(data, 8),
            address_of_entry_point: read_le32(data, 12),
            bind_section_offset: read_le32(data, 16),
            original_entry_point: read_le32(data, 20),
            payload_size: read_le32(data, 24),
            drmp_dll_offset: read_le32(data, 28),
            drmp_dll_size: read_le32(data, 32),
            steam_app_id: read_le32(data, 36),
            flags: read_le32(data, 40),
        })
    }
}

/// Size of `SteamStub32Var20_856_Header` in bytes.
pub const STEAM_STUB32_VAR20_856_HEADER_SIZE: usize = 856;

/// SteamStub DRM Variant 2.0 x86 Header structure (856 bytes).
#[derive(Debug, Clone, Copy)]
pub struct SteamStub32Var20_856_Header {
    pub xor_key1: u32,
    pub xor_key2: u32,
    pub get_module_handle_a_idata: u32,
    pub get_proc_address_idata: u32,
    pub get_module_handle_w_idata: u32,
    pub flags: u32,
    pub unknown0000: u32,
    pub bind_section_virtual_address: u32,
    pub bind_section_code_size: u32,
    pub bind_section_hash: u32,
    pub oep: u32,
    pub code_section_virtual_address: u32,
    pub code_section_size: u32,
    pub code_section_xor_key: u32,
    pub steam_app_id: u32,
    pub steam_app_id_string: [u8; 8],
    pub stub_data: [u8; 0x314],
}

impl SteamStub32Var20_856_Header {
    /// `self` holds the little-endian fields at the start of `d`.
    pub open spec fn parsed_from(self, d: Seq<u8>) -> bool {
        &&& self.xor_key1 == le32(d, 0)
        &&& self.xor_key2 == le32(d, 4)
        &&& self.get_module_handle_a_idata == le32(d, 8)
        &&& self.get_proc_address_idata == le32(d, 12)
        &&& self.get_module_handle_w_idata == le32(d, 16)
        &&& self.flags == le32(d, 20)
        &&& self.unknown0000 == le32(d, 24)
        &&& self.bind_section_virtual_address == le32(d, 28)
        &&& self.bind_section_code_size == le32(d, 32)
        &&& self.bind_section_hash == le32(d, 36)
        &&& self.oep == le32(d, 40)
        &&& self.code_section_virtual_address == le32(d, 44)
        &&& self.code_section_size == le32(d, 48)
        &&& self.code_section_xor_key == le32(d, 52)
        &&& self.steam_app_id == le32(d, 56)
        &&& self.steam_app_id_string@ == d.subrange(60, 68)
        &&& self.stub_data@ == d.subrange(68, 856)
    }

    /// Reads the header at the start of `data`.
    pub fn parse(data: &[u8]) -> (r: Result<Self, String>)
        ensures
            data@.len() < STEAM_STUB32_VAR20_856_HEADER_SIZE ==> (r matches Err(e) && e@ == "Data too small for SteamStub32Var20_856_Header"@),
            data@.len() >= STEAM_STUB32_VAR20_856_HEADER_SIZE ==> (r matches Ok(h) && h.parsed_from(data@)),
    {
        if data.len() < STEAM_STUB32_VAR20_856_HEADER_SIZE {
            return Err("Data too small for SteamStub32Var20_856_Header".to_owned());
        }
        Ok(SteamStub32Var20_856_Header {
            xor_key1: read_le32(data, 0),
            xor_key2: read_le32(data, 4),
            get_module_handle_a_idata: read_le32(data, 8),
            get_proc_address_idata: read_le32(data, 12),
            get_module_handle_w_idata: read_le32(data, 16),
            flags: read_le32(data, 20),
            unknown0000: read_le32(data, 24),
            bind_section_virtual_address: read_le32(data, 28),
            bind_section_code_size: read_le32(data, 32),
            bind_section_hash: read_le32(data, 36),
            oep: read_le32(data, 40),
            code_section_virtual_address: read_le32(data, 44),
            code_section_size: read_le32(data, 48),
            code_section_xor_key: read_le32(data, 52),
            steam_app_id: read_le32(data, 56),
            steam_app_id_string: read_byte_array::<8>(data, 60),
            stub_data: read_byte_array::<0x314>(data, 68),
        })
    }
}

/// Size of `SteamStub32Var20_884_Header` in bytes.
pub const STEAM_STUB32_VAR20_884_HEADER_SIZE: usize = 884;

/// SteamStub DRM Variant 2.0 x86 Header structure (884 bytes).
#[derive(Debug, Clone, Copy)]
pub struct SteamStub32Var20_884_Header {
    pub xor_key1: u32,
    pub xor_key2: u32,
    pub get_module_handle_a_idata: u32,
    pub get_proc_address_idata: u32,
    pub load_library_a_idata: u32,
    pub get_proc_address_custom: u32,
    pub flags: u32,
    pub unknown0000: u32,
    pub bind_section_virtual_address: u32,
    pub bind_section_code_size: u32,
    pub bind_section_hash: u32,
    pub oep: u32,
    pub code_section_virtual_address: u32,
    pub code_section_size: u32,
    pub code_section_xor_key: u32,
    pub steam_app_id: u32,
    pub steam_app_id_string: [u8; 8],
    pub stub_data: [u8; 0x32C],
}

impl SteamStub32Var20_884_Header {
    /// `self` holds the little-endian fields at the start of `d`.
    pub open spec fn parsed_from(self, d: Seq<u8>) -> bool {
        &&& self.xor_key1 == le32(d, 0)
        &&& self.xor_key2 == le32(d, 4)
        &&& self.get_module_handle_a_idata == le32(d, 8)
        &&& self.get_proc_address_idata == le32(d, 12)
        &&& self.load_library_a_idata == le32(d, 16)
        &&& self.get_proc_address_custom == le32(d, 20)
        &&& self.flags == le32(d, 24)
        &&& self.unknown0000 == le32(d, 28)
        &&& self.bind_section_virtual_address == le32(d, 32)
        &&& self.bind_section_code_size == le32(d, 36)
        &&& self.bind_section_hash == le32(d, 40)
        &&& self.oep == le32(d, 44)
        &&& self.code_section_virtual_address == le32(d, 48)
        &&& self.code_section_size == le32(d, 52)
        &&& self.code_section_xor_key == le32(d, 56)
        &&& self.steam_app_id == le32(d, 60)
        &&& self.steam_app_id_string@ == d.subrange(64, 72)
        &&& self.stub_data@ == d.subrange(72, 884)
    }

    /// Reads the header at the start of `data`.
    pub fn parse(data: &[u8]) -> (r: Result<Self, String>)
        ensures
            data@.len() < STEAM_STUB32_VAR20_884_HEADER_SIZE ==> (r matches Err(e) && e@ == "Data too small for SteamStub32Var20_884_Header"@),
            data@.len() >= STEAM_STUB32_VAR20_884_HEADER_SIZE ==> (r matches Ok(h) && h.parsed_from(data@)),
    {
        if data.len() < STEAM_STUB32_VAR20_884_HEADER_SIZE {
            return Err("Data too small for SteamStub32Var20_884_Header".to_owned());
        }
        Ok(SteamStub32Var20_884_Header {
            xor_key1: read_le32(data, 0),
            xor_key2: read_le32(data, 4),
            get_module_handle_a_idata: read_le32(data, 8),
            get_proc_address_idata: read_le32(data, 12),
            load_library_a_idata: read_le32(data, 16),
            get_proc_address_custom: read_le32(data, 20),
            flags: read_le32(data, 24),
            unknown0000: read_le32(data, 28),
            bind_section_virtual_address: read_le32(data, 32),
            bind_section_code_size: read_le32(data, 36),
            bind_section_hash: read_le32(data, 40),
            oep: read_le32(data, 44),
            code_section_virtual_address: read_le32(data, 48),
            code_section_size: read_le32(data, 52),
            code_section_xor_key: read_le32(data, 56),
            steam_app_id: read_le32(data, 60),
            steam_app_id_string: read_byte_array::<8>(data, 64),
            stub_data: read_byte_array::<0x32C>(data, 72),
        })
    }
}

/// Size of `SteamStub32Var30Header` in bytes.
pub const STEAM_STUB32_VAR30_HEADER_SIZE: usize = 0xB0;

/// SteamStub DRM Variant 3.0 x86 Header structure (0xB0 bytes).
#[derive(Debug, Clone, Copy)]
pub struct SteamStub32Var30Header {
    pub xor_key: u32,
    pub signature: u32,
    pub image_base: u64,
    pub address_of_entry_point: u32,
    pub bind_section_offset: u32,
    pub unknown0000: u32,
    pub original_entry_point: u32,
    pub unknown0001: u32,
    pub payload_size: u32,
    pub drmp_dll_offset: u32,
    pub drmp_dll_size: u32,
    pub steam_app_id: u32,
    pub flags: u32,
    pub bind_section_virtual_size: u32,
    pub unknown0002: u32,
    pub code_section_virtual_address: u32,
    pub code_section_raw_size: u32,
    pub aes_key: [u8; 32],
    pub aes_iv: [u8; 16],
    pub code_section_stolen_data: [u8; 16],
    pub encryption_keys: [u32; 4],
    pub unknown0003: [u32; 6],
}

impl SteamStub32Var30Header {
    /// `self` holds the little-endian fields at the start of `d`.
    pub open spec fn parsed_from(self, d: Seq<u8>) -> bool {
        &&& self.xor_key == le32(d, 0)
        &&& self.signature == le32(d, 4)
        &&& self.image_base == le64(d, 8)
        &&& self.address_of_entry_point == le32(d, 16)
        &&& self.bind_section_offset == le32(d, 20)
        &&& self.unknown0000 == le32(d, 24)
        &&& self.original_entry_point == le32(d, 28)
        &&& self.unknown0001 == le32(d, 32)
        &&& self.payload_size == le32(d, 36)
        &&& self.drmp_dll_offset == le32(d, 40)
        &&& self.drmp_dll_size == le32(d, 44)
        &&& self.steam_app_id == le32(d, 48)
        &&& self.flags == le32(d, 52)
        &&& self.bind_section_virtual_size == le32(d, 56)
        &&& self.unknown0002 == le32(d, 60)
        &&& self.code_section_virtual_address == le32(d, 64)
        &&& self.code_section_raw_size == le32(d, 68)
        &&& self.aes_key@ == d.subrange(72, 104)
        &&& self.aes_iv@ == d.subrange(104, 120)
        &&& self.code_section_stolen_data@ == d.subrange(120, 136)
        &&& self.encryption_keys@ == le32_words(d, 136, 4)
        &&& self.unknown0003@ == le32_words(d, 152, 6)
    }

    /// Reads the header at the start of `data`.
    pub fn parse(data: &[u8]) -> (r: Result<Self, String>)
        ensures
            data@.len() < STEAM_STUB32_VAR30_HEADER_SIZE ==> (r matches Err(e) && e@ == "Data too small for SteamStub32Var30Header"@),
            data@.len() >= STEAM_STUB32_VAR30_HEADER_SIZE ==> (r matches Ok(h) && h.parsed_from(data@)),
    {
        if data.len() < STEAM_STUB32_VAR30_HEADER_SIZE {
            return Err("Data too small for SteamStub32Var30Header".to_owned());
        }
        Ok(SteamStub32Var30Header {
            xor_key: read_le32(data, 0),
            signature: read_le32(data, 4),
            image_base: read_le64(data, 8),
            address_of_entry_point: read_le32(data, 16),
            bind_section_offset: read_le32(data, 20),
            unknown0000: read_le32(data, 24),
            original_entry_point: read_le32(data, 28),
            unknown0001: read_le32(data, 32),
            payload_size: read_le32(data, 36),
            drmp_dll_offset: read_le32(data, 40),
            drmp_dll_size: read_le32(data, 44),
            steam_app_id: read_le32(data, 48),
            flags: read_le32(data, 52),
            bind_section_virtual_size: read_le32(data, 56),
            unknown0002: read_le32(data, 60),
            code_section_virtual_address: read_le32(data, 64),
            code_section_raw_size: read_le32(data, 68),
            aes_key: read_byte_array::<32>(data, 72),
            aes_iv: read_byte_array::<16>(data, 104),
            code_section_stolen_data: read_byte_array::<16>(data, 120),
            encryption_keys: read_word_array::<4>(data, 136),
            unknown0003: read_word_array::<6>(data, 152),
        })
    }
}

/// Size of `SteamStub64Var30Header` in bytes.
pub const STEAM_STUB64_VAR30_HEADER_SIZE: usize = 0xD0;

/// SteamStub DRM Variant 3.0 x64 Header structure (0xD0 bytes).
#[derive(Debug, Clone, Copy)]
pub struct SteamStub64Var30Header {
    pub xor_key: u32,
    pub signature: u32,
    pub image_base: u64,
    pub address_of_entry_point: u64,
    pub bind_section_offset: u32,
    pub unknown0000: u32,
    pub original_entry_point: u64,
    pub unknown0001: u32,
    pub payload_size: u32,
    pub drmp_dll_offset: u32,
    pub drmp_dll_size: u32,
    pub steam_app_id: u32,
    pub flags: u32,
    pub bind_section_virtual_size: u32,
    pub unknown0002: u32,
    pub code_section_virtual_address: u64,
    pub code_section_raw_size: u64,
    pub aes_key: [u8; 32],
    pub aes_iv: [u8; 16],
    pub code_section_stolen_data: [u8; 16],
    pub encryption_keys: [u32; 4],
    pub unknown0003: [u32; 6],
    pub get_module_handle_a_rva: u64,
    pub get_module_handle_w_rva: u64,
}

impl SteamStub64Var30Header {
    /// `self` holds the little-endian fields at the start of `d`.
    pub open spec fn parsed_from(self, d: Seq<u8>) -> bool {
        &&& self.xor_key == le32(d, 0)
        &&& self.signature == le32(d, 4)
        &&& self.image_base == le64(d, 8)
        &&& self.address_of_entry_point == le64(d, 16)
        &&& self.bind_section_offset == le32(d, 24)
        &&& self.unknown0000 == le32(d, 28)
        &&& self.original_entry_point == le64(d, 32)
        &&& self.unknown0001 == le32(d, 40)
        &&& self.payload_size == le32(d, 44)
        &&& self.drmp_dll_offset == le32(d, 48)
        &&& self.drmp_dll_size == le32(d, 52)
        &&& self.steam_app_id == le32(d, 56)
        &&& self.flags == le32(d, 60)
        &&& self.bind_section_virtual_size == le32(d, 64)
        &&& self.unknown0002 == le32(d, 68)
        &&& self.code_section_virtual_address == le64(d, 72)
        &&& self.code_section_raw_size == le64(d, 80)
        &&& self.aes_key@ == d.subrange(88, 120)
        &&& self.aes_iv@ == d.subrange(120, 136)
        &&& self.code_section_stolen_data@ == d.subrange(136, 152)
        &&& self.encryption_keys@ == le32_words(d, 152, 4)
        &&& self.unknown0003@ == le32_words(d, 168, 6)
        &&& self.get_module_handle_a_rva == le64(d, 192)
        &&& self.get_module_handle_w_rva == le64(d, 200)
    }

    /// Reads the header at the start of `data`.
    pub fn parse(data: &[u8]) -> (r: Result<Self, String>)
        ensures
            data@.len() < STEAM_STUB64_VAR30_HEADER_SIZE ==> (r matches Err(e) && e@ == "Data too small for SteamStub64Var30Header"@),
            data@.len() >= STEAM_STUB64_VAR30_HEADER_SIZE ==> (r matches Ok(h) && h.parsed_from(data@)),
    {
        if data.len() < STEAM_STUB64_VAR30_HEADER_SIZE {
            return Err("Data too small for SteamStub64Var30Header".to_owned());
        }
        Ok(SteamStub64Var30Header {
            xor_key: read_le32(data, 0),
            signature: read_le32(data, 4),
            image_base: read_le64(data, 8),
            address_of_entry_point: read_le64(data, 16),
            bind_section_offset: read_le32(data, 24),
            unknown0000: read_le32(data, 28),
            original_entry_point: read_le64(data, 32),
            unknown0001: read_le32(data, 40),
            payload_size: read_le32(data, 44),
            drmp_dll_offset: read_le32(data, 48),
            drmp_dll_size: read_le32(data, 52),
            steam_app_id: read_le32(data, 56),
            flags: read_le32(data, 60),
            bind_section_virtual_size: read_le32(data, 64),
            unknown0002: read_le32(data, 68),
            code_section_virtual_address: read_le64(data, 72),
            code_section_raw_size: read_le64(data, 80),
            aes_key: read_byte_array::<32>(data, 88),
            aes_iv: read_byte_array::<16>(data, 120),
            code_section_stolen_data: read_byte_array::<16>(data, 136),
            encryption_keys: read_word_array::<4>(data, 152),
            unknown0003: read_word_array::<6>(data, 168),
            get_module_handle_a_rva: read_le64(data, 192),
            get_module_handle_w_rva: read_le64(data, 200),
        })
    }
}

/// Size of `SteamStub32Var31Header` in bytes.
pub const STEAM_STUB32_VAR31_HEADER_SIZE: usize = 0xE8;

/// SteamStub DRM Variant 3.1 x86 Header structure (0xE8 bytes; the
/// fields fill its first 204 bytes).
#[derive(Debug, Clone, Copy)]
pub struct SteamStub32Var31Header {
    pub xor_key: u32,
    pub signature: u32,
    pub image_base: u64,
    pub address_of_entry_point: u32,
    pub bind_section_offset: u32,
    pub unknown0000: u32,
    pub original_entry_point: u32,
    pub unknown0001: u32,
    pub payload_size: u32,
    pub drmp_dll_offset: u32,
    pub drmp_dll_size: u32,
    pub steam_app_id: u32,
    pub flags: u32,
    pub bind_section_virtual_size: u32,
    pub unknown0002: u32,
    pub code_section_virtual_address: u32,
    pub code_section_raw_size: u32,
    pub aes_key: [u8; 32],
    pub aes_iv: [u8; 16],
    pub code_section_stolen_data: [u8; 16],
    pub encryption_keys: [u32; 4],
    pub unknown0003: [u32; 8],
    pub get_module_handle_a_rva: u32,
    pub get_module_handle_w_rva: u32,
    pub load_library_a_rva: u32,
    pub load_library_w_rva: u32,
    pub get_proc_address_rva: u32,
}

impl SteamStub32Var31Header {
    /// `self` holds the little-endian fields at the start of `d`.
    pub open spec fn parsed_from(self, d: Seq<u8>) -> bool {
        &&& self.xor_key == le32(d, 0)
        &&& self.signature == le32(d, 4)
        &&& self.image_base == le64(d, 8)
        &&& self.address_of_entry_point == le32(d, 16)
        &&& self.bind_section_offset == le32(d, 20)
        &&& self.unknown0000 == le32(d, 24)
        &&& self.original_entry_point == le32(d, 28)
        &&& self.unknown0001 == le32(d, 32)
        &&& self.payload_size == le32(d, 36)
        &&& self.drmp_dll_offset == le32(d, 40)
        &&& self.drmp_dll_size == le32(d, 44)
        &&& self.steam_app_id == le32(d, 48)
        &&& self.flags == le32(d, 52)
        &&& self.bind_section_virtual_size == le32(d, 56)
        &&& self.unknown0002 == le32(d, 60)
        &&& self.code_section_virtual_address == le32(d, 64)
        &&& self.code_section_raw_size == le32(d, 68)
        &&& self.aes_key@ == d.subrange(72, 104)
        &&& self.aes_iv@ == d.subrange(104, 120)
        &&& self.code_section_stolen_data@ == d.subrange(120, 136)
        &&& self.encryption_keys@ == le32_words(d, 136, 4)
        &&& self.unknown0003@ == le32_words(d, 152, 8)
        &&& self.get_module_handle_a_rva == le32(d, 184)
        &&& self.get_module_handle_w_rva == le32(d, 188)
        &&& self.load_library_a_rva == le32(d, 192)
        &&& self.load_library_w_rva == le32(d, 196)
        &&& self.get_proc_address_rva == le32(d, 200)
    }

    /// Reads the header at the start of `data`.
    pub fn parse(data: &[u8]) -> (r: Result<Self, String>)
        ensures
            data@.len() < STEAM_STUB32_VAR31_HEADER_SIZE ==> (r matches Err(e) && e@ == "Data too small for SteamStub32Var31Header"@),
            data@.len() >= STEAM_STUB32_VAR31_HEADER_SIZE ==> (r matches Ok(h) && h.parsed_from(data@)),
    {
        if data.len() < STEAM_STUB32_VAR31_HEADER_SIZE {
            return Err("Data too small for SteamStub32Var31Header".to_owned());
        }
        Ok(SteamStub32Var31Header {
            xor_key: read_le32(data, 0),
            signature: read_le32(data, 4),
            image_base: read_le64(data, 8),
            address_of_entry_point: read_le32(data, 16),
            bind_section_offset: read_le32(data, 20),
            unknown0000: read_le32(data, 24),
            original_entry_point: read_le32(data, 28),
            unknown0001: read_le32(data, 32),
            payload_size: read_le32(data, 36),
            drmp_dll_offset: read_le32(data, 40),
            drmp_dll_size: read_le32(data, 44),
            steam_app_id: read_le32(data, 48),
            flags: read_le32(data, 52),
            bind_section_virtual_size: read_le32(data, 56),
            unknown0002: read_le32(data, 60),
            code_section_virtual_address: read_le32(data, 64),
            code_section_raw_size: read_le32(data, 68),
            aes_key: read_byte_array::<32>(data, 72),
            aes_iv: read_byte_array::<16>(data, 104),
            code_section_stolen_data: read_byte_array::<16>(data, 120),
            encryption_keys: read_word_array::<4>(data, 136),
            unknown0003: read_word_array::<8>(data, 152),
            get_module_handle_a_rva: read_le32(data, 184),
            get_module_handle_w_rva: read_le32(data, 188),
            load_library_a_rva: read_le32(data, 192),
            load_library_w_rva: read_le32(data, 196),
            get_proc_address_rva: read_le32(data, 200),
        })
    }
}

/// Size of `SteamStub64Var31Header` in bytes.
pub const STEAM_STUB64_VAR31_HEADER_SIZE: usize = 0xF0;

/// SteamStub DRM Variant 3.1 x64 Header structure (0xF0 bytes).
#[derive(Debug, Clone, Copy)]
pub struct SteamStub64Var31Header {
    pub xor_key: u32,
    pub signature: u32,
    pub image_base: u64,
    pub address_of_entry_point: u64,
    pub bind_section_offset: u32,
    pub unknown0000: u32,
    pub original_entry_point: u64,
    pub unknown0001: u32,
    pub payload_size: u32,
    pub drmp_dll_offset: u32,
    pub drmp_dll_size: u32,
    pub steam_app_id: u32,
    pub flags: u32,
    pub bind_section_virtual_size: u32,
    pub unknown0002: u32,
    pub code_section_virtual_address: u64,
    pub code_section_raw_size: u64,
    pub aes_key: [u8; 32],
    pub aes_iv: [u8; 16],
    pub code_section_stolen_data: [u8; 16],
    pub encryption_keys: [u32; 4],
    pub unknown0003: [u32; 8],
    pub get_module_handle_a_rva: u64,
    pub get_module_handle_w_rva: u64,
    pub load_library_a_rva: u64,
    pub load_library_w_rva: u64,
    pub get_proc_address_rva: u64,
}

impl SteamStub64Var31Header {
    /// `self` holds the little-endian fields at the start of `d`.
    pub open spec fn parsed_from(self, d: Seq<u8>) -> bool {
        &&& self.xor_key == le32(d, 0)
        &&& self.signature == le32(d, 4)
        &&& self.image_base == le64(d, 8)
        &&& self.address_of_entry_point == le64(d, 16)
        &&& self.bind_section_offset == le32(d, 24)
        &&& self.unknown0000 == le32(d, 28)
        &&& self.original_entry_point == le64(d, 32)
        &&& self.unknown0001 == le32(d, 40)
        &&& self.payload_size == le32(d, 44)
        &&& self.drmp_dll_offset == le32(d, 48)
        &&& self.drmp_dll_size == le32(d, 52)
        &&& self.steam_app_id == le32(d, 56)
        &&& self.flags == le32(d, 60)
        &&& self.bind_section_virtual_size == le32(d, 64)
        &&& self.unknown0002 == le32(d, 68)
        &&& self.code_section_virtual_address == le64(d, 72)
        &&& self.code_section_raw_size == le64(d, 80)
        &&& self.aes_key@ == d.subrange(88, 120)
        &&& self.aes_iv@ == d.subrange(120, 136)
        &&& self.code_section_stolen_data@ == d.subrange(136, 152)
        &&& self.encryption_keys@ == le32_words(d, 152, 4)
        &&& self.unknown0003@ == le32_words(d, 168, 8)
        &&& self.get_module_handle_a_rva == le64(d, 200)
        &&& self.get_module_handle_w_rva == le64(d, 208)
        &&& self.load_library_a_rva == le64(d, 216)
        &&& self.load_library_w_rva == le64(d, 224)
        &&& self.get_proc_address_rva == le64(d, 232)
    }

    /// Reads the header at the start of `data`.
    pub fn parse(data: &[u8]) -> (r: Result<Self, String>)
        ensures
            data@.len() < STEAM_STUB64_VAR31_HEADER_SIZE ==> (r matches Err(e) && e@ == "Data too small for SteamStub64Var31Header"@),
            data@.len() >= STEAM_STUB64_VAR31_HEADER_SIZE ==> (r matches Ok(h) && h.parsed_from(data@)),
    {
        if data.len() < STEAM_STUB64_VAR31_HEADER_SIZE {
            return Err("Data too small for SteamStub64Var31Header".to_owned());
        }
        Ok(SteamStub64Var31Header {
            xor_key: read_le32(data, 0),
            signature: read_le32(data, 4),
            image_base: read_le64(data, 8),
            address_of_entry_point: read_le64(data, 16),
            bind_section_offset: read_le32(data, 24),
            unknown0000: read_le32(data, 28),
            original_entry_point: read_le64(data, 32),
            unknown0001: read_le32(data, 40),
            payload_size: read_le32(data, 44),
            drmp_dll_offset: read_le32(data, 48),
            drmp_dll_size: read_le32(data, 52),
            steam_app_id: read_le32(data, 56),
            flags: read_le32(data, 60),
            bind_section_virtual_size: read_le32(data, 64),
            unknown0002: read_le32(data, 68),
            code_section_virtual_address: read_le64(data, 72),
            code_section_raw_size: read_le64(data, 80),
            aes_key: read_byte_array::<32>(data, 88),
            aes_iv: read_byte_array::<16>(data, 120),
            code_section_stolen_data: read_byte_array::<16>(data, 136),
            encryption_keys: read_word_array::<4>(data, 152),
            unknown0003: read_word_array::<8>(data, 168),
            get_module_handle_a_rva: read_le64(data, 200),
            get_module_handle_w_rva: read_le64(data, 208),
            load_library_a_rva: read_le64(data, 216),
            load_library_w_rva: read_le64(data, 224),
            get_proc_address_rva: read_le64(data, 232),
        })
    }
}

} // verus!
