//! PE32 (32-bit) images, and the header records shared with PE32+.
use crate::bytes::{le16, le32, read_le16, read_le32};
use crate::pe::sections::{
    find_named_section, first_named, geometries, parse_sections, rva_file_offset, rva_lookup_defined,
    rva_not_found_message, rva_section_index, rva_section_index_exec, rva_to_file_offset,
    sections_parsed_from, law_owner_section_offset, rva_in_section, section_span,
};
use vstd::prelude::*;

verus! {

/// `MZ`, the DOS header signature.
pub const IMAGE_DOS_SIGNATURE: u16 = 0x5A4D;

/// `PE\0\0`, the NT headers signature.
pub const IMAGE_NT_SIGNATURE: u32 = 0x00004550;

/// Optional header magic of a PE32 image.
pub const PE32_MAGIC: u16 = 0x010B;

/// Size of the DOS header.
pub const DOS_HEADER_SIZE: usize = 64;

/// Size of the COFF file header.
pub const FILE_HEADER_SIZE: usize = 20;

/// Size of a section header.
pub const SECTION_HEADER_SIZE: usize = 40;

/// The DOS header at the start of a PE image.
#[derive(Debug, Clone, Copy)]
pub struct ImageDosHeader32 {
    pub e_magic: u16,
    pub e_cblp: u16,
    pub e_cp: u16,
    pub e_crlc: u16,
    pub e_cparhdr: u16,
    pub e_minalloc: u16,
    pub e_maxalloc: u16,
    pub e_ss: u16,
    pub e_sp: u16,
    pub e_csum: u16,
    pub e_ip: u16,
    pub e_cs: u16,
    pub e_lfarlc: u16,
    pub e_ovno: u16,
    pub e_res: [u16; 4],
    pub e_oemid: u16,
    pub e_oeminfo: u16,
    pub e_res2: [u16; 10],
    pub e_lfanew: i32,
}

/// The COFF file header that follows the NT signature.
#[derive(Debug, Clone, Copy)]
pub struct ImageFileHeader32 {
    pub machine: u16,
    pub number_of_sections: u16,
    pub time_date_stamp: u32,
    pub pointer_to_symbol_table: u32,
    pub number_of_symbols: u32,
    pub size_of_optional_header: u16,
    pub characteristics: u16,
}

/// A section header.
#[derive(Debug, Clone, Copy)]
pub struct ImageSectionHeader32 {
    pub name: [u8; 8],
    pub virtual_size: u32,
    pub virtual_address: u32,
    pub size_of_raw_data: u32,
    pub pointer_to_raw_data: u32,
    pub pointer_to_relocations: u32,
    pub pointer_to_linenumbers: u32,
    pub number_of_relocations: u16,
    pub number_of_linenumbers: u16,
    pub characteristics: u32,
}

/// A section: its header and the bytes of its raw data in the file.
#[derive(Debug, Clone)]
pub struct Pe32Section {
    pub header: ImageSectionHeader32,
    pub data: Vec<u8>,
}

impl ImageDosHeader32 {
    /// `self` holds the little-endian fields at the start of `d`.
    pub open spec fn parsed_from(self, d: Seq<u8>) -> bool {
        &&& self.e_magic == le16(d, 0)
        &&& self.e_cblp == le16(d, 2)
        &&& self.e_cp == le16(d, 4)
        &&& self.e_crlc == le16(d, 6)
        &&& self.e_cparhdr == le16(d, 8)
        &&& self.e_minalloc == le16(d, 10)
        &&& self.e_maxalloc == le16(d, 12)
        &&& self.e_ss == le16(d, 14)
        &&& self.e_sp == le16(d, 16)
        &&& self.e_csum == le16(d, 18)
        &&& self.e_ip == le16(d, 20)
        &&& self.e_cs == le16(d, 22)
        &&& self.e_lfarlc == le16(d, 24)
        &&& self.e_ovno == le16(d, 26)
        &&& self.e_res@ == seq![le16(d, 28), le16(d, 30), le16(d, 32), le16(d, 34)]
        &&& self.e_oemid == le16(d, 36)
        &&& self.e_oeminfo == le16(d, 38)
        &&& self.e_res2@ == seq![
            le16(d, 40),
            le16(d, 42),
            le16(d, 44),
            le16(d, 46),
            le16(d, 48),
            le16(d, 50),
            le16(d, 52),
            le16(d, 54),
            le16(d, 56),
            le16(d, 58),
        ]
        &&& self.e_lfanew == le32(d, 60) as i32
    }

    /// Reads the DOS header at the start of `data`.
    pub fn read(data: &[u8]) -> (r: Self)
        requires
            DOS_HEADER_SIZE <= data@.len(),
        ensures
            r.parsed_from(data@),
    {
        let _len = data.len();
        let r = ImageDosHeader32 {
            e_magic: read_le16(data, 0),
            e_cblp: read_le16(data, 2),
            e_cp: read_le16(data, 4),
            e_crlc: read_le16(data, 6),
            e_cparhdr: read_le16(data, 8),
            e_minalloc: read_le16(data, 10),
            e_maxalloc: read_le16(data, 12),
            e_ss: read_le16(data, 14),
            e_sp: read_le16(data, 16),
            e_csum: read_le16(data, 18),
            e_ip: read_le16(data, 20),
            e_cs: read_le16(data, 22),
            e_lfarlc: read_le16(data, 24),
            e_ovno: read_le16(data, 26),
            e_res: [read_le16(data, 28), read_le16(data, 30), read_le16(data, 32), read_le16(data, 34)],
            e_oemid: read_le16(data, 36),
            e_oeminfo: read_le16(data, 38),
            e_res2: [
                read_le16(data, 40),
                read_le16(data, 42),
                read_le16(data, 44),
                read_le16(data, 46),
                read_le16(data, 48),
                read_le16(data, 50),
                read_le16(data, 52),
                read_le16(data, 54),
                read_le16(data, 56),
                read_le16(data, 58),
            ],
            e_lfanew: read_le32(data, 60) as i32,
        };
        assert(r.e_res@ =~= seq![le16(data@, 28), le16(data@, 30), le16(data@, 32), le16(data@, 34)]);
        assert(r.e_res2@ =~= seq![
            le16(data@, 40),
            le16(data@, 42),
            le16(data@, 44),
            le16(data@, 46),
            le16(data@, 48),
            le16(data@, 50),
            le16(data@, 52),
            le16(data@, 54),
            le16(data@, 56),
            le16(data@, 58),
        ]);
        r
    }
}

impl ImageFileHeader32 {
    /// `self` holds the little-endian fields at `off` in `d`.
    pub open spec fn parsed_from(self, d: Seq<u8>, off: int) -> bool {
        &&& self.machine == le16(d, off)
        &&& self.number_of_sections == le16(d, off + 2)
        &&& self.time_date_stamp == le32(d, off + 4)
        &&& self.pointer_to_symbol_table == le32(d, off + 8)
        &&& self.number_of_symbols == le32(d, off + 12)
        &&& self.size_of_optional_header == le16(d, off + 16)
        &&& self.characteristics == le16(d, off + 18)
    }

    /// Reads the file header at `off`.
    pub fn read(data: &[u8], off: usize) -> (r: Self)
        requires
            off + FILE_HEADER_SIZE <= data@.len(),
        ensures
            r.parsed_from(data@, off as int),
    {
        let _len = data.len();
        ImageFileHeader32 {
            machine: read_le16(data, off),
            number_of_sections: read_le16(data, off + 2),
            time_date_stamp: read_le32(data, off + 4),
            pointer_to_symbol_table: read_le32(data, off + 8),
            number_of_symbols: read_le32(data, off + 12),
            size_of_optional_header: read_le16(data, off + 16),
            characteristics: read_le16(data, off + 18),
        }
    }
}

impl ImageSectionHeader32 {
    /// `self` holds the little-endian fields at `off` in `d`.
    pub open spec fn parsed_from(self, d: Seq<u8>, off: int) -> bool {
        &&& self.name@ == d.subrange(off, off + 8)
        &&& self.virtual_size == le32(d, off + 8)
        &&& self.virtual_address == le32(d, off + 12)
        &&& self.size_of_raw_data == le32(d, off + 16)
        &&& self.pointer_to_raw_data == le32(d, off + 20)
        &&& self.pointer_to_relocations == le32(d, off + 24)
        &&& self.pointer_to_linenumbers == le32(d, off + 28)
        &&& self.number_of_relocations == le16(d, off + 32)
        &&& self.number_of_linenumbers == le16(d, off + 34)
        &&& self.characteristics == le32(d, off + 36)
    }

    /// Reads the section header at `off`.
    pub fn read(data: &[u8], off: usize) -> (r: Self)
        requires
            off + SECTION_HEADER_SIZE <= data@.len(),
        ensures
            r.parsed_from(data@, off as int),
    {
        let _len = data.len();
        let r = ImageSectionHeader32 {
            name: [
                data[off],
                data[off + 1],
                data[off + 2],
                data[off + 3],
                data[off + 4],
                data[off + 5],
                data[off + 6],
                data[off + 7],
            ],
            virtual_size: read_le32(data, off + 8),
            virtual_address: read_le32(data, off + 12),
            size_of_raw_data: read_le32(data, off + 16),
            pointer_to_raw_data: read_le32(data, off + 20),
            pointer_to_relocations: read_le32(data, off + 24),
            pointer_to_linenumbers: read_le32(data, off + 28),
            number_of_relocations: read_le16(data, off + 32),
            number_of_linenumbers: read_le16(data, off + 34),
            characteristics: read_le32(data, off + 36),
        };
        assert(r.name@ =~= data@.subrange(off as int, off + 8));
        r
    }
}

/// The signed `e_lfanew` field of the DOS header of `d`.
pub open spec fn lfanew_of(d: Seq<u8>) -> int {
    (le32(d, 60) as i32) as int
}

/// The error of the checks that both PE parsers make before the optional
/// header (DOS header size and signature, NT header offset and signature),
/// if one fails.
pub open spec fn nt_headers_error(d: Seq<u8>) -> Option<Seq<char>> {
    if d.len() < 64 {
        Some("File too small for DOS header"@)
    } else if le16(d, 0) != IMAGE_DOS_SIGNATURE {
        Some("Invalid DOS signature"@)
    } else if lfanew_of(d) < 0 || lfanew_of(d) + 4 > d.len() {
        Some("Invalid e_lfanew offset"@)
    } else if le32(d, lfanew_of(d)) != IMAGE_NT_SIGNATURE {
        Some("Invalid PE signature"@)
    } else {
        None
    }
}

/// Those checks are defined on `d`: an `e_lfanew` from -4 to -1 makes the
/// offset computation overflow. The length bound keeps the offsets derived
/// from the headers within 64 bits.
pub open spec fn nt_headers_defined(d: Seq<u8>) -> bool {
    &&& d.len() + 0x100_0000 <= u64::MAX
    &&& (d.len() >= 64 && le16(d, 0) == IMAGE_DOS_SIGNATURE) ==> !(-4 <= lfanew_of(d) < 0)
}

/// Offset of the optional header of `d`.
pub open spec fn opt_header_offset(d: Seq<u8>) -> int {
    lfanew_of(d) + 24
}

/// Checks the DOS header and the NT signature; gives the DOS header and
/// `e_lfanew`.
pub fn read_nt_headers(data: &[u8]) -> (r: Result<(ImageDosHeader32, usize), String>)
    requires
        nt_headers_defined(data@),
    ensures
        match r {
            Ok((dos, lfanew)) => {
                &&& nt_headers_error(data@) is None
                &&& dos.parsed_from(data@)
                &&& lfanew == lfanew_of(data@)
            },
            Err(e) => nt_headers_error(data@) == Some(e@),
        },
{
    if data.len() < DOS_HEADER_SIZE {
        return Err("File too small for DOS header".to_owned());
    }
    let dos_header = ImageDosHeader32::read(data);
    if dos_header.e_magic != IMAGE_DOS_SIGNATURE {
        return Err("Invalid DOS signature".to_owned());
    }
    if dos_header.e_lfanew < 0 {
        return Err("Invalid e_lfanew offset".to_owned());
    }
    let lfanew = dos_header.e_lfanew as usize;
    if lfanew + 4 > data.len() {
        return Err("Invalid e_lfanew offset".to_owned());
    }
    let pe_sig = read_le32(data, lfanew);
    if pe_sig != IMAGE_NT_SIGNATURE {
        return Err("Invalid PE signature".to_owned());
    }
    Ok((dos_header, lfanew))
}

/// A parsed PE32 image.
#[derive(Debug, Clone)]
pub struct Pe32File {
    pub dos_header: ImageDosHeader32,
    pub file_header: ImageFileHeader32,
    pub entry_point: u32,
    pub image_base: u32,
    pub base_of_code: u32,
    pub sections: Vec<Pe32Section>,
    pub raw_data: Vec<u8>,
}

/// `Pe32File::parse` is defined on `d`: besides the NT header checks, a
/// valid NT signature must be followed by the optional header magic, and a
/// PE32 optional header by its first 32 bytes.
pub open spec fn pe32_parse_defined(d: Seq<u8>) -> bool {
    &&& nt_headers_defined(d)
    &&& nt_headers_error(d) is None ==> {
        &&& d.len() >= opt_header_offset(d) + 2
        &&& le16(d, opt_header_offset(d)) == PE32_MAGIC ==> d.len() >= opt_header_offset(d) + 32
    }
}

/// The error that `Pe32File::parse` returns for `d`, if any.
pub open spec fn pe32_parse_error(d: Seq<u8>) -> Option<Seq<char>> {
    match nt_headers_error(d) {
        Some(e) => Some(e),
        None => if le16(d, opt_header_offset(d)) != PE32_MAGIC {
            Some("Not a PE32 32-bit executable"@)
        } else {
            None
        },
    }
}

/// `get_owner_section_index(v)` finds the first section whose span holds
/// `get_rva_from_va(v)`, and `get_file_offset_from_rva` of that RVA is
/// its offset in that section; when no section holds it, there is no
/// offset and the translation fails.
pub proof fn law_pe32_owner_offset(f: Pe32File, v: u32)
    ensures
        ({
            let r = if v >= f.image_base {
        (v - f.image_base) as u32
    } else {
        v
    };
            let secs = geometries(f.sections@);
            match rva_section_index(secs, r) {
                Some(i) => {
                    &&& 0 <= i < f.sections@.len()
                    &&& f.sections@[i].header.virtual_address <= r
                    &&& r < f.sections@[i].header.virtual_address + section_span(secs[i])
                    &&& forall|j: int| 0 <= j < i ==> !rva_in_section(#[trigger] secs[j], r)
                    &&& rva_file_offset(secs, r) == Some(
                        f.sections@[i].header.pointer_to_raw_data + (r
                            - f.sections@[i].header.virtual_address),
                    )
                },
                None => {
                    &&& forall|j: int| 0 <= j < secs.len() ==> !rva_in_section(#[trigger] secs[j], r)
                    &&& rva_file_offset(secs, r) is None
                },
            }
        }),
{
    let r = if v >= f.image_base {
        (v - f.image_base) as u32
    } else {
        v
    };
    law_owner_section_offset(geometries(f.sections@), r);
}

impl Pe32File {
    /// `self` is the image `d` read as PE32: its headers, entry point,
    /// image base, base of code and sections, and `d` itself.
    pub open spec fn parsed_from(self, d: Seq<u8>) -> bool {
        let opt = opt_header_offset(d);
        &&& self.raw_data@ == d
        &&& self.dos_header.parsed_from(d)
        &&& self.file_header.parsed_from(d, lfanew_of(d) + 4)
        &&& self.entry_point == le32(d, opt + 16)
        &&& self.base_of_code == le32(d, opt + 20)
        &&& self.image_base == le32(d, opt + 28)
        &&& sections_parsed_from(
            self.sections@,
            d,
            opt + self.file_header.size_of_optional_header,
            self.file_header.number_of_sections as int,
        )
    }

    /// Parses `data` as a PE32 image.
    pub fn parse(data: &[u8]) -> (r: Result<Self, String>)
        requires
            pe32_parse_defined(data@),
        ensures
            match r {
                Ok(f) => pe32_parse_error(data@) is None && f.parsed_from(data@),
                Err(e) => pe32_parse_error(data@) == Some(e@),
            },
    {
        let (dos_header, lfanew) = match read_nt_headers(data) {
            Ok(v) => v,
            Err(e) => return Err(e),
        };
        let file_header_offset = lfanew + 4;
        let opt_header_offset = file_header_offset + FILE_HEADER_SIZE;
        let file_header = ImageFileHeader32::read(data, file_header_offset);
        let magic = read_le16(data, opt_header_offset);
        if magic != PE32_MAGIC {
            return Err("Not a PE32 32-bit executable".to_owned());
        }
        let entry_point = read_le32(data, opt_header_offset + 16);
        let base_of_code = read_le32(data, opt_header_offset + 20);
        let image_base = read_le32(data, opt_header_offset + 28);
        let section_header_offset = opt_header_offset as u64
            + file_header.size_of_optional_header as u64;
        let sections = parse_sections(data, section_header_offset, file_header.number_of_sections);
        let raw_data = vstd::slice::slice_to_vec(data);
        Ok(Pe32File {
            dos_header,
            file_header,
            entry_point,
            image_base,
            base_of_code,
            sections,
            raw_data,
        })
    }

    /// Whether a section is called `name`.
    pub fn has_section(&self, name: &str) -> (r: bool)
        ensures
            r == first_named(self.sections@, name@) is Some,
    {
        self.get_section(name).is_some()
    }

    /// The first section called `name` (its name field with the NULs
    /// around it trimmed).
    pub fn get_section(&self, name: &str) -> (r: Option<&Pe32Section>)
        ensures
            r == (match first_named(self.sections@, name@) {
                Some(i) => Some(&self.sections@[i]),
                None => None,
            }),
    {
        match find_named_section(&self.sections, name) {
            Some(i) => Some(&self.sections[i]),
            None => None,
        }
    }

    /// Translates `rva` to a file offset through the section table.
    pub fn get_file_offset_from_rva(&self, rva: u32) -> (r: Result<usize, String>)
        requires
            rva_lookup_defined(geometries(self.sections@), rva, 0),
        ensures
            match rva_file_offset(geometries(self.sections@), rva) {
                Some(off) => r == Ok::<usize, String>(off as usize),
                None => r matches Err(e) && e@ == rva_not_found_message(rva),
            },
    {
        rva_to_file_offset(&self.sections, rva)
    }

    /// `va` relative to the image base, or `va` itself when it is below
    /// the image base.
    pub fn get_rva_from_va(&self, va: u32) -> (r: u32)
        ensures
            r == (if va >= self.image_base {
                (va - self.image_base) as u32
            } else {
                va
            }),
    {
        if va >= self.image_base {
            va - self.image_base
        } else {
            va
        }
    }

    /// The index of the first section that holds `va_or_rva` (taken as an
    /// RVA after `get_rva_from_va`).
    pub fn get_owner_section_index(&self, va_or_rva: u32) -> (r: Option<usize>)
        ensures
            ({
                let rva = if va_or_rva >= self.image_base {
                    (va_or_rva - self.image_base) as u32
                } else {
                    va_or_rva
                };
                r == match rva_section_index(geometries(self.sections@), rva) {
                    Some(i) => Some(i as usize),
                    None => None::<usize>,
                }
            }),
    {
        let rva = self.get_rva_from_va(va_or_rva);
        rva_section_index_exec(&self.sections, rva)
    }
}

} // verus!
