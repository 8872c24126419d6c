//! PE32+ (64-bit) images.
use crate::bytes::{le16, le32, le64, read_le16, read_le32, read_le64};
use crate::pe::file32::{
    lfanew_of, nt_headers_defined, nt_headers_error, opt_header_offset, read_nt_headers,
    ImageDosHeader32, ImageFileHeader32, ImageSectionHeader32, Pe32Section, FILE_HEADER_SIZE,
};
use crate::pe::sections::{
    find_named_section, first_named, geometries, lemma_table_geometries, parse_sections,
    rva_file_offset, rva_lookup_defined, rva_not_found_message, rva_section_index,
    rva_lookup_is_defined, rva_section_index_exec, rva_to_file_offset, lemma_rva_index_found, sections_parsed_from, table_geometries, va_to_rva,
    SectionGeometry, law_owner_section_offset, rva_in_section, section_span,
};
use vstd::prelude::*;

verus! {

/// Optional header magic of a PE32+ image.
pub const PE32PLUS_MAGIC: u16 = 0x020B;

/// The DOS header; its layout does not depend on the image kind.
pub type ImageDosHeader64 = ImageDosHeader32;

/// The COFF file header; its layout does not depend on the image kind.
pub type ImageFileHeader64 = ImageFileHeader32;

/// A section header; its layout does not depend on the image kind.
pub type ImageSectionHeader64 = ImageSectionHeader32;

/// A section with its raw data.
pub type Pe64Section = Pe32Section;

/// A parsed PE32+ image.
#[derive(Debug, Clone)]
pub struct Pe64File {
    pub dos_header: ImageDosHeader64,
    pub file_header: ImageFileHeader64,
    pub entry_point: u32,
    pub image_base: u64,
    pub base_of_code: u32,
    pub sections: Vec<Pe64Section>,
    pub raw_data: Vec<u8>,
    pub tls_callbacks: Vec<u64>,
}

/// Offset of the section table of `d`.
pub open spec fn section_table_offset(d: Seq<u8>) -> int {
    opt_header_offset(d) + le16(d, lfanew_of(d) + 20)
}

/// The geometries of the sections that the parser reads from `d`.
pub open spec fn image_sections(d: Seq<u8>) -> Seq<SectionGeometry> {
    table_geometries(d, section_table_offset(d), le16(d, lfanew_of(d) + 6) as int)
}

/// The image base of the PE32+ image `d`.
pub open spec fn pe64_image_base(d: Seq<u8>) -> u64 {
    le64(d, opt_header_offset(d) + 24)
}

/// The non-zero 64-bit entries from `off` on, up to the first zero entry
/// or the end of `d`.
pub open spec fn tls_callbacks_at(d: Seq<u8>, off: int) -> Seq<u64>
    decreases d.len() - off,
{
    if off < 0 || off + 8 > d.len() {
        seq![]
    } else if le64(d, off) == 0 {
        seq![]
    } else {
        seq![le64(d, off)] + tls_callbacks_at(d, off + 8)
    }
}

/// The TLS callbacks of `d`: when the data directory has a TLS entry
/// (at least 10 entries, non-zero RVA) whose directory lies in a section
/// and in the file, and the directory's callback array address is
/// non-zero and lies in a section, the entries of that array.
pub open spec fn pe64_tls_callbacks(d: Seq<u8>) -> Seq<u64> {
    let opt = opt_header_offset(d);
    let secs = image_sections(d);
    if le32(d, opt + 108) < 10 {
        seq![]
    } else {
        let tls_rva = le32(d, opt + 184);
        if tls_rva == 0 {
            seq![]
        } else {
            match rva_file_offset(secs, tls_rva) {
                None => seq![],
                Some(t) => if t + 40 > d.len() {
                    seq![]
                } else {
                    let cva = le64(d, t + 24);
                    if cva == 0 {
                        seq![]
                    } else {
                        match rva_file_offset(secs, va_to_rva(cva, pe64_image_base(d))) {
                            None => seq![],
                            Some(c) => tls_callbacks_at(d, c),
                        }
                    }
                },
            }
        }
    }
}

/// Reading the TLS directory of `d` is defined: the data directory count
/// and, when there are 10 entries, the TLS entry lie in the file; the RVA
/// translations that it makes are defined.
pub open spec fn pe64_tls_defined(d: Seq<u8>) -> bool {
    let opt = opt_header_offset(d);
    let secs = image_sections(d);
    let tls_rva = le32(d, opt + 184);
    &&& d.len() >= opt + 112
    &&& le32(d, opt + 108) >= 10 ==> {
        &&& d.len() >= opt + 188
        &&& tls_rva != 0 ==> {
            &&& rva_lookup_defined(secs, tls_rva, 40)
            &&& rva_file_offset(secs, tls_rva) matches Some(t) ==> (t + 40 <= d.len() && le64(d, t + 24)
                != 0 ==> rva_lookup_defined(
                secs,
                va_to_rva(le64(d, t + 24), pe64_image_base(d)),
                8,
            ))
        }
    }
}

/// `Pe64File::parse` is defined on `d`.
pub open spec fn pe64_parse_defined(d: Seq<u8>) -> bool {
    &&& nt_headers_defined(d)
    &&& nt_headers_error(d) is None ==> {
        &&& d.len() >= opt_header_offset(d) + 2
        &&& le16(d, opt_header_offset(d)) == PE32PLUS_MAGIC ==> pe64_tls_defined(d)
    }
}

/// The error that `Pe64File::parse` returns for `d`, if any.
pub open spec fn pe64_parse_error(d: Seq<u8>) -> Option<Seq<char>> {
    match nt_headers_error(d) {
        Some(e) => Some(e),
        None => if le16(d, opt_header_offset(d)) != PE32PLUS_MAGIC {
            Some("Not a PE32+ 64-bit executable"@)
        } else {
            None
        },
    }
}

/// The entries of the callback array at `start`.
fn read_callback_array(data: &[u8], start: usize) -> (r: Vec<u64>)
    ensures
        r@ == tls_callbacks_at(data@, start as int),
{
    let mut r: Vec<u64> = Vec::new();
    let mut off = start;
    while off <= data.len() && data.len() - off >= 8
        invariant
            start <= off,
            tls_callbacks_at(data@, start as int) == r@ + tls_callbacks_at(data@, off as int),
        ensures
            tls_callbacks_at(data@, start as int) == r@,
        decreases data@.len() - off,
    {
        let cb = read_le64(data, off);
        if cb == 0 {
            assert(r@ + Seq::<u64>::empty() =~= r@);
            break;
        }
        let ghost before = r@;
        r.push(cb);
        assert(before + tls_callbacks_at(data@, off as int) =~= r@ + tls_callbacks_at(
            data@,
            off + 8,
        ));
        off = off + 8;
    }
    proof {
        if !(off <= data@.len() && data@.len() - off >= 8) {
            assert(r@ + Seq::<u64>::empty() =~= r@);
        }
    }
    r
}

/// Reads the TLS callbacks of a PE32+ image whose optional header is at
/// `opt` and whose sections are `sections`.
fn read_tls_callbacks(
    data: &[u8],
    sections: &Vec<Pe64Section>,
    opt: usize,
    image_base: u64,
) -> (r: Vec<u64>)
    requires
        opt == opt_header_offset(data@),
        geometries(sections@) == image_sections(data@),
        image_base == pe64_image_base(data@),
        pe64_tls_defined(data@),
    ensures
        r@ == pe64_tls_callbacks(data@),
{
    let ghost d = data@;
    let ghost secs = geometries(sections@);
    let num_rva_sizes = read_le32(data, opt + 108);
    if num_rva_sizes < 10 {
        return Vec::new();
    }
    let tls_dir_rva = read_le32(data, opt + 184);
    if tls_dir_rva == 0 {
        return Vec::new();
    }
    proof {
        lemma_rva_index_found(secs, tls_dir_rva, 0);
    }
    let tls_offset = match Pe64File::rva_to_file_offset_static(sections, tls_dir_rva) {
        Ok(t) => t,
        Err(_) => return Vec::new(),
    };
    assert(rva_file_offset(secs, tls_dir_rva) == Some(tls_offset as int));
    if tls_offset + 40 > data.len() {
        return Vec::new();
    }
    let callbacks_va = read_le64(data, tls_offset + 24);
    if callbacks_va == 0 {
        return Vec::new();
    }
    let callbacks_rva = if callbacks_va >= image_base {
        (callbacks_va - image_base) as u32
    } else {
        callbacks_va as u32
    };
    assert(callbacks_rva == va_to_rva(callbacks_va, image_base));
    proof {
        lemma_rva_index_found(secs, callbacks_rva, 0);
    }
    match Pe64File::rva_to_file_offset_static(sections, callbacks_rva) {
        Ok(cb_start) => {
            assert(rva_file_offset(secs, callbacks_rva) == Some(cb_start as int));
            read_callback_array(data, cb_start)
        },
        Err(_) => Vec::new(),
    }
}

/// Whether reading the TLS directory of `data` is defined (see
/// `pe64_tls_defined`), for an image whose NT headers check out.
pub fn tls_is_defined(data: &[u8]) -> (r: bool)
    requires
        nt_headers_defined(data@),
        nt_headers_error(data@) is None,
    ensures
        r == pe64_tls_defined(data@),
{
    let ghost d = data@;
    let lfanew = match read_nt_headers(data) {
        Ok((_, l)) => l,
        Err(_) => return true,
    };
    let len = data.len() as u64;
    let opt = lfanew as u64 + 24;
    assert(opt == opt_header_offset(d));
    if len < opt + 112 {
        return false;
    }
    let num_rva_sizes = read_le32(data, (opt + 108) as usize);
    if num_rva_sizes < 10 {
        return true;
    }
    if len < opt + 188 {
        return false;
    }
    let tls_rva = read_le32(data, (opt + 184) as usize);
    if tls_rva == 0 {
        return true;
    }
    let soh = read_le16(data, lfanew + 20);
    let count = read_le16(data, lfanew + 6);
    let sho = opt + soh as u64;
    let sections = parse_sections(data, sho, count);
    proof {
        lemma_table_geometries(sections@, d, sho as int, count as int);
    }
    let ghost secs = geometries(sections@);
    assert(secs == image_sections(d));
    if !rva_lookup_is_defined(&sections, tls_rva, 40) {
        return false;
    }
    proof {
        lemma_rva_index_found(secs, tls_rva, 0);
    }
    let t = match rva_to_file_offset(&sections, tls_rva) {
        Ok(t) => t,
        Err(_) => return true,
    };
    assert(rva_file_offset(secs, tls_rva) == Some(t as int));
    if t as u64 + 40 > len {
        return true;
    }
    let cva = read_le64(data, t + 24);
    if cva == 0 {
        return true;
    }
    let image_base = read_le64(data, (opt + 24) as usize);
    let crva = if cva >= image_base {
        (cva - image_base) as u32
    } else {
        cva as u32
    };
    assert(crva == va_to_rva(cva, pe64_image_base(d)));
    rva_lookup_is_defined(&sections, crva, 8)
}

/// `get_owner_section_index(v)` finds the first section whose span holds
/// `get_rva_from_va(v)`, and `get_file_offset_from_rva` of that RVA is
/// its offset in that section; when no section holds it, there is no
/// offset and the translation fails.
pub proof fn law_pe64_owner_offset(f: Pe64File, v: u64)
    ensures
        ({
            let r = va_to_rva(v, f.image_base);
            let secs = geometries(f.sections@);
            match rva_section_index(secs, r) {
                Some(i) => {
                    &&& 0 <= i < f.sections@.len()
                    &&& f.sections@[i].header.virtual_address <= r
                    &&& r < f.sections@[i].header.virtual_address + section_span(secs[i])
                    &&& forall|j: int| 0 <= j < i ==> !rva_in_section(#[trigger] secs[j], r)
                    &&& rva_file_offset(secs, r) == Some(
                        f.sections@[i].header.pointer_to_raw_data + (r
                            - f.sections@[i].header.virtual_address),
                    )
                },
                None => {
                    &&& forall|j: int| 0 <= j < secs.len() ==> !rva_in_section(#[trigger] secs[j], r)
                    &&& rva_file_offset(secs, r) is None
                },
            }
        }),
{
    let r = va_to_rva(v, f.image_base);
    law_owner_section_offset(geometries(f.sections@), r);
}

impl Pe64File {
    /// `self` is the image `d` read as PE32+: its headers, entry point,
    /// image base, base of code, sections, TLS callbacks, and `d` itself.
    pub open spec fn parsed_from(self, d: Seq<u8>) -> bool {
        let opt = opt_header_offset(d);
        &&& self.raw_data@ == d
        &&& self.dos_header.parsed_from(d)
        &&& self.file_header.parsed_from(d, lfanew_of(d) + 4)
        &&& self.entry_point == le32(d, opt + 16)
        &&& self.base_of_code == le32(d, opt + 20)
        &&& self.image_base == le64(d, opt + 24)
        &&& sections_parsed_from(
            self.sections@,
            d,
            opt + self.file_header.size_of_optional_header,
            self.file_header.number_of_sections as int,
        )
        &&& self.tls_callbacks@ == pe64_tls_callbacks(d)
    }

    /// Parses `data` as a PE32+ image.
    pub fn parse(data: &[u8]) -> (r: Result<Self, String>)
        requires
            pe64_parse_defined(data@),
        ensures
            match r {
                Ok(f) => pe64_parse_error(data@) is None && f.parsed_from(data@),
                Err(e) => pe64_parse_error(data@) == Some(e@),
            },
    {
        let (dos_header, lfanew) = match read_nt_headers(data) {
            Ok(v) => v,
            Err(e) => return Err(e),
        };
        let file_header_offset = lfanew + 4;
        let opt_header_offset = file_header_offset + FILE_HEADER_SIZE;
        let file_header = ImageFileHeader32::read(data, file_header_offset);
        let magic = read_le16(data, opt_header_offset);
        if magic != PE32PLUS_MAGIC {
            return Err("Not a PE32+ 64-bit executable".to_owned());
        }
        let entry_point = read_le32(data, opt_header_offset + 16);
        let base_of_code = read_le32(data, opt_header_offset + 20);
        let image_base = read_le64(data, opt_header_offset + 24);
        let section_header_offset = opt_header_offset as u64
            + file_header.size_of_optional_header as u64;
        let sections = parse_sections(data, section_header_offset, file_header.number_of_sections);
        proof {
            lemma_table_geometries(
                sections@,
                data@,
                section_header_offset as int,
                file_header.number_of_sections as int,
            );
        }
        let tls_callbacks = read_tls_callbacks(data, &sections, opt_header_offset, image_base);
        let raw_data = vstd::slice::slice_to_vec(data);
        Ok(Pe64File {
            dos_header,
            file_header,
            entry_point,
            image_base,
            base_of_code,
            sections,
            raw_data,
            tls_callbacks,
        })
    }

    fn rva_to_file_offset_static(sections: &Vec<Pe64Section>, rva: u32) -> (r: Result<
        usize,
        String,
    >)
        requires
            rva_lookup_defined(geometries(sections@), rva, 0),
        ensures
            match rva_file_offset(geometries(sections@), rva) {
                Some(off) => r == Ok::<usize, String>(off as usize),
                None => r matches Err(e) && e@ == rva_not_found_message(rva),
            },
    {
        rva_to_file_offset(sections, rva)
    }

    /// Translates `rva` to a file offset through the section table.
    pub fn get_file_offset_from_rva(&self, rva: u32) -> (r: Result<usize, String>)
        requires
            rva_lookup_defined(geometries(self.sections@), rva, 0),
        ensures
            match rva_file_offset(geometries(self.sections@), rva) {
                Some(off) => r == Ok::<usize, String>(off as usize),
                None => r matches Err(e) && e@ == rva_not_found_message(rva),
            },
    {
        Self::rva_to_file_offset_static(&self.sections, rva)
    }

    /// `va` relative to the image base (truncated to 32 bits), or `va`
    /// itself when it is below the image base.
    pub fn get_rva_from_va(&self, va: u64) -> (r: u32)
        ensures
            r == va_to_rva(va, self.image_base),
    {
        if va >= self.image_base {
            (va - self.image_base) as u32
        } else {
            va as u32
        }
    }

    /// The index of the first section that holds `va_or_rva` (taken as an
    /// RVA after `get_rva_from_va`).
    pub fn get_owner_section_index(&self, va_or_rva: u64) -> (r: Option<usize>)
        ensures
            r == match rva_section_index(
                geometries(self.sections@),
                va_to_rva(va_or_rva, self.image_base),
            ) {
                Some(i) => Some(i as usize),
                None => None::<usize>,
            },
    {
        let rva = self.get_rva_from_va(va_or_rva);
        rva_section_index_exec(&self.sections, rva)
    }

    /// Whether a section is called `name`.
    pub fn has_section(&self, name: &str) -> (r: bool)
        ensures
            r == first_named(self.sections@, name@) is Some,
    {
        self.get_section(name).is_some()
    }

    /// The first section called `name` (its name field with the NULs
    /// around it trimmed).
    pub fn get_section(&self, name: &str) -> (r: Option<&Pe64Section>)
        ensures
            r == (match first_named(self.sections@, name@) {
                Some(i) => Some(&self.sections@[i]),
                None => None,
            }),
    {
        match find_named_section(&self.sections, name) {
            Some(i) => Some(&self.sections[i]),
            None => None,
        }
    }
}

} // verus!
