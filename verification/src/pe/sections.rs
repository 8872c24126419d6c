//! Section lookups shared by PE32 and PE32+ images: section contents,
//! name matching and RVA translation.
use crate::pe::file32::{ImageSectionHeader32, Pe32Section, SECTION_HEADER_SIZE};
use crate::bytes::le32;
use crate::text::{hex8, push_hex8};
use vstd::prelude::*;

verus! {

/// The raw data of the section with header `h` in the image `d`: the
/// `size_of_raw_data` bytes at `pointer_to_raw_data`, cut at the end of the
/// image; empty when the data starts past the end.
pub open spec fn section_bytes(d: Seq<u8>, h: ImageSectionHeader32) -> Seq<u8> {
    let start = h.pointer_to_raw_data as int;
    let size = h.size_of_raw_data as int;
    if start + size <= d.len() {
        d.subrange(start, start + size)
    } else if start < d.len() {
        d.skip(start)
    } else {
        seq![]
    }
}

/// Copies the raw data of the section with header `h` out of `data`.
pub fn section_data(data: &[u8], h: &ImageSectionHeader32) -> (r: Vec<u8>)
    ensures
        r@ == section_bytes(data@, *h),
{
    let len = data.len() as u64;
    let start = h.pointer_to_raw_data as u64;
    let size = h.size_of_raw_data as u64;
    if start + size <= len {
        let s = vstd::slice::slice_subrange(data, start as usize, (start + size) as usize);
        vstd::slice::slice_to_vec(s)
    } else if start < len {
        let s = vstd::slice::slice_subrange(data, start as usize, data.len());
        vstd::slice::slice_to_vec(s)
    } else {
        Vec::new()
    }
}

/// `sec` is the section whose header is the `k`-th entry of the section
/// table at `sho` in `d`, with its raw data.
pub open spec fn section_entry_ok(sec: Pe32Section, d: Seq<u8>, sho: int, k: int) -> bool {
    &&& sho + 40 * (k + 1) <= d.len()
    &&& sec.header.parsed_from(d, sho + 40 * k)
    &&& sec.data@ == section_bytes(d, sec.header)
}

/// The sections of an image whose section table starts at `sho`:
/// `number_of_sections` headers, cut before the first one that does not
/// fit in the image; each with its raw data.
pub open spec fn sections_parsed_from(
    secs: Seq<Pe32Section>,
    d: Seq<u8>,
    sho: int,
    number_of_sections: int,
) -> bool {
    &&& secs.len() <= number_of_sections
    &&& secs.len() < number_of_sections ==> sho + 40 * (secs.len() + 1) > d.len()
    &&& forall|i: int| 0 <= i < secs.len() ==> section_entry_ok(#[trigger] secs[i], d, sho, i)
}

/// Reads the section table at `sho`.
pub fn parse_sections(data: &[u8], sho: u64, number_of_sections: u16) -> (r: Vec<Pe32Section>)
    requires
        sho + 40 * 0x10000 <= u64::MAX,
    ensures
        sections_parsed_from(r@, data@, sho as int, number_of_sections as int),
{
    let dlen = data.len();
    let len = dlen as u64;
    let mut sections: Vec<Pe32Section> = Vec::new();
    let mut i: u16 = 0;
    while i < number_of_sections
        invariant
            len == data@.len(),
            dlen == data@.len(),
            sho + 40 * 0x10000 <= u64::MAX,
            i <= number_of_sections,
            sections@.len() == i,
            forall|k: int|
                0 <= k < sections@.len() ==> section_entry_ok(#[trigger] sections@[k], data@, sho as int, k),
        ensures
            sections@.len() <= number_of_sections,
            sections@.len() < number_of_sections ==> sho + 40 * (sections@.len() + 1) > data@.len(),
            forall|k: int|
                0 <= k < sections@.len() ==> section_entry_ok(#[trigger] sections@[k], data@, sho as int, k),
        decreases number_of_sections - i,
    {
        let offset = sho + (i as u64) * (SECTION_HEADER_SIZE as u64);
        if offset + SECTION_HEADER_SIZE as u64 > len {
            break;
        }
        assert(offset + 40 <= data@.len());
        let off = offset as usize;
        assert(off == offset);
        let header = ImageSectionHeader32::read(data, off);
        let sec_data = section_data(data, &header);
        let ghost before = sections@;
        sections.push(Pe32Section { header, data: sec_data });
        proof {
            assert(section_entry_ok(sections@[i as int], data@, sho as int, i as int));
            assert forall|k: int| 0 <= k < sections@.len() implies section_entry_ok(
                #[trigger] sections@[k],
                data@,
                sho as int,
                k,
            ) by {
                if k < i {
                    assert(sections@[k] == before[k]);
                }
            }
        }
        i = i + 1;
    }
    sections
}

proof fn lemma_section_count_from(len: int, sho: int, n: int, c: int, i: int)
    requires
        0 <= i <= c <= n,
        sho + 40 * c <= len || c == 0,
        c < n ==> sho + 40 * (c + 1) > len,
    ensures
        section_count_from(len, sho, n, i) == c,
    decreases c - i,
{
    if i < c {
        assert(sho + 40 * (i + 1) <= len);
        lemma_section_count_from(len, sho, n, c, i + 1);
    }
}

/// The section table that `parse_sections` read has the geometries that
/// `table_geometries` describes.
pub proof fn lemma_table_geometries(secs: Seq<Pe32Section>, d: Seq<u8>, sho: int, n: int)
    requires
        sections_parsed_from(secs, d, sho, n),
    ensures
        secs.len() == section_count_from(d.len() as int, sho, n, 0),
        geometries(secs) == table_geometries(d, sho, n),
{
    if secs.len() > 0 {
        assert(section_entry_ok(secs[secs.len() - 1], d, sho, secs.len() - 1));
    }
    lemma_section_count_from(d.len() as int, sho, n, secs.len() as int, 0);
    assert forall|k: int| 0 <= k < secs.len() implies geometries(secs)[k] == table_geometries(
        d,
        sho,
        n,
    )[k] by {
        assert(section_entry_ok(secs[k], d, sho, k));
    }
    assert(geometries(secs) =~= table_geometries(d, sho, n));
}

/// What `String::from_utf8_lossy` makes of `bytes`, as characters.
pub uninterp spec fn utf8_lossy(bytes: Seq<u8>) -> Seq<char>;

/// The bytes are all ASCII.
pub open spec fn all_ascii(bytes: Seq<u8>) -> bool {
    forall|i: int| 0 <= i < bytes.len() ==> #[trigger] bytes[i] < 0x80
}

/// The characters that `String::from_utf8_lossy` makes of `bytes`: ASCII
/// bytes are valid UTF-8 and decode to themselves; other input gives
/// `utf8_lossy(bytes)`.
pub open spec fn lossy_chars(bytes: Seq<u8>) -> Seq<char> {
    if all_ascii(bytes) {
        bytes.map_values(|b: u8| b as char)
    } else {
        utf8_lossy(bytes)
    }
}

/// Calls `String::from_utf8_lossy` and collects the characters of the
/// result. Claimed: bytes that are all ASCII come back as the same
/// characters, and the characters of any other input are
/// `utf8_lossy(bytes)`, a function of the bytes alone. What the conversion
/// does to non-ASCII bytes is not stated.
#[verifier::external_body]
fn utf8_lossy_chars(bytes: &[u8]) -> (r: Vec<char>)
    ensures
        r@ == lossy_chars(bytes@),
        !all_ascii(bytes@) ==> r@ == utf8_lossy(bytes@),
{
    String::from_utf8_lossy(bytes).chars().collect()
}

/// `s` without leading NUL characters.
pub open spec fn trim_start_nul(s: Seq<char>) -> Seq<char>
    decreases s.len(),
{
    if s.len() > 0 && s[0] == '\0' {
        trim_start_nul(s.drop_first())
    } else {
        s
    }
}

/// `s` without trailing NUL characters.
pub open spec fn trim_end_nul(s: Seq<char>) -> Seq<char>
    decreases s.len(),
{
    if s.len() > 0 && s.last() == '\0' {
        trim_end_nul(s.drop_last())
    } else {
        s
    }
}

/// `str::trim_matches('\0')`.
pub open spec fn trim_nul(s: Seq<char>) -> Seq<char> {
    trim_end_nul(trim_start_nul(s))
}

/// The section with header `h` is called `name`: its name field, decoded
/// as (lossy) UTF-8 with the NULs around it trimmed, is `name`.
pub open spec fn section_named(h: ImageSectionHeader32, name: Seq<char>) -> bool {
    trim_nul(lossy_chars(h.name@)) == name
}

proof fn lemma_trim_end_padding(c: Seq<char>, len: int, k: int)
    requires
        0 < len <= k <= c.len(),
        c[len - 1] != '\0',
        forall|j: int| len <= j < k ==> #[trigger] c[j] == '\0',
    ensures
        trim_end_nul(c.take(k)) == c.take(len),
    decreases k,
{
    if k > len {
        assert(c.take(k).drop_last() =~= c.take(k - 1));
        lemma_trim_end_padding(c, len, k - 1);
    }
}

/// A section whose 8-byte name field holds a non-empty run of ASCII
/// bytes without NULs, `ascii`, followed by NULs is called by those
/// characters and by no other name.
pub proof fn law_padded_ascii_section_name(h: ImageSectionHeader32, ascii: Seq<u8>)
    requires
        0 < ascii.len() <= 8,
        forall|i: int| 0 <= i < ascii.len() ==> 0 < #[trigger] ascii[i] < 0x80,
        h.name@ == ascii + Seq::new((8 - ascii.len()) as nat, |i: int| 0u8),
    ensures
        forall|n: Seq<char>|
            section_named(h, n) <==> n == ascii.map_values(|x: u8| x as char),
{
    let b = h.name@;
    let len = ascii.len() as int;
    assert forall|i: int| 0 <= i < b.len() implies #[trigger] b[i] < 0x80 by {
        if i < len {
            assert(b[i] == ascii[i]);
        } else {
            assert(b[i] == 0u8);
        }
    }
    assert(all_ascii(b));
    let c = lossy_chars(b);
    assert(c == b.map_values(|x: u8| x as char));
    assert(c.len() == 8);
    assert forall|j: int| len <= j < 8 implies #[trigger] c[j] == '\0' by {
        assert(b[j] == 0u8);
    }
    assert(b[len - 1] == ascii[len - 1]);
    assert(c[len - 1] != '\0');
    assert(b[0] == ascii[0]);
    assert(c[0] != '\0');
    assert(c.take(8) =~= c);
    assert(trim_start_nul(c) == c);
    lemma_trim_end_padding(c, len, 8);
    assert(c.take(len) =~= ascii.map_values(|x: u8| x as char));
}

/// The index of the first of `secs[i..]` called `name`.
pub open spec fn first_named_from(secs: Seq<Pe32Section>, name: Seq<char>, i: int) -> Option<int>
    decreases secs.len() - i,
{
    if i < 0 || i >= secs.len() {
        None
    } else if section_named(secs[i].header, name) {
        Some(i)
    } else {
        first_named_from(secs, name, i + 1)
    }
}

/// The index of the first section called `name`.
pub open spec fn first_named(secs: Seq<Pe32Section>, name: Seq<char>) -> Option<int> {
    first_named_from(secs, name, 0)
}

/// A section found by name lies in the table.
pub proof fn lemma_first_named_in_range(secs: Seq<Pe32Section>, name: Seq<char>)
    ensures
        first_named(secs, name) matches Some(k) ==> 0 <= k < secs.len(),
{
    lemma_first_named_from_in_range(secs, name, 0);
}

proof fn lemma_first_named_from_in_range(secs: Seq<Pe32Section>, name: Seq<char>, i: int)
    requires
        0 <= i,
    ensures
        first_named_from(secs, name, i) matches Some(k) ==> i <= k < secs.len(),
    decreases secs.len() - i,
{
    if i < secs.len() && !section_named(secs[i].header, name) {
        lemma_first_named_from_in_range(secs, name, i + 1);
    }
}

/// The characters of `s`.
pub fn str_chars(s: &str) -> (r: Vec<char>)
    ensures
        r@ == s@,
{
    broadcast use vstd::string::axiom_spec_iter;

    let mut r: Vec<char> = Vec::new();
    for c in it: s.chars()
        invariant
            it.seq() == s@,
            r@ == s@.take(it.index()),
    {
        r.push(c);
        assert(r@ =~= s@.take(it.index() + 1));
    }
    assert(s@.take(s@.len() as int) =~= s@);
    r
}

fn trimmed_equals(s: &Vec<char>, name: &Vec<char>) -> (r: bool)
    ensures
        r == (trim_nul(s@) == name@),
{
    let n = s.len();
    let mut a: usize = 0;
    assert(s@.skip(0) =~= s@);
    while a < n && s[a] == '\0'
        invariant
            a <= n,
            n == s@.len(),
            trim_start_nul(s@) == trim_start_nul(s@.skip(a as int)),
        decreases n - a,
    {
        assert(s@.skip(a as int).drop_first() =~= s@.skip(a + 1));
        a = a + 1;
    }
    let ghost t = s@.skip(a as int);
    assert(trim_start_nul(s@) == t);
    let mut b: usize = n;
    assert(t =~= s@.subrange(a as int, b as int));
    while b > a && s[b - 1] == '\0'
        invariant
            a <= b <= n,
            n == s@.len(),
            trim_end_nul(t) == trim_end_nul(s@.subrange(a as int, b as int)),
        decreases b - a,
    {
        assert(s@.subrange(a as int, b as int).drop_last() =~= s@.subrange(a as int, b - 1));
        b = b - 1;
    }
    let ghost u = s@.subrange(a as int, b as int);
    assert(trim_nul(s@) == u);
    if b - a != name.len() {
        return false;
    }
    let mut k: usize = 0;
    while k < name.len()
        invariant
            a <= b <= n,
            n == s@.len(),
            b - a == name@.len(),
            k <= name@.len(),
            u == s@.subrange(a as int, b as int),
            trim_nul(s@) == u,
            forall|j: int| 0 <= j < k ==> u[j] == name@[j],
        decreases name@.len() - k,
    {
        assert(u[k as int] == s@[a + k]);
        if s[a + k] != name[k] {
            assert(u[k as int] != name@[k as int]);
            return false;
        }
        k = k + 1;
    }
    assert(u =~= name@);
    true
}

/// The index of the first section called `name`.
pub fn find_named_section(secs: &Vec<Pe32Section>, name: &str) -> (r: Option<usize>)
    ensures
        match r {
            Some(i) => first_named(secs@, name@) == Some(i as int) && i < secs@.len(),
            None => first_named(secs@, name@) is None,
        },
{
    let name_chars = str_chars(name);
    let mut i: usize = 0;
    while i < secs.len()
        invariant
            i <= secs@.len(),
            name_chars@ == name@,
            first_named(secs@, name@) == first_named_from(secs@, name@, i as int),
        decreases secs@.len() - i,
    {
        let decoded = utf8_lossy_chars(&secs[i].header.name);
        if trimmed_equals(&decoded, &name_chars) {
            return Some(i);
        }
        i = i + 1;
    }
    None
}

/// Where a section lies in memory and in the file: the fields of its
/// header that address translation reads.
pub struct SectionGeometry {
    pub virtual_address: u32,
    pub virtual_size: u32,
    pub size_of_raw_data: u32,
    pub pointer_to_raw_data: u32,
}

/// The geometry of the section with header `h`.
pub open spec fn geometry_of(h: ImageSectionHeader32) -> SectionGeometry {
    SectionGeometry {
        virtual_address: h.virtual_address,
        virtual_size: h.virtual_size,
        size_of_raw_data: h.size_of_raw_data,
        pointer_to_raw_data: h.pointer_to_raw_data,
    }
}

/// The geometry of the section header at `off` in `d`.
pub open spec fn geometry_at(d: Seq<u8>, off: int) -> SectionGeometry {
    SectionGeometry {
        virtual_address: le32(d, off + 12),
        virtual_size: le32(d, off + 8),
        size_of_raw_data: le32(d, off + 16),
        pointer_to_raw_data: le32(d, off + 20),
    }
}

/// The geometries of `secs`.
pub open spec fn geometries(secs: Seq<Pe32Section>) -> Seq<SectionGeometry> {
    secs.map_values(|s: Pe32Section| geometry_of(s.header))
}

/// How many entries of the section table at `sho` the parser reads,
/// counting on from `i`: it stops at `number_of_sections` or before the
/// first header that does not fit in an image of `len` bytes.
pub open spec fn section_count_from(len: int, sho: int, number_of_sections: int, i: int) -> int
    decreases number_of_sections - i,
{
    if i >= number_of_sections || sho + 40 * (i + 1) > len {
        i
    } else {
        section_count_from(len, sho, number_of_sections, i + 1)
    }
}

/// The geometries of the section table that the parser reads from `d`.
pub open spec fn table_geometries(d: Seq<u8>, sho: int, number_of_sections: int) -> Seq<
    SectionGeometry,
> {
    let n = section_count_from(d.len() as int, sho, number_of_sections, 0);
    Seq::new(n as nat, |i: int| geometry_at(d, sho + 40 * i))
}

/// How far a section extends in memory: the larger of its virtual size
/// and its raw size.
pub open spec fn section_span(g: SectionGeometry) -> int {
    if g.virtual_size >= g.size_of_raw_data {
        g.virtual_size as int
    } else {
        g.size_of_raw_data as int
    }
}

/// `rva` falls inside the section `g`.
pub open spec fn rva_in_section(g: SectionGeometry, rva: u32) -> bool {
    g.virtual_address <= rva && rva < g.virtual_address + section_span(g)
}

/// The index of the first of `secs[i..]` that holds `rva`.
pub open spec fn rva_index_from(secs: Seq<SectionGeometry>, rva: u32, i: int) -> Option<int>
    decreases secs.len() - i,
{
    if i < 0 || i >= secs.len() {
        None
    } else if rva_in_section(secs[i], rva) {
        Some(i)
    } else {
        rva_index_from(secs, rva, i + 1)
    }
}

/// The index of the first section that holds `rva`.
pub open spec fn rva_section_index(secs: Seq<SectionGeometry>, rva: u32) -> Option<int> {
    rva_index_from(secs, rva, 0)
}

/// The file offset of `rva` in the section `g`.
pub open spec fn offset_in_section(g: SectionGeometry, rva: u32) -> int {
    g.pointer_to_raw_data + (rva - g.virtual_address)
}

/// The file offset that `rva` maps to, if a section holds it.
pub open spec fn rva_file_offset(secs: Seq<SectionGeometry>, rva: u32) -> Option<int> {
    match rva_section_index(secs, rva) {
        Some(i) => Some(offset_in_section(secs[i], rva)),
        None => None,
    }
}

/// Translating `rva` neither overflows the 32-bit end address of a
/// section that it visits, nor yields an offset that exceeds
/// `usize::MAX - slack`.
pub open spec fn rva_lookup_defined(secs: Seq<SectionGeometry>, rva: u32, slack: int) -> bool {
    let bound = match rva_section_index(secs, rva) {
        Some(i) => i + 1,
        None => secs.len() as int,
    };
    &&& forall|i: int|
        0 <= i < bound && (#[trigger] secs[i]).virtual_address <= rva ==> secs[i].virtual_address
            + section_span(secs[i]) <= u32::MAX
    &&& rva_file_offset(secs, rva) matches Some(off) ==> off + slack <= usize::MAX
}

/// A section found for `rva` holds it, so the offset is not negative.
pub proof fn lemma_rva_index_found(secs: Seq<SectionGeometry>, rva: u32, i: int)
    requires
        0 <= i,
    ensures
        rva_index_from(secs, rva, i) matches Some(k) ==> i <= k < secs.len() && rva_in_section(
            secs[k],
            rva,
        ),
        rva_index_from(secs, rva, i) matches Some(k) ==> offset_in_section(secs[k], rva) >= 0,
    decreases secs.len() - i,
{
    if i < secs.len() && !rva_in_section(secs[i], rva) {
        lemma_rva_index_found(secs, rva, i + 1);
    }
}

proof fn lemma_rva_index_first(secs: Seq<SectionGeometry>, rva: u32, i: int)
    requires
        0 <= i,
    ensures
        match rva_index_from(secs, rva, i) {
            Some(k) => i <= k < secs.len() && rva_in_section(secs[k], rva) && forall|j: int|
                i <= j < k ==> !rva_in_section(#[trigger] secs[j], rva),
            None => forall|j: int| i <= j < secs.len() ==> !rva_in_section(#[trigger] secs[j], rva),
        },
    decreases secs.len() - i,
{
    if i < secs.len() && !rva_in_section(secs[i], rva) {
        lemma_rva_index_first(secs, rva, i + 1);
    }
}

/// The section that holds an RVA is the first one whose span contains
/// it, and the RVA's file offset is its offset in that section; an RVA
/// that no section holds has no file offset.
pub proof fn law_owner_section_offset(secs: Seq<SectionGeometry>, rva: u32)
    ensures
        match rva_section_index(secs, rva) {
            Some(i) => {
                &&& 0 <= i < secs.len()
                &&& rva_in_section(secs[i], rva)
                &&& forall|j: int| 0 <= j < i ==> !rva_in_section(#[trigger] secs[j], rva)
                &&& rva_file_offset(secs, rva) == Some(
                    secs[i].pointer_to_raw_data + (rva - secs[i].virtual_address),
                )
            },
            None => {
                &&& forall|j: int| 0 <= j < secs.len() ==> !rva_in_section(#[trigger] secs[j], rva)
                &&& rva_file_offset(secs, rva) is None
            },
        },
{
    lemma_rva_index_first(secs, rva, 0);
}

/// The message of a failed RVA translation.
pub open spec fn rva_not_found_message(rva: u32) -> Seq<char> {
    "RVA 0x"@ + hex8(rva) + " not found in any section"@
}

/// The index of the first section that holds `rva`.
pub fn rva_section_index_exec(secs: &Vec<Pe32Section>, rva: u32) -> (r: Option<usize>)
    ensures
        match r {
            Some(i) => rva_section_index(geometries(secs@), rva) == Some(i as int) && i
                < secs@.len() && rva_in_section(geometry_of(secs@[i as int].header), rva),
            None => rva_section_index(geometries(secs@), rva) is None,
        },
{
    let mut i: usize = 0;
    while i < secs.len()
        invariant
            i <= secs@.len(),
            rva_section_index(geometries(secs@), rva) == rva_index_from(
                geometries(secs@),
                rva,
                i as int,
            ),
        decreases secs@.len() - i,
    {
        let h = &secs[i].header;
        let v_addr = h.virtual_address as u64;
        let v_size = if h.virtual_size >= h.size_of_raw_data {
            h.virtual_size as u64
        } else {
            h.size_of_raw_data as u64
        };
        if rva as u64 >= v_addr && (rva as u64) < v_addr + v_size {
            return Some(i);
        }
        i = i + 1;
    }
    None
}

/// Whether translating `rva` is defined (see `rva_lookup_defined`).
pub fn rva_lookup_is_defined(secs: &Vec<Pe32Section>, rva: u32, slack: usize) -> (r: bool)
    ensures
        r == rva_lookup_defined(geometries(secs@), rva, slack as int),
{
    let ghost g = geometries(secs@);
    let mut i: usize = 0;
    while i < secs.len()
        invariant
            i <= secs@.len(),
            g == geometries(secs@),
            rva_section_index(g, rva) == rva_index_from(g, rva, i as int),
            forall|j: int|
                0 <= j < i && (#[trigger] g[j]).virtual_address <= rva ==> g[j].virtual_address
                    + section_span(g[j]) <= u32::MAX,
        decreases secs@.len() - i,
    {
        let h = &secs[i].header;
        assert(g[i as int] == geometry_of(*h));
        let v_addr = h.virtual_address as u64;
        let v_size = if h.virtual_size >= h.size_of_raw_data {
            h.virtual_size as u64
        } else {
            h.size_of_raw_data as u64
        };
        proof {
            lemma_rva_index_found(g, rva, i as int);
        }
        if v_addr <= rva as u64 && v_addr + v_size > 0xFFFF_FFFF {
            return false;
        }
        if v_addr <= rva as u64 && (rva as u64) < v_addr + v_size {
            assert(rva_section_index(g, rva) == Some(i as int));
            let off = h.pointer_to_raw_data as u128 + (rva as u128 - v_addr as u128);
            return off + slack as u128 <= usize::MAX as u128;
        }
        i = i + 1;
    }
    true
}

/// Translates `rva` to a file offset through the section table.
pub fn rva_to_file_offset(secs: &Vec<Pe32Section>, rva: u32) -> (r: Result<usize, String>)
    requires
        rva_lookup_defined(geometries(secs@), rva, 0),
    ensures
        match rva_file_offset(geometries(secs@), rva) {
            Some(off) => r == Ok::<usize, String>(off as usize),
            None => r matches Err(e) && e@ == rva_not_found_message(rva),
        },
{
    match rva_section_index_exec(secs, rva) {
        Some(i) => {
            let h = &secs[i].header;
            Ok(h.pointer_to_raw_data as usize + (rva - h.virtual_address) as usize)
        },
        None => {
            let mut msg = "RVA 0x".to_owned();
            push_hex8(&mut msg, rva);
            msg.push_str(" not found in any section");
            Err(msg)
        },
    }
}

/// `va` made relative to `image_base` when it is not below it; otherwise
/// taken as an RVA already (both truncated to 32 bits).
pub open spec fn va_to_rva(va: u64, image_base: u64) -> u32 {
    if va >= image_base {
        (va - image_base) as u32
    } else {
        va as u32
    }
}

} // verus!
