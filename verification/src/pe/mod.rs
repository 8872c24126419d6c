//! PE image model and the image rewriting steps shared by the unpackers.
pub mod file32;
pub mod file64;
pub mod sections;

pub use file32::{ImageDosHeader32, ImageFileHeader32, ImageSectionHeader32, Pe32File, Pe32Section};
pub use file64::{ImageDosHeader64, ImageFileHeader64, ImageSectionHeader64, Pe64File, Pe64Section};

use crate::bytes::{
    le16, le16_bytes, le32, le32_bytes, read_le16, read_le32, splice, write_le16, write_le32,
};
use crate::pe::file32::{
    lfanew_of, nt_headers_defined, opt_header_offset, pe32_parse_defined, pe32_parse_error,
    read_nt_headers, IMAGE_DOS_SIGNATURE, PE32_MAGIC,
};
use crate::pe::file64::{pe64_parse_defined, pe64_parse_error, tls_is_defined, PE32PLUS_MAGIC};
use crate::pe::sections::{find_named_section, first_named};
use vstd::prelude::*;
use vstd::slice::SliceAdditionalExecFns;

verus! {

/// `n` zero bytes.
pub open spec fn zeros(n: nat) -> Seq<u8> {
    Seq::new(n, |i: int| 0u8)
}

/// Sum of the little-endian 16-bit words of `s`; an odd trailing byte
/// counts as a word of its own.
pub open spec fn word_sum(s: Seq<u8>) -> nat
    decreases s.len(),
{
    if s.len() == 0 {
        0
    } else if s.len() == 1 {
        s[0] as nat
    } else {
        le16(s, 0) as nat + word_sum(s.skip(2))
    }
}

/// The PE image checksum of `s`: the word sum modulo 2^32, folded twice
/// to 16 bits, plus the length of the image (modulo 2^32).
pub open spec fn pe_checksum(s: Seq<u8>) -> u32 {
    let sum = word_sum(s) % 0x1_0000_0000;
    let folded = sum % 0x10000 + sum / 0x10000;
    let folded2 = (folded + folded / 0x10000) % 0x10000;
    ((folded2 + s.len()) % 0x1_0000_0000) as u32
}

/// `s` with its checksum field at `off` recomputed: the field is zeroed,
/// the checksum of that image is stored there. Unchanged when the field
/// does not fit in `s`.
pub open spec fn with_pe_checksum(s: Seq<u8>, off: int) -> Seq<u8> {
    if off + 4 <= s.len() {
        let zeroed = splice(s, off, zeros(4));
        splice(zeroed, off, le32_bytes(pe_checksum(zeroed)))
    } else {
        s
    }
}

/// A vector of `n` zero bytes.
pub fn zero_vec(n: usize) -> (r: Vec<u8>)
    ensures
        r@ == zeros(n as nat),
{
    let mut r: Vec<u8> = Vec::new();
    let mut k: usize = 0;
    while k < n
        invariant
            k <= n,
            r@ == zeros(k as nat),
        decreases n - k,
    {
        r.push(0u8);
        k = k + 1;
        assert(r@ =~= zeros(k as nat));
    }
    r
}

/// Sets `buf[start..start + n]` to zero.
pub fn fill_zero(buf: &mut [u8], start: usize, n: usize)
    requires
        start + n <= old(buf)@.len(),
    ensures
        final(buf)@ == splice(old(buf)@, start as int, zeros(n as nat)),
{
    let ghost s = buf@;
    let _len = buf.len();
    let mut k: usize = 0;
    while k < n
        invariant
            k <= n,
            _len == s.len(),
            start + n <= s.len(),
            buf@.len() == s.len(),
            forall|j: int| 0 <= j < s.len() ==> #[trigger] buf@[j] == (if start <= j < start + k {
                0u8
            } else {
                s[j]
            }),
        decreases n - k,
    {
        buf.set(start + k, 0u8);
        k = k + 1;
    }
    assert(buf@ =~= splice(s, start as int, zeros(n as nat)));
}

/// Copies `buf[src..src + n]` to `buf[dst..dst + n]`, for `dst <= src`.
fn copy_down(buf: &mut [u8], dst: usize, src: usize, n: usize)
    requires
        dst <= src,
        src + n <= old(buf)@.len(),
    ensures
        final(buf)@ == splice(old(buf)@, dst as int, old(buf)@.subrange(src as int, src + n)),
{
    let ghost s = buf@;
    let _len = buf.len();
    let mut k: usize = 0;
    while k < n
        invariant
            k <= n,
            _len == s.len(),
            dst <= src,
            src + n <= s.len(),
            buf@.len() == s.len(),
            forall|j: int| 0 <= j < s.len() ==> #[trigger] buf@[j] == (if dst <= j < dst + k {
                s[j - dst + src]
            } else {
                s[j]
            }),
        decreases n - k,
    {
        let b = buf[src + k];
        buf.set(dst + k, b);
        k = k + 1;
    }
    assert(buf@ =~= splice(s, dst as int, s.subrange(src as int, src + n)));
}

proof fn lemma_word_sum_step(s: Seq<u8>, i: int)
    requires
        0 <= i,
        i + 2 <= s.len(),
    ensures
        word_sum(s.skip(i)) == le16(s, i) as nat + word_sum(s.skip(i + 2)),
{
    let t = s.skip(i);
    assert(t.skip(2) =~= s.skip(i + 2));
    assert(le16(t, 0) == le16(s, i));
}

/// Helper function to compute and update the PE checksum in out_data.
/// The bounds in `requires` are where the offset computation and the
/// final 64-bit addition of the length would overflow.
pub fn compute_pe_checksum(out_data: &mut [u8], checksum_offset: usize)
    requires
        checksum_offset + 4 <= usize::MAX,
        old(out_data)@.len() + 0x10000 <= u64::MAX,
    ensures
        final(out_data)@ == with_pe_checksum(old(out_data)@, checksum_offset as int),
{
    let len = out_data.len();
    if checksum_offset + 4 <= len {
        fill_zero(out_data, checksum_offset, 4);
        let ghost z = out_data@;
        let mut checksum: u64 = 0;
        let mut i: usize = 0;
        assert(z.skip(0) =~= z);
        while len - i >= 2
            invariant
                len == z.len(),
                out_data@ == z,
                i <= len,
                checksum < 0x1_0000_0000,
                (checksum + word_sum(z.skip(i as int))) % 0x1_0000_0000 == word_sum(z)
                    % 0x1_0000_0000,
            decreases len - i,
        {
            let val = read_le16(out_data, i) as u64;
            proof {
                lemma_word_sum_step(z, i as int);
                assert(checksum >> 32u64 == 0) by (bit_vector)
                    requires
                        checksum < 0x1_0000_0000u64,
                ;
            }
            let ghost prev = checksum;
            checksum = (checksum + val) + (checksum >> 32u64);
            checksum = checksum & 0xFFFFFFFF;
            proof {
                let t = (prev + val) as u64;
                assert(t & 0xFFFFFFFF == t % 0x1_0000_0000) by (bit_vector);
                let w = word_sum(z.skip(i + 2));
                let m: int = 0x1_0000_0000;
                vstd::arithmetic::div_mod::lemma_add_mod_noop_right(w as int, t as int, m);
            }
            i = i + 2;
        }
        if i < len {
            let ghost prev = checksum;
            let val = out_data[i] as u64;
            proof {
                assert(checksum >> 32u64 == 0) by (bit_vector)
                    requires
                        checksum < 0x1_0000_0000u64,
                ;
                assert(z.skip(i as int).len() == 1);
                assert(word_sum(z.skip(i as int)) == z[i as int] as nat);
            }
            checksum = (checksum + val) + (checksum >> 32u64);
            checksum = checksum & 0xFFFFFFFF;
            proof {
                let t = (prev + val) as u64;
                assert(t & 0xFFFFFFFF == t % 0x1_0000_0000) by (bit_vector);
            }
        } else {
            assert(z.skip(i as int).len() == 0);
        }
        let ghost sum = checksum;
        assert(sum == word_sum(z) % 0x1_0000_0000);
        assert((sum & 0xFFFF) <= 0xFFFF && (sum >> 16u64) <= 0xFFFF) by (bit_vector)
            requires
                sum < 0x1_0000_0000u64,
        ;
        checksum = (checksum & 0xFFFF) + (checksum >> 16u64);
        assert(checksum >> 16u64 <= 1) by (bit_vector)
            requires
                checksum <= 0x1FFFEu64,
        ;
        checksum = checksum + (checksum >> 16u64);
        checksum = checksum & 0xFFFF;
        proof {
            assert((sum & 0xFFFF) == sum % 0x10000 && (sum >> 16u64) == sum / 0x10000) by (
            bit_vector);
            let f = ((sum & 0xFFFF) + (sum >> 16u64)) as u64;
            assert(f < 0x20000);
            assert((f >> 16u64) == f / 0x10000 && (((f + (f >> 16u64)) as u64) & 0xFFFF) == (f + f
                / 0x10000) % 0x10000) by (bit_vector)
                requires
                    f < 0x20000u64,
            ;
        }
        checksum = checksum + len as u64;
        let csum = #[verifier::truncate] (checksum as u32);
        proof {
            let c = checksum;
            assert(c as u32 == c % 0x1_0000_0000) by (bit_vector);
        }
        write_le32(out_data, checksum_offset, csum);
    }
}

/// Recomputing the checksum of an image whose checksum was just
/// recomputed changes nothing, for every byte sequence and every field
/// offset: the stored checksum does not depend on what the field held
/// before.
pub proof fn law_checksum_idempotent(s: Seq<u8>, off: int)
    requires
        0 <= off,
    ensures
        with_pe_checksum(with_pe_checksum(s, off), off) == with_pe_checksum(s, off),
{
    if off + 4 <= s.len() {
        let zeroed = splice(s, off, zeros(4));
        let once = splice(zeroed, off, le32_bytes(pe_checksum(zeroed)));
        assert(splice(once, off, zeros(4)) =~= zeroed);
        assert(once.len() == s.len());
    }
}

/// The checksum field of a rewritten image holds the checksum of that
/// image with the field read as zero, and no other byte changes.
pub proof fn law_checksum_field(s: Seq<u8>, off: int)
    requires
        0 <= off,
        off + 4 <= s.len(),
    ensures
        with_pe_checksum(s, off).len() == s.len(),
        with_pe_checksum(s, off).subrange(off, off + 4) == le32_bytes(pe_checksum(
            splice(with_pe_checksum(s, off), off, zeros(4)),
        )),
        forall|j: int|
            0 <= j < s.len() && !(off <= j < off + 4) ==> #[trigger] with_pe_checksum(s, off)[j]
                == s[j],
{
    let zeroed = splice(s, off, zeros(4));
    let once = splice(zeroed, off, le32_bytes(pe_checksum(zeroed)));
    assert(splice(once, off, zeros(4)) =~= zeroed);
    assert(once.subrange(off, off + 4) =~= le32_bytes(pe_checksum(zeroed)));
}

/// The image after `strip_section_header`: the section count at
/// `file_header_offset + 2` is decremented (unless zero), the headers after
/// `target_idx` move down one slot, the last slot is zeroed and so is the
/// stripped section's raw data; each step is skipped when its range does
/// not fit in the image.
pub open spec fn stripped_image(
    s: Seq<u8>,
    file_header_offset: int,
    section_header_offset: int,
    total_sections: int,
    target_idx: int,
    sec_hdr_size: int,
    raw_offset: int,
    raw_size: int,
) -> Seq<u8> {
    let num = le16(s, file_header_offset + 2);
    let s1 = if num > 0 {
        splice(s, file_header_offset + 2, le16_bytes((num - 1) as u16))
    } else {
        s
    };
    let hdr = section_header_offset + target_idx * sec_hdr_size;
    let remaining = (total_sections - target_idx - 1) * sec_hdr_size;
    let s2 = if remaining > 0 && hdr + sec_hdr_size + remaining <= s.len() {
        splice(s1, hdr, s1.subrange(hdr + sec_hdr_size, hdr + sec_hdr_size + remaining))
    } else {
        s1
    };
    let last = section_header_offset + (total_sections - 1) * sec_hdr_size;
    let s3 = if last + sec_hdr_size <= s.len() {
        splice(s2, last, zeros(sec_hdr_size as nat))
    } else {
        s2
    };
    if raw_offset + raw_size <= s.len() {
        splice(s3, raw_offset, zeros(raw_size as nat))
    } else {
        s3
    }
}

/// The offsets that `strip_section_header` computes fit in `usize`.
pub open spec fn strip_offsets_fit(
    section_header_offset: int,
    total_sections: int,
    target_idx: int,
    sec_hdr_size: int,
    raw_offset: int,
    raw_size: int,
) -> bool {
    let remaining = (total_sections - target_idx - 1) * sec_hdr_size;
    &&& section_header_offset + target_idx * sec_hdr_size <= usize::MAX
    &&& remaining <= usize::MAX
    &&& (remaining > 0 ==> section_header_offset + target_idx * sec_hdr_size + sec_hdr_size
        + remaining <= usize::MAX)
    &&& section_header_offset + (total_sections - 1) * sec_hdr_size + sec_hdr_size <= usize::MAX
    &&& raw_offset + raw_size <= usize::MAX
}

/// Helper function to strip a section header (e.g. .bind) and zero out its raw data in out_data.
pub fn strip_section_header(
    out_data: &mut [u8],
    file_header_offset: usize,
    section_header_offset: usize,
    total_sections: usize,
    target_idx: usize,
    sec_hdr_size: usize,
    raw_offset: usize,
    raw_size: usize,
)
    requires
        file_header_offset + 4 <= old(out_data)@.len(),
        target_idx < total_sections,
        strip_offsets_fit(
            section_header_offset as int,
            total_sections as int,
            target_idx as int,
            sec_hdr_size as int,
            raw_offset as int,
            raw_size as int,
        ),
    ensures
        final(out_data)@ == stripped_image(
            old(out_data)@,
            file_header_offset as int,
            section_header_offset as int,
            total_sections as int,
            target_idx as int,
            sec_hdr_size as int,
            raw_offset as int,
            raw_size as int,
        ),
{
    let len = out_data.len();
    let num_sections = read_le16(out_data, file_header_offset + 2);
    if num_sections > 0 {
        let new_num = num_sections - 1;
        write_le16(out_data, file_header_offset + 2, new_num);
    }
    let bind_hdr_offset = section_header_offset + target_idx * sec_hdr_size;
    let remaining_bytes = (total_sections - target_idx - 1) * sec_hdr_size;
    if remaining_bytes > 0 && bind_hdr_offset + sec_hdr_size + remaining_bytes <= len {
        copy_down(out_data, bind_hdr_offset, bind_hdr_offset + sec_hdr_size, remaining_bytes);
    }
    let last_hdr_offset = section_header_offset + (total_sections - 1) * sec_hdr_size;
    if last_hdr_offset + sec_hdr_size <= len {
        fill_zero(out_data, last_hdr_offset, sec_hdr_size);
    }
    if raw_offset + raw_size <= len {
        fill_zero(out_data, raw_offset, raw_size);
    }
}

/// The view of an optional byte slice.
pub open spec fn opt_bytes(o: Option<&[u8]>) -> Option<Seq<u8>> {
    match o {
        Some(s) => Some(s@),
        None => None,
    }
}

/// How many bytes of new section data of length `code_len` fit at `start`
/// in an image of `len` bytes.
pub open spec fn copy_len(code_len: int, len: int, start: int) -> int {
    if start >= len {
        0
    } else if code_len < len - start {
        code_len
    } else {
        len - start
    }
}

/// Name of the SteamStub loader section.
pub open spec fn bind_name() -> Seq<char> {
    ".bind"@
}

/// The image `raw` (NT headers at `lfanew`, optional header of
/// `soh` bytes, sections `secs`) rewritten for unpacking: the entry point
/// set to `ep`; when a code section index and data are given, the data
/// (cut at the end of the image) written over that section's raw data;
/// when `remove_bind` holds and a `.bind` section exists, that section
/// stripped; and last the image checksum recomputed.
pub open spec fn rebuilt_image(
    raw: Seq<u8>,
    lfanew: int,
    soh: int,
    secs: Seq<Pe32Section>,
    ep: u32,
    code_idx: Option<usize>,
    code: Option<Seq<u8>>,
    remove_bind: bool,
) -> Seq<u8> {
    let fho = lfanew + 4;
    let opt = fho + 20;
    let sho = opt + soh;
    let s1 = splice(raw, opt + 16, le32_bytes(ep));
    let s2 = match (code_idx, code) {
        (Some(i), Some(c)) => if i < secs.len() && secs[i as int].header.pointer_to_raw_data
            <= raw.len() {
            let start = secs[i as int].header.pointer_to_raw_data as int;
            splice(s1, start, c.take(copy_len(c.len() as int, raw.len() as int, start)))
        } else {
            s1
        },
        _ => s1,
    };
    let s3 = if remove_bind {
        match first_named(secs, bind_name()) {
            Some(b) => stripped_image(
                s2,
                fho,
                sho,
                secs.len() as int,
                b,
                40,
                secs[b].header.pointer_to_raw_data as int,
                secs[b].header.size_of_raw_data as int,
            ),
            None => s2,
        }
    } else {
        s2
    };
    with_pe_checksum(s3, opt + 64)
}

/// What `rebuild_image` needs: the optional header reaches past its
/// entry-point field, the section table and checksum field offsets fit in
/// `usize`, the length stays well within 64 bits, and when a `.bind`
/// section is to be stripped the offsets that stripping computes fit in
/// `usize`.
pub open spec fn rebuild_defined(
    raw: Seq<u8>,
    lfanew: int,
    soh: int,
    secs: Seq<Pe32Section>,
    remove_bind: bool,
) -> bool {
    &&& lfanew + 24 + 20 <= raw.len()
    &&& lfanew + 24 + soh <= usize::MAX
    &&& lfanew + 24 + 68 <= usize::MAX
    &&& raw.len() + 0x10000 <= u64::MAX
    &&& remove_bind ==> (first_named(secs, bind_name()) matches Some(b) ==> strip_offsets_fit(
        lfanew + 24 + soh,
        secs.len() as int,
        b,
        40,
        secs[b].header.pointer_to_raw_data as int,
        secs[b].header.size_of_raw_data as int,
    ))
}

proof fn lemma_splice_len(s: Seq<u8>, off: int, w: Seq<u8>)
    requires
        0 <= off,
        off + w.len() <= s.len(),
    ensures
        splice(s, off, w).len() == s.len(),
{
}

proof fn lemma_stripped_len(
    s: Seq<u8>,
    fho: int,
    sho: int,
    total: int,
    target: int,
    hsz: int,
    raw_offset: int,
    raw_size: int,
)
    requires
        0 <= fho,
        fho + 4 <= s.len(),
        0 <= sho,
        0 <= target < total,
        0 <= hsz,
        0 <= raw_offset,
        0 <= raw_size,
    ensures
        stripped_image(s, fho, sho, total, target, hsz, raw_offset, raw_size).len() == s.len(),
{
    let num = le16(s, fho + 2);
    let s1 = if num > 0 {
        splice(s, fho + 2, le16_bytes((num - 1) as u16))
    } else {
        s
    };
    if num > 0 {
        crate::bytes::lemma_le16_roundtrip((num - 1) as u16);
        lemma_splice_len(s, fho + 2, le16_bytes((num - 1) as u16));
    }
    let hdr = sho + target * hsz;
    assert(hdr >= 0) by (nonlinear_arith)
        requires
            0 <= sho,
            0 <= target,
            0 <= hsz,
            hdr == sho + target * hsz,
    ;
    let last = sho + (total - 1) * hsz;
    assert(last >= 0) by (nonlinear_arith)
        requires
            0 <= sho,
            1 <= total,
            0 <= hsz,
            last == sho + (total - 1) * hsz,
    ;
}

/// Rebuilding keeps the image length, and when the optional header holds
/// the checksum field, that field of the rebuilt image holds the PE
/// checksum of the image with the field zeroed: an unpacked image carries
/// a valid checksum.
pub proof fn law_rebuilt_image_checksum(
    raw: Seq<u8>,
    lfanew: int,
    soh: int,
    secs: Seq<Pe32Section>,
    ep: u32,
    code_idx: Option<usize>,
    code: Option<Seq<u8>>,
    remove_bind: bool,
)
    requires
        0 <= lfanew,
        0 <= soh,
        lfanew + 24 + 68 <= raw.len(),
        rebuild_defined(raw, lfanew, soh, secs, remove_bind),
    ensures
        ({
            let img = rebuilt_image(raw, lfanew, soh, secs, ep, code_idx, code, remove_bind);
            let off = lfanew + 24 + 64;
            &&& img.len() == raw.len()
            &&& img.subrange(off, off + 4) == le32_bytes(pe_checksum(splice(img, off, zeros(4))))
        }),
{
    let fho = lfanew + 4;
    let opt = fho + 20;
    let sho = opt + soh;
    crate::bytes::lemma_le32_roundtrip(ep);
    let s1 = splice(raw, opt + 16, le32_bytes(ep));
    lemma_splice_len(raw, opt + 16, le32_bytes(ep));
    let s2 = match (code_idx, code) {
        (Some(i), Some(c)) => if i < secs.len() && secs[i as int].header.pointer_to_raw_data
            <= raw.len() {
            let start = secs[i as int].header.pointer_to_raw_data as int;
            splice(s1, start, c.take(copy_len(c.len() as int, raw.len() as int, start)))
        } else {
            s1
        },
        _ => s1,
    };
    assert(s2.len() == raw.len());
    let s3 = if remove_bind {
        match first_named(secs, bind_name()) {
            Some(b) => stripped_image(
                s2,
                fho,
                sho,
                secs.len() as int,
                b,
                40,
                secs[b].header.pointer_to_raw_data as int,
                secs[b].header.size_of_raw_data as int,
            ),
            None => s2,
        }
    } else {
        s2
    };
    if remove_bind {
        if let Some(b) = first_named(secs, bind_name()) {
            crate::pe::sections::lemma_first_named_in_range(secs, bind_name());
            lemma_stripped_len(
                s2,
                fho,
                sho,
                secs.len() as int,
                b,
                40,
                secs[b].header.pointer_to_raw_data as int,
                secs[b].header.size_of_raw_data as int,
            );
        }
    }
    assert(s3.len() == raw.len());
    law_checksum_field(s3, opt + 64);
}

/// Whether rebuilding the image is defined (see `rebuild_defined`).
pub fn rebuild_is_defined(
    raw: &[u8],
    lfanew: usize,
    size_of_optional_header: u16,
    sections: &Vec<Pe32Section>,
    remove_bind: bool,
) -> (r: bool)
    ensures
        r == rebuild_defined(raw@, lfanew as int, size_of_optional_header as int, sections@, remove_bind),
{
    let len = raw.len() as u128;
    let l = lfanew as u128;
    let max = usize::MAX as u128;
    if l + 24 + 20 > len || l + 24 + size_of_optional_header as u128 > max || l + 24 + 68 > max
        || len + 0x10000 > 0xFFFF_FFFF_FFFF_FFFF {
        return false;
    }
    if !remove_bind {
        return true;
    }
    match find_named_section(sections, ".bind") {
        Some(b) => {
            proof {
                reveal_strlit(".bind");
            }
            let h = &sections[b].header;
            let sho = l + 24 + size_of_optional_header as u128;
            let total = sections.len() as u128;
            let bi = b as u128;
            let hdr = sho + bi * 40;
            let remaining = (total - bi - 1) * 40;
            hdr <= max && remaining <= max && (remaining == 0 || hdr + 40 + remaining <= max) && sho
                + (total - 1) * 40 + 40 <= max && h.pointer_to_raw_data as u128
                + h.size_of_raw_data as u128 <= max
        },
        None => true,
    }
}

proof fn lemma_splice_keeps(s: Seq<u8>, off: int, w: Seq<u8>, j: int)
    requires
        0 <= off,
        off + w.len() <= s.len(),
        0 <= j < s.len(),
        !(off <= j < off + w.len()),
    ensures
        splice(s, off, w)[j] == s[j],
{
}

proof fn lemma_stripped_keeps(
    s: Seq<u8>,
    fho: int,
    sho: int,
    total: int,
    target: int,
    hsz: int,
    raw_offset: int,
    raw_size: int,
    j: int,
)
    requires
        0 <= fho,
        fho + 4 <= s.len(),
        0 <= target < total,
        0 <= hsz,
        0 <= raw_offset,
        0 <= raw_size,
        fho + 4 <= j < sho,
        j < s.len(),
        !(raw_offset <= j < raw_offset + raw_size),
    ensures
        stripped_image(s, fho, sho, total, target, hsz, raw_offset, raw_size)[j] == s[j],
{
    let num = le16(s, fho + 2);
    let s1 = if num > 0 {
        splice(s, fho + 2, le16_bytes((num - 1) as u16))
    } else {
        s
    };
    if num > 0 {
        crate::bytes::lemma_le16_roundtrip((num - 1) as u16);
        lemma_splice_len(s, fho + 2, le16_bytes((num - 1) as u16));
        lemma_splice_keeps(s, fho + 2, le16_bytes((num - 1) as u16), j);
    }
    assert(s1[j] == s[j]);
    let hdr = sho + target * hsz;
    assert(hdr >= sho) by (nonlinear_arith)
        requires
            0 <= target,
            0 <= hsz,
            hdr == sho + target * hsz,
    ;
    let last = sho + (total - 1) * hsz;
    assert(last >= sho) by (nonlinear_arith)
        requires
            1 <= total,
            0 <= hsz,
            last == sho + (total - 1) * hsz,
    ;
}

/// The rebuilt image starts at the entry point asked for: when neither the
/// new code section data nor the stripped `.bind` data reach into the
/// optional header's entry-point field, and the section table lies after
/// that field, the field holds `ep`.
pub proof fn law_rebuilt_entry_point(
    raw: Seq<u8>,
    lfanew: int,
    soh: int,
    secs: Seq<Pe32Section>,
    ep: u32,
    code_idx: Option<usize>,
    code: Option<Seq<u8>>,
    remove_bind: bool,
)
    requires
        0 <= lfanew,
        20 <= soh,
        rebuild_defined(raw, lfanew, soh, secs, remove_bind),
        code_idx matches Some(i) ==> (i < secs.len() ==> secs[i as int].header.pointer_to_raw_data
            >= lfanew + 24 + 20),
        remove_bind ==> (first_named(secs, bind_name()) matches Some(b) ==> (
        secs[b].header.pointer_to_raw_data >= lfanew + 24 + 20
            || secs[b].header.pointer_to_raw_data + secs[b].header.size_of_raw_data <= lfanew + 24
            + 16)),
    ensures
        le32(rebuilt_image(raw, lfanew, soh, secs, ep, code_idx, code, remove_bind), lfanew + 24 + 16)
            == ep,
{
    let fho = lfanew + 4;
    let opt = fho + 20;
    let sho = opt + soh;
    crate::bytes::lemma_le32_roundtrip(ep);
    crate::bytes::law_le32_write_read(raw, opt + 16, ep);
    let s1 = splice(raw, opt + 16, le32_bytes(ep));
    lemma_splice_len(raw, opt + 16, le32_bytes(ep));
    let s2 = match (code_idx, code) {
        (Some(i), Some(c)) => if i < secs.len() && secs[i as int].header.pointer_to_raw_data
            <= raw.len() {
            let start = secs[i as int].header.pointer_to_raw_data as int;
            splice(s1, start, c.take(copy_len(c.len() as int, raw.len() as int, start)))
        } else {
            s1
        },
        _ => s1,
    };
    assert forall|j: int| opt + 16 <= j < opt + 20 implies #[trigger] s2[j] == s1[j] by {
        if let (Some(i), Some(c)) = (code_idx, code) {
            if i < secs.len() && secs[i as int].header.pointer_to_raw_data <= raw.len() {
                let start = secs[i as int].header.pointer_to_raw_data as int;
                let w = c.take(copy_len(c.len() as int, raw.len() as int, start));
                lemma_splice_keeps(s1, start, w, j);
            }
        }
    }
    assert(s2.len() == raw.len());
    let s3 = if remove_bind {
        match first_named(secs, bind_name()) {
            Some(b) => stripped_image(
                s2,
                fho,
                sho,
                secs.len() as int,
                b,
                40,
                secs[b].header.pointer_to_raw_data as int,
                secs[b].header.size_of_raw_data as int,
            ),
            None => s2,
        }
    } else {
        s2
    };
    assert forall|j: int| opt + 16 <= j < opt + 20 implies #[trigger] s3[j] == s2[j] by {
        if remove_bind {
            if let Some(b) = first_named(secs, bind_name()) {
                crate::pe::sections::lemma_first_named_in_range(secs, bind_name());
                lemma_stripped_keeps(
                    s2,
                    fho,
                    sho,
                    secs.len() as int,
                    b,
                    40,
                    secs[b].header.pointer_to_raw_data as int,
                    secs[b].header.size_of_raw_data as int,
                    j,
                );
            }
        }
    }
    if remove_bind {
        if let Some(b) = first_named(secs, bind_name()) {
            crate::pe::sections::lemma_first_named_in_range(secs, bind_name());
            lemma_stripped_len(
                s2,
                fho,
                sho,
                secs.len() as int,
                b,
                40,
                secs[b].header.pointer_to_raw_data as int,
                secs[b].header.size_of_raw_data as int,
            );
        }
    }
    let img = with_pe_checksum(s3, opt + 64);
    if opt + 64 + 4 <= s3.len() {
        law_checksum_field(s3, opt + 64);
    }
    assert forall|j: int| opt + 16 <= j < opt + 20 implies #[trigger] img[j] == s1[j] by {
        assert(s3[j] == s2[j]);
        assert(s2[j] == s1[j]);
    }
    assert(img.subrange(opt + 16, opt + 20) =~= s1.subrange(opt + 16, opt + 20));
}

/// Copies `code[..n]` into `buf` at `start`.
pub fn copy_into(buf: &mut [u8], start: usize, code: &[u8], n: usize)
    requires
        n <= code@.len(),
        start + n <= old(buf)@.len(),
    ensures
        final(buf)@ == splice(old(buf)@, start as int, code@.take(n as int)),
{
    let ghost s = buf@;
    let _len = buf.len();
    let mut k: usize = 0;
    while k < n
        invariant
            k <= n,
            n <= code@.len(),
            _len == s.len(),
            start + n <= s.len(),
            buf@.len() == s.len(),
            forall|j: int| 0 <= j < s.len() ==> #[trigger] buf@[j] == (if start <= j < start + k {
                code@[j - start]
            } else {
                s[j]
            }),
        decreases n - k,
    {
        buf.set(start + k, code[k]);
        k = k + 1;
    }
    assert(buf@ =~= splice(s, start as int, code@.take(n as int)));
}

/// Writes the new code section data, cut at the end of the image, over
/// the raw data of section `code_sec_index` (see `rebuilt_image`).
fn write_code(
    out_data: &mut [u8],
    Ghost(raw_len): Ghost<nat>,
    sections: &Vec<Pe32Section>,
    code_sec_index: Option<usize>,
    new_code_data: Option<&[u8]>,
)
    requires
        old(out_data)@.len() == raw_len,
    ensures
        final(out_data)@.len() == raw_len,
        final(out_data)@ == match (code_sec_index, opt_bytes(new_code_data)) {
            (Some(i), Some(c)) => if i < sections@.len() && sections@[i as int].header.pointer_to_raw_data
                <= raw_len {
                let start = sections@[i as int].header.pointer_to_raw_data as int;
                splice(old(out_data)@, start, c.take(copy_len(c.len() as int, raw_len as int, start)))
            } else {
                old(out_data)@
            },
            _ => old(out_data)@,
        },
{
    let len = out_data.len();
    match (code_sec_index, new_code_data) {
        (Some(idx), Some(code_data)) => {
            if idx < sections.len() {
                let start = sections[idx].header.pointer_to_raw_data as usize;
                let room = if start <= len {
                    len - start
                } else {
                    0
                };
                let n = if code_data.len() < room {
                    code_data.len()
                } else {
                    room
                };
                if start <= len {
                    proof {
                        lemma_splice_len(out_data@, start as int, code_data@.take(n as int));
                    }
                    copy_into(out_data, start, code_data, n);
                }
            }
        },
        _ => {},
    }
}

/// Strips the first `.bind` section, if there is one, from the image in
/// `out_data` (see `stripped_image`).
fn strip_bind(
    out_data: &mut [u8],
    sections: &Vec<Pe32Section>,
    file_header_offset: usize,
    section_header_offset: usize,
)
    requires
        file_header_offset + 4 <= old(out_data)@.len(),
        first_named(sections@, bind_name()) matches Some(b) ==> strip_offsets_fit(
            section_header_offset as int,
            sections@.len() as int,
            b,
            40,
            sections@[b].header.pointer_to_raw_data as int,
            sections@[b].header.size_of_raw_data as int,
        ),
    ensures
        final(out_data)@.len() == old(out_data)@.len(),
        final(out_data)@ == match first_named(sections@, bind_name()) {
            Some(b) => stripped_image(
                old(out_data)@,
                file_header_offset as int,
                section_header_offset as int,
                sections@.len() as int,
                b,
                40,
                sections@[b].header.pointer_to_raw_data as int,
                sections@[b].header.size_of_raw_data as int,
            ),
            None => old(out_data)@,
        },
{
    proof {
        reveal_strlit(".bind");
    }
    match find_named_section(sections, ".bind") {
        Some(bind_idx) => {
            let h = &sections[bind_idx].header;
            proof {
                lemma_stripped_len(
                    out_data@,
                    file_header_offset as int,
                    section_header_offset as int,
                    sections@.len() as int,
                    bind_idx as int,
                    40,
                    h.pointer_to_raw_data as int,
                    h.size_of_raw_data as int,
                );
            }
            strip_section_header(
                out_data,
                file_header_offset,
                section_header_offset,
                sections.len(),
                bind_idx,
                40,
                h.pointer_to_raw_data as usize,
                h.size_of_raw_data as usize,
            );
        },
        None => {},
    }
}

/// Rebuilds PE file bytes with a new entry point, an updated code section,
/// the `.bind` section removed, and an updated PE checksum.
pub fn rebuild_image(
    raw: &[u8],
    lfanew: usize,
    size_of_optional_header: u16,
    sections: &Vec<Pe32Section>,
    new_entry_point: u32,
    code_sec_index: Option<usize>,
    new_code_data: Option<&[u8]>,
    remove_bind: bool,
) -> (r: Vec<u8>)
    requires
        rebuild_defined(raw@, lfanew as int, size_of_optional_header as int, sections@, remove_bind),
    ensures
        r@ == rebuilt_image(
            raw@,
            lfanew as int,
            size_of_optional_header as int,
            sections@,
            new_entry_point,
            code_sec_index,
            opt_bytes(new_code_data),
            remove_bind,
        ),
{
    let mut out_data = vstd::slice::slice_to_vec(raw);
    let file_header_offset = lfanew + 4;
    let opt_header_offset = file_header_offset + 20;
    crate::bytes::write_le32(out_data.as_mut_slice(), opt_header_offset + 16, new_entry_point);
    write_code(out_data.as_mut_slice(), Ghost(raw@.len()), sections, code_sec_index, new_code_data);
    if remove_bind {
        strip_bind(
            out_data.as_mut_slice(),
            sections,
            file_header_offset,
            opt_header_offset + size_of_optional_header as usize,
        );
    }
    compute_pe_checksum(out_data.as_mut_slice(), opt_header_offset + 64);
    out_data
}

/// A parsed PE image of either kind.
#[derive(Debug, Clone)]
pub enum PeFile {
    Pe32(Pe32File),
    Pe64(Pe64File),
}

/// `PeFile::parse` is defined on `d`: reading it as PE32 is, and, when
/// that fails, reading it as PE32+ is too.
pub open spec fn pe_parse_defined(d: Seq<u8>) -> bool {
    &&& pe32_parse_defined(d)
    &&& pe32_parse_error(d) is Some ==> pe64_parse_defined(d)
}

impl PeFile {
    /// Parses `data` as a PE32 image, or else as a PE32+ image.
    pub fn parse(data: &[u8]) -> (r: Result<Self, String>)
        requires
            pe_parse_defined(data@),
        ensures
            match r {
                Ok(PeFile::Pe32(f)) => pe32_parse_error(data@) is None && f.parsed_from(data@),
                Ok(PeFile::Pe64(f)) => pe32_parse_error(data@) is Some && pe64_parse_error(data@) is None
                    && f.parsed_from(data@),
                Err(e) => pe32_parse_error(data@) is Some && pe64_parse_error(data@) is Some && e@
                    == "Failed to parse file as PE32 or PE32+"@,
            },
    {
        if let Ok(pe32) = Pe32File::parse(data) {
            return Ok(PeFile::Pe32(pe32));
        }
        if let Ok(pe64) = Pe64File::parse(data) {
            return Ok(PeFile::Pe64(pe64));
        }
        Err("Failed to parse file as PE32 or PE32+".to_owned())
    }

    /// Whether `PeFile::parse` is defined on `data` (see
    /// `pe_parse_defined`).
    pub fn parse_is_defined(data: &[u8]) -> (r: bool)
        ensures
            r == pe_parse_defined(data@),
    {
        let ghost d = data@;
        let len = data.len() as u64;
        if len > 0xFFFF_FFFF_FFFF_FFFF - 0x100_0000 {
            return false;
        }
        if data.len() >= 64 && read_le16(data, 0) == IMAGE_DOS_SIGNATURE {
            let l = read_le32(data, 60) as i32;
            assert(l == lfanew_of(d));
            if -4 <= l && l < 0 {
                return false;
            }
        }
        assert(nt_headers_defined(d));
        let lfanew = match read_nt_headers(data) {
            Ok((_, l)) => l,
            Err(_) => return true,
        };
        let opt = lfanew as u64 + 24;
        assert(opt == opt_header_offset(d));
        if len < opt + 2 {
            return false;
        }
        let magic = read_le16(data, opt as usize);
        if magic == PE32_MAGIC {
            return len >= opt + 32;
        }
        if magic == PE32PLUS_MAGIC {
            return tls_is_defined(data);
        }
        true
    }

    /// Whether the image is PE32+.
    pub fn is_64bit(&self) -> (r: bool)
        ensures
            r == (self is Pe64),
    {
        match self {
            PeFile::Pe64(_) => true,
            PeFile::Pe32(_) => false,
        }
    }

    /// Whether a section is called `name`.
    pub fn has_section(&self, name: &str) -> (r: bool)
        ensures
            r == match self {
                PeFile::Pe32(f) => first_named(f.sections@, name@) is Some,
                PeFile::Pe64(f) => first_named(f.sections@, name@) is Some,
            },
    {
        match self {
            PeFile::Pe32(f) => f.has_section(name),
            PeFile::Pe64(f) => f.has_section(name),
        }
    }

    /// The entry point RVA.
    pub fn entry_point(&self) -> (r: u32)
        ensures
            r == match self {
                PeFile::Pe32(f) => f.entry_point,
                PeFile::Pe64(f) => f.entry_point,
            },
    {
        match self {
            PeFile::Pe32(f) => f.entry_point,
            PeFile::Pe64(f) => f.entry_point,
        }
    }

    /// The image base, widened to 64 bits.
    pub fn image_base(&self) -> (r: u64)
        ensures
            r == match self {
                PeFile::Pe32(f) => f.image_base as u64,
                PeFile::Pe64(f) => f.image_base,
            },
    {
        match self {
            PeFile::Pe32(f) => f.image_base as u64,
            PeFile::Pe64(f) => f.image_base,
        }
    }
}

} // verus!
