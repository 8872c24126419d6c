//! Building the library's messages.
use vstd::prelude::*;

verus! {

/// `String::push` appends one character.
pub assume_specification[ String::push ](s: &mut String, ch: char)
    ensures
        final(s)@ == old(s)@.push(ch),
;

/// `String::push_str` appends the characters of `string`.
pub assume_specification[ String::push_str ](s: &mut String, string: &str)
    ensures
        final(s)@ == old(s)@ + string@,
;

/// Upper-case hexadecimal digit for `d < 16`.
pub open spec fn hex_digit_upper(d: u32) -> char {
    if d < 10 {
        ((0x30 + d) as u8) as char
    } else {
        ((0x41 + d - 10) as u8) as char
    }
}

/// `format!("{:08X}", v)`: the eight upper-case hexadecimal digits of `v`.
pub open spec fn hex8(v: u32) -> Seq<char> {
    Seq::new(8, |i: int| hex_digit_upper(((v as int / pow16(7 - i)) % 16) as u32))
}

/// `16^k`.
pub open spec fn pow16(k: int) -> int
    decreases k,
{
    if k <= 0 {
        1
    } else {
        16 * pow16(k - 1)
    }
}

fn digit_char(d: u32) -> (c: char)
    requires
        d < 16,
    ensures
        c == hex_digit_upper(d),
{
    if d < 10 {
        ((0x30 + d) as u8) as char
    } else {
        ((0x41 + d - 10) as u8) as char
    }
}

/// Appends the eight upper-case hexadecimal digits of `v` to `s`.
pub fn push_hex8(s: &mut String, v: u32)
    ensures
        final(s)@ == old(s)@ + hex8(v),
{
    let ghost start = s@;
    let mut k: u32 = 0;
    let mut div: u32 = 0x1000_0000;
    proof {
        reveal_with_fuel(pow16, 8);
    }
    while k < 8
        invariant
            k <= 8,
            div > 0,
            div as int == pow16(7 - k as int),
            s@ == start + hex8(v).take(k as int),
        decreases 8 - k,
    {
        let d = (v / div) % 16;
        s.push(digit_char(d));
        proof {
            assert(s@ =~= start + hex8(v).take(k + 1));
        }
        if k < 7 {
            assert(pow16(7 - k as int) == 16 * pow16(6 - k as int));
            div = div / 16;
        }
        k = k + 1;
    }
    assert(hex8(v).take(8) =~= hex8(v));
}

} // verus!
