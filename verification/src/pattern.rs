//! Byte pattern scanning with wildcard tokens.
use vstd::prelude::*;

verus! {

/// `char::is_whitespace`: the Unicode `White_Space` property.
pub open spec fn is_ws(c: char) -> bool {
    let v = c as u32;
    (0x09 <= v && v <= 0x0D) || v == 0x20 || v == 0x85 || v == 0xA0 || v == 0x1680 || (0x2000 <= v
        && v <= 0x200A) || v == 0x2028 || v == 0x2029 || v == 0x202F || v == 0x205F || v == 0x3000
}

fn char_is_ws(c: char) -> (r: bool)
    ensures
        r == is_ws(c),
{
    let v = c as u32;
    (0x09 <= v && v <= 0x0D) || v == 0x20 || v == 0x85 || v == 0xA0 || v == 0x1680 || (0x2000 <= v
        && v <= 0x200A) || v == 0x2028 || v == 0x2029 || v == 0x202F || v == 0x205F || v == 0x3000
}

/// The token list that a non-empty `cur` adds when it is closed.
pub open spec fn flush(cur: Seq<char>) -> Seq<Seq<char>> {
    if cur.len() == 0 {
        seq![]
    } else {
        seq![cur]
    }
}

/// `split_whitespace` of `s`, where `cur` is a token already begun.
pub open spec fn split_ws_from(s: Seq<char>, cur: Seq<char>) -> Seq<Seq<char>>
    decreases s.len(),
{
    if s.len() == 0 {
        flush(cur)
    } else if is_ws(s[0]) {
        flush(cur) + split_ws_from(s.drop_first(), seq![])
    } else {
        split_ws_from(s.drop_first(), cur.push(s[0]))
    }
}

/// `str::split_whitespace`: the maximal runs of non-whitespace characters.
pub open spec fn split_ws(s: Seq<char>) -> Seq<Seq<char>> {
    split_ws_from(s, seq![])
}

/// Value of a hexadecimal digit (`0-9`, `a-f`, `A-F`).
pub open spec fn hex_digit(c: char) -> Option<nat> {
    let v = c as u32;
    if 0x30 <= v && v <= 0x39 {
        Some((v - 0x30) as nat)
    } else if 0x61 <= v && v <= 0x66 {
        Some((v - 0x61 + 10) as nat)
    } else if 0x41 <= v && v <= 0x46 {
        Some((v - 0x41 + 10) as nat)
    } else {
        None
    }
}

/// Value of the hexadecimal numeral `d` read after the value `acc`;
/// `None` when `d` holds a character that is not a hexadecimal digit.
pub open spec fn hex_fold(d: Seq<char>, acc: nat) -> Option<nat>
    decreases d.len(),
{
    if d.len() == 0 {
        Some(acc)
    } else {
        match hex_digit(d[0]) {
            Some(x) => hex_fold(d.drop_first(), acc * 16 + x),
            None => None,
        }
    }
}

/// One pattern token: `Some(None)` for a wildcard (`?` or `??`),
/// `Some(Some(b))` for a byte as `u8::from_str_radix(token, 16)` reads it
/// (an optional `+`, then at least one hexadecimal digit, value below 256),
/// `None` for anything else.
pub open spec fn parse_token(t: Seq<char>) -> Option<Option<u8>> {
    if (t.len() == 1 && t[0] == '?') || (t.len() == 2 && t[0] == '?' && t[1] == '?') {
        Some(None)
    } else {
        let d = if t.len() > 0 && t[0] == '+' {
            t.drop_first()
        } else {
            t
        };
        if d.len() == 0 {
            None
        } else {
            match hex_fold(d, 0) {
                Some(v) => if v < 256 {
                    Some(Some(v as u8))
                } else {
                    None
                },
                None => None,
            }
        }
    }
}

/// The pattern elements of `toks`, or `None` if a token is malformed.
pub open spec fn compile(toks: Seq<Seq<char>>) -> Option<Seq<Option<u8>>>
    decreases toks.len(),
{
    if toks.len() == 0 {
        Some(seq![])
    } else {
        match (compile(toks.drop_last()), parse_token(toks.last())) {
            (Some(p), Some(e)) => Some(p.push(e)),
            _ => None,
        }
    }
}

/// Pattern element `e` accepts byte `b`.
pub open spec fn elem_matches(e: Option<u8>, b: u8) -> bool {
    match e {
        Some(x) => x == b,
        None => true,
    }
}

/// `pat` occurs in `data` at `i`.
pub open spec fn matches_at(data: Seq<u8>, pat: Seq<Option<u8>>, i: int) -> bool {
    &&& 0 <= i
    &&& i + pat.len() <= data.len()
    &&& forall|j: int| 0 <= j < pat.len() ==> elem_matches(#[trigger] pat[j], data[i + j])
}

/// The first position at or after `i` where `pat` occurs in `data`.
pub open spec fn first_match_from(data: Seq<u8>, pat: Seq<Option<u8>>, i: int) -> Option<int>
    decreases data.len() - i,
{
    if i < 0 || i + pat.len() > data.len() {
        None
    } else if matches_at(data, pat, i) {
        Some(i)
    } else {
        first_match_from(data, pat, i + 1)
    }
}

/// What `find_pattern` returns: the first position where the pattern
/// occurs, or `None` if the pattern is empty, longer than `data`, holds a
/// malformed token or does not occur.
pub open spec fn spec_find_pattern(data: Seq<u8>, pattern: Seq<char>) -> Option<int> {
    let toks = split_ws(pattern);
    if toks.len() == 0 || data.len() < toks.len() {
        None
    } else {
        match compile(toks) {
            Some(pat) => first_match_from(data, pat, 0),
            None => None,
        }
    }
}

/// `r` as an index, for comparing with `spec_find_pattern`.
pub open spec fn opt_index(r: Option<usize>) -> Option<int> {
    match r {
        Some(i) => Some(i as int),
        None => None,
    }
}

proof fn lemma_hex_fold_ge(d: Seq<char>, acc: nat)
    ensures
        hex_fold(d, acc) matches Some(v) ==> v >= acc,
    decreases d.len(),
{
    if d.len() > 0 {
        if let Some(x) = hex_digit(d[0]) {
            lemma_hex_fold_ge(d.drop_first(), acc * 16 + x);
        }
    }
}

fn hex_digit_exec(c: char) -> (r: Option<u8>)
    ensures
        match r {
            Some(x) => hex_digit(c) == Some(x as nat) && x < 16,
            None => hex_digit(c) is None,
        },
{
    let v = c as u32;
    if 0x30 <= v && v <= 0x39 {
        Some((v - 0x30) as u8)
    } else if 0x61 <= v && v <= 0x66 {
        Some((v - 0x61 + 10) as u8)
    } else if 0x41 <= v && v <= 0x46 {
        Some((v - 0x41 + 10) as u8)
    } else {
        None
    }
}

fn parse_token_exec(t: &Vec<char>) -> (r: Option<Option<u8>>)
    ensures
        r == parse_token(t@),
{
    let n = t.len();
    if (n == 1 && t[0] == '?') || (n == 2 && t[0] == '?' && t[1] == '?') {
        return Some(None);
    }
    let start: usize = if n > 0 && t[0] == '+' {
        1
    } else {
        0
    };
    let ghost d = t@.skip(start as int);
    assert(d =~= (if n > 0 && t@[0] == '+' {
        t@.drop_first()
    } else {
        t@
    }));
    if start == n {
        return None;
    }
    let mut acc: u32 = 0;
    let mut k: usize = start;
    assert(d.skip(0) =~= d);
    while k < n
        invariant
            start <= k <= n,
            n == t@.len(),
            d == t@.skip(start as int),
            d == (if n > 0 && t@[0] == '+' {
                t@.drop_first()
            } else {
                t@
            }),
            d.len() > 0,
            !((t@.len() == 1 && t@[0] == '?') || (t@.len() == 2 && t@[0] == '?' && t@[1] == '?')),
            acc < 256,
            hex_fold(d, 0) == hex_fold(t@.skip(k as int), acc as nat),
        decreases n - k,
    {
        let ghost rest = t@.skip(k as int);
        assert(rest[0] == t@[k as int]);
        assert(rest.drop_first() =~= t@.skip(k + 1));
        match hex_digit_exec(t[k]) {
            Some(x) => {
                let next = acc * 16 + x as u32;
                assert(hex_fold(rest, acc as nat) == hex_fold(rest.drop_first(), next as nat));
                if next > 255 {
                    proof {
                        lemma_hex_fold_ge(t@.skip(k + 1), next as nat);
                    }
                    return None;
                }
                acc = next;
            },
            None => {
                assert(hex_fold(rest, acc as nat) is None);
                return None;
            },
        }
        k = k + 1;
    }
    assert(t@.skip(n as int).len() == 0);
    Some(Some(acc as u8))
}

fn matches_at_exec(data: &[u8], pat: &Vec<Option<u8>>, i: usize) -> (r: bool)
    requires
        i + pat@.len() <= data@.len(),
    ensures
        r == matches_at(data@, pat@, i as int),
{
    let len = pat.len();
    let dl = data.len();
    let mut j: usize = 0;
    while j < len
        invariant
            dl == data@.len(),
            j <= len,
            len == pat@.len(),
            i + len <= data@.len(),
            forall|q: int| 0 <= q < j ==> elem_matches(#[trigger] pat@[q], data@[i + q]),
        decreases len - j,
    {
        match pat[j] {
            Some(b) => {
                if data[i + j] != b {
                    assert(!elem_matches(pat@[j as int], data@[i + j]));
                    return false;
                }
            },
            None => {},
        }
        j = j + 1;
    }
    true
}

proof fn lemma_compile_len(toks: Seq<Seq<char>>)
    ensures
        compile(toks) matches Some(p) ==> p.len() == toks.len(),
    decreases toks.len(),
{
    if toks.len() > 0 {
        lemma_compile_len(toks.drop_last());
    }
}

proof fn lemma_compile_extend_none(a: Seq<Seq<char>>, b: Seq<Seq<char>>)
    requires
        compile(a) is None,
    ensures
        compile(a + b) is None,
    decreases b.len(),
{
    if b.len() > 0 {
        lemma_compile_extend_none(a, b.drop_last());
        assert((a + b).drop_last() =~= a + b.drop_last());
    } else {
        assert(a + b =~= a);
    }
}

proof fn lemma_split_ws_from_nonempty(s: Seq<char>, cur: Seq<char>)
    ensures
        cur.len() > 0 ==> split_ws_from(s, cur).len() > 0,
    decreases s.len(),
{
    if s.len() > 0 && !is_ws(s[0]) {
        lemma_split_ws_from_nonempty(s.drop_first(), cur.push(s[0]));
    }
}

/// High-performance byte pattern scanner supporting wildcard byte tokens (`??`).
///
/// Tokens are separated by whitespace; each one is a hexadecimal byte or
/// a wildcard (`?` or `??`). Returns the first offset where the pattern
/// occurs, or `None`.
pub fn find_pattern(data: &[u8], pattern: &str) -> (r: Option<usize>)
    ensures
        opt_index(r) == spec_find_pattern(data@, pattern@),
{
    broadcast use vstd::string::axiom_spec_iter;

    let ghost p = pattern@;
    let ghost toks = split_ws(p);
    let mut pat: Vec<Option<u8>> = Vec::new();
    let mut cur: Vec<char> = Vec::new();
    let ghost mut done: Seq<Seq<char>> = seq![];
    assert(p.skip(0) =~= p);
    for c in it: pattern.chars()
        invariant
            it.seq() == p,
            p == pattern@,
            toks == split_ws(p),
            toks == done + split_ws_from(p.skip(it.index()), cur@),
            compile(done) == Some(pat@),
    {
        assert(p.skip(it.index()).drop_first() =~= p.skip(it.index() + 1));
        assert(p.skip(it.index())[0] == c);
        if char_is_ws(c) {
            if cur.len() > 0 {
                let e = parse_token_exec(&cur);
                proof {
                    assert((done + seq![cur@]).drop_last() =~= done);
                }
                match e {
                    Some(e) => {
                        pat.push(e);
                    },
                    None => {
                        proof {
                            let rest = split_ws_from(p.skip(it.index() + 1), seq![]);
                            assert(split_ws_from(p.skip(it.index()), cur@) == flush(cur@) + rest);
                            assert(toks =~= (done + seq![cur@]) + rest);
                            lemma_compile_extend_none(done + seq![cur@], rest);
                        }
                        return None;
                    },
                }
            }
            proof {
                done = done + flush(cur@);
            }
            cur = Vec::new();
        } else {
            cur.push(c);
        }
    }
    assert(p.skip(p.len() as int) =~= Seq::<char>::empty());
    if cur.len() > 0 {
        let e = parse_token_exec(&cur);
        proof {
            assert((done + seq![cur@]).drop_last() =~= done);
        }
        match e {
            Some(e) => {
                pat.push(e);
            },
            None => {
                return None;
            },
        }
        proof {
            done = done + flush(cur@);
        }
    }
    assert(toks =~= done);
    let len = pat.len();
    if len == 0 || data.len() < len {
        return None;
    }
    let dl = data.len();
    let last = dl - len;
    proof {
        lemma_compile_len(toks);
    }
    let mut i: usize = 0;
    while i <= last
        invariant
            dl == data@.len(),
            p == pattern@,
            toks == split_ws(p),
            toks.len() == len,
            i <= last + 1,
            last + len == data@.len(),
            len == pat@.len(),
            len > 0,
            compile(toks) == Some(pat@),
            first_match_from(data@, pat@, 0) == first_match_from(data@, pat@, i as int),
        decreases last + 1 - i,
    {
        if matches_at_exec(data, &pat, i) {
            return Some(i);
        }
        i = i + 1;
    }
    None
}


proof fn lemma_first_match_from(data: Seq<u8>, pat: Seq<Option<u8>>, i: int)
    requires
        0 <= i,
    ensures
        first_match_from(data, pat, i) matches Some(k) ==> (i <= k && matches_at(data, pat, k)
            && forall|j: int| i <= j < k ==> !matches_at(data, pat, j)),
        first_match_from(data, pat, i) is None ==> forall|j: int| i <= j ==> !matches_at(data, pat, j),
    decreases data.len() - i,
{
    if i + pat.len() <= data.len() && !matches_at(data, pat, i) {
        lemma_first_match_from(data, pat, i + 1);
    }
}

/// `find_pattern` reports the first occurrence: when it gives a position,
/// the compiled pattern occurs there and at no earlier position; when a
/// well-formed, non-empty pattern no longer than the data gives nothing,
/// it occurs nowhere.
pub proof fn law_find_pattern_first(data: Seq<u8>, pattern: Seq<char>)
    ensures
        spec_find_pattern(data, pattern) matches Some(i) ==> (compile(split_ws(pattern)) matches Some(
            pat,
        ) && matches_at(data, pat, i) && forall|j: int| 0 <= j < i ==> !matches_at(data, pat, j)),
        ({
            let toks = split_ws(pattern);
            spec_find_pattern(data, pattern) is None && toks.len() > 0 && data.len() >= toks.len()
                ==> (compile(toks) matches Some(pat) ==> forall|j: int| !matches_at(data, pat, j))
        }),
{
    if let Some(pat) = compile(split_ws(pattern)) {
        lemma_first_match_from(data, pat, 0);
    }
}
} // verus!
