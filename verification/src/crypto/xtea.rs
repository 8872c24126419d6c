//! The SteamStub stream XOR cipher and the SteamDRMP XTEA variant.
use crate::bytes::{le32, le32_bytes, read_le32, write_le32};
use vstd::prelude::*;
use vstd::wrapping::u32_specs::{wrapping_add, wrapping_mul, wrapping_sub};

verus! {

/// Round constant of the SteamDRMP XTEA variant.
pub const DRMP_DELTA: u32 = 0x9E3779B9;

/// Chained XOR decoding of the whole 4-byte words of `s`: each word is
/// XORed with the previous ciphertext word, the first one with `key`.
/// A trailing partial word is left as it is.
pub open spec fn xor_stream(s: Seq<u8>, key: u32) -> Seq<u8>
    decreases s.len(),
{
    if s.len() < 4 {
        s
    } else {
        le32_bytes(le32(s, 0) ^ key) + xor_stream(s.skip(4), le32(s, 0))
    }
}

/// The chaining key after decoding `s` with `key`: the last whole
/// ciphertext word of `s`, or `key` when `s` holds no whole word.
pub open spec fn xor_stream_key(s: Seq<u8>, key: u32) -> u32
    decreases s.len(),
{
    if s.len() < 4 {
        key
    } else {
        xor_stream_key(s.skip(4), le32(s, 0))
    }
}

/// What `steam_xor` makes of `s` with `key`: the decoded bytes and the
/// returned key. A zero key with at least one word means that the first
/// word is the key; that word is then left undecoded.
pub open spec fn spec_steam_xor(s: Seq<u8>, key: u32) -> (Seq<u8>, u32) {
    if key == 0 && s.len() >= 4 {
        (s.take(4) + xor_stream(s.skip(4), le32(s, 0)), xor_stream_key(s.skip(4), le32(s, 0)))
    } else {
        (xor_stream(s, key), xor_stream_key(s, key))
    }
}

proof fn lemma_xor_stream_len(s: Seq<u8>, key: u32)
    ensures
        xor_stream(s, key).len() == s.len(),
    decreases s.len(),
{
    if s.len() >= 4 {
        lemma_xor_stream_len(s.skip(4), le32(s, 0));
    }
}

/// SteamStub XOR decryption algorithm.
/// Decrypts stream data in-place using key chaining.
pub fn steam_xor(data: &mut [u8], key: u32) -> (r: u32)
    ensures
        (final(data)@, r) == spec_steam_xor(old(data)@, key),
{
    let ghost s = data@;
    let ghost target = spec_steam_xor(s, key);
    let mut key = key;
    let mut pos: usize = 0;
    if key == 0 && data.len() >= 4 {
        key = read_le32(data, 0);
        pos = 4;
        assert(s.take(4) + xor_stream(s.skip(4), key) == target.0);
    } else {
        assert(s.skip(0) =~= s);
        assert(s.take(0) + xor_stream(s.skip(0), key) =~= target.0);
    }
    while data.len() - pos >= 4
        invariant
            pos <= data@.len(),
            data@.len() == s.len(),
            data@.skip(pos as int) == s.skip(pos as int),
            data@.take(pos as int) + xor_stream(s.skip(pos as int), key) == target.0,
            xor_stream_key(s.skip(pos as int), key) == target.1,
        decreases data@.len() - pos,
    {
        let ghost rest = s.skip(pos as int);
        let ghost before = data@;
        proof {
            assert(before.skip(pos as int)[0] == before[pos as int]);
            assert(rest.skip(4) =~= s.skip(pos + 4));
            assert(le32(rest, 0) == le32(s, pos as int));
        }
        let val = read_le32(data, pos);
        assert(val == le32(rest, 0)) by {
            assert(before[pos as int] == rest[0]);
            assert(before[pos + 1] == rest[1]);
            assert(before[pos + 2] == rest[2]);
            assert(before[pos + 3] == rest[3]);
        }
        let ghost prev_key = key;
        write_le32(data, pos, val ^ key);
        key = val;
        pos = pos + 4;
        proof {
            assert(data@.take(pos as int) =~= before.take(pos - 4) + le32_bytes(val ^ prev_key));
            assert forall|k: int| 0 <= k < data@.len() - pos implies #[trigger] data@.skip(
                pos as int,
            )[k] == s.skip(pos as int)[k] by {
                assert(before.skip(pos - 4)[k + 4] == s.skip(pos - 4)[k + 4]);
            }
            assert(data@.skip(pos as int) =~= s.skip(pos as int));
            assert(xor_stream(rest, prev_key) == le32_bytes(val ^ prev_key) + xor_stream(
                s.skip(pos as int),
                val,
            ));
        }
    }
    proof {
        assert(s.skip(pos as int).len() < 4);
        assert(data@ =~= data@.take(pos as int) + data@.skip(pos as int));
    }
    key
}

/// One decryption round (two half rounds) of the SteamDRMP XTEA variant,
/// giving the new `(v1, v2, sum)`.
pub open spec fn drmp_round(keys: Seq<u32>, v1: u32, v2: u32, sum: u32) -> (u32, u32, u32) {
    let t1 = wrapping_add((v1 << 4u32) ^ (v1 >> 5u32), v1);
    let t2 = wrapping_add(sum, keys[((sum >> 11u32) & 3) as int]);
    let nv2 = wrapping_sub(v2, t1 ^ t2);
    let nsum = wrapping_sub(sum, DRMP_DELTA);
    let t3 = wrapping_add((nv2 << 4u32) ^ (nv2 >> 5u32), nv2);
    let t4 = wrapping_add(nsum, keys[(nsum & 3) as int]);
    let nv1 = wrapping_sub(v1, t3 ^ t4);
    (nv1, nv2, nsum)
}

/// `n` decryption rounds starting from the running sum `sum`.
pub open spec fn drmp_rounds(keys: Seq<u32>, v1: u32, v2: u32, sum: u32, n: nat) -> (u32, u32)
    decreases n,
{
    if n == 0 {
        (v1, v2)
    } else {
        let (a, b, s) = drmp_round(keys, v1, v2, sum);
        drmp_rounds(keys, a, b, s, (n - 1) as nat)
    }
}

/// The block `(v1, v2)` decrypted with `n` rounds; the running sum starts
/// at `DRMP_DELTA * n` (mod 2^32).
pub open spec fn spec_drmp_decrypt_pass2(keys: Seq<u32>, v1: u32, v2: u32, n: u32) -> (u32, u32) {
    drmp_rounds(keys, v1, v2, wrapping_mul(DRMP_DELTA, n), n as nat)
}

/// XTEA 32-round block decryption pass 2.
pub fn steam_drmp_decrypt_pass2(keys: &[u32; 4], v1: u32, v2: u32, n: u32) -> (r: (u32, u32))
    ensures
        r == spec_drmp_decrypt_pass2(keys@, v1, v2, n),
{
    let ghost target = spec_drmp_decrypt_pass2(keys@, v1, v2, n);
    let mut sum = DRMP_DELTA.wrapping_mul(n);
    let mut v1 = v1;
    let mut v2 = v2;
    let mut i: u32 = 0;
    while i < n
        invariant
            i <= n,
            keys@.len() == 4,
            drmp_rounds(keys@, v1, v2, sum, (n - i) as nat) == target,
        decreases n - i,
    {
        let temp1 = ((v1 << 4u32) ^ (v1 >> 5u32)).wrapping_add(v1);
        let key_idx1 = ((sum >> 11u32) & 3) as usize;
        assert((sum >> 11u32) & 3 < 4) by (bit_vector);
        let temp2 = sum.wrapping_add(keys[key_idx1]);
        v2 = v2.wrapping_sub(temp1 ^ temp2);
        sum = sum.wrapping_sub(DRMP_DELTA);
        let temp3 = ((v2 << 4u32) ^ (v2 >> 5u32)).wrapping_add(v2);
        let key_idx2 = (sum & 3) as usize;
        assert(sum & 3 < 4) by (bit_vector);
        let temp4 = sum.wrapping_add(keys[key_idx2]);
        v1 = v1.wrapping_sub(temp3 ^ temp4);
        i = i + 1;
    }
    (v1, v2)
}

/// The XTEA running sum after `j` rounds: `DRMP_DELTA * j` (mod 2^32).
pub open spec fn sum_after(j: nat) -> u32 {
    ((DRMP_DELTA as nat * j) % 0x1_0000_0000) as u32
}

/// One XTEA encryption round (two half rounds) of the block `(v1, v2)`
/// that starts with the running sum `sum`.
pub open spec fn xtea_encipher_round(keys: Seq<u32>, v1: u32, v2: u32, sum: u32) -> (u32, u32) {
    let a = wrapping_add(
        v1,
        wrapping_add((v2 << 4u32) ^ (v2 >> 5u32), v2) ^ wrapping_add(sum, keys[(sum & 3) as int]),
    );
    let s = wrapping_add(sum, DRMP_DELTA);
    let b = wrapping_add(
        v2,
        wrapping_add((a << 4u32) ^ (a >> 5u32), a) ^ wrapping_add(s, keys[((s >> 11u32) & 3) as int]),
    );
    (a, b)
}

/// The block `(v1, v2)` encrypted with `n` XTEA rounds, the running sum
/// starting at zero.
pub open spec fn xtea_encipher(keys: Seq<u32>, v1: u32, v2: u32, n: nat) -> (u32, u32)
    decreases n,
{
    if n == 0 {
        (v1, v2)
    } else {
        let (a, b) = xtea_encipher(keys, v1, v2, (n - 1) as nat);
        xtea_encipher_round(keys, a, b, sum_after((n - 1) as nat))
    }
}

proof fn lemma_sum_after_step(j: nat)
    ensures
        wrapping_add(sum_after(j), DRMP_DELTA) == sum_after(j + 1),
        wrapping_sub(sum_after(j + 1), DRMP_DELTA) == sum_after(j),
{
    let m: int = 0x1_0000_0000;
    let x: int = DRMP_DELTA as int * j;
    vstd::arithmetic::div_mod::lemma_add_mod_noop(x, DRMP_DELTA as int, m);
    vstd::arithmetic::div_mod::lemma_mod_bound(x, m);
    vstd::arithmetic::div_mod::lemma_mod_bound(x + DRMP_DELTA as int, m);
    assert(DRMP_DELTA as int * (j + 1) == DRMP_DELTA as int * j + DRMP_DELTA as int)
        by (nonlinear_arith);
    let xm = x % m;
    if xm + DRMP_DELTA as int >= m {
        assert((xm + DRMP_DELTA as int) % m == xm + DRMP_DELTA as int - m) by {
            vstd::arithmetic::div_mod::lemma_mod_add_multiples_vanish(
                xm + DRMP_DELTA as int - m,
                m,
            );
            vstd::arithmetic::div_mod::lemma_small_mod(
                (xm + DRMP_DELTA as int - m) as nat,
                m as nat,
            );
        }
    } else {
        vstd::arithmetic::div_mod::lemma_small_mod((xm + DRMP_DELTA as int) as nat, m as nat);
    }
}

proof fn lemma_round_inverse(keys: Seq<u32>, v1: u32, v2: u32, j: nat)
    ensures
        ({
            let (a, b) = xtea_encipher_round(keys, v1, v2, sum_after(j));
            drmp_round(keys, a, b, sum_after(j + 1)) == (v1, v2, sum_after(j))
        }),
{
    lemma_sum_after_step(j);
}

proof fn lemma_decipher_encipher(keys: Seq<u32>, v1: u32, v2: u32, k: nat)
    ensures
        ({
            let (c1, c2) = xtea_encipher(keys, v1, v2, k);
            drmp_rounds(keys, c1, c2, sum_after(k), k) == (v1, v2)
        }),
    decreases k,
{
    if k > 0 {
        let (a, b) = xtea_encipher(keys, v1, v2, (k - 1) as nat);
        lemma_round_inverse(keys, a, b, (k - 1) as nat);
        lemma_decipher_encipher(keys, v1, v2, (k - 1) as nat);
    }
}

/// Pass 2 inverts XTEA: decrypting with `n` rounds a block that XTEA
/// encrypted with the same keys and `n` rounds gives the block back.
pub proof fn law_drmp_decrypts_xtea(keys: Seq<u32>, v1: u32, v2: u32, n: u32)
    ensures
        ({
            let (c1, c2) = xtea_encipher(keys, v1, v2, n as nat);
            spec_drmp_decrypt_pass2(keys, c1, c2, n) == (v1, v2)
        }),
{
    assert(wrapping_mul(DRMP_DELTA, n) == sum_after(n as nat));
    lemma_decipher_encipher(keys, v1, v2, n as nat);
}

/// Initial chaining value of the SteamDRMP pass-1 stream.
pub const DRMP_IV: u32 = 0x55555555;

/// CBC-like decoding of the whole 8-byte blocks of `s`: each block is
/// decrypted with 32 rounds and XORed with the previous ciphertext block,
/// the first one with `(p1, p2)`. A trailing partial block is left as it is.
pub open spec fn drmp_stream(s: Seq<u8>, keys: Seq<u32>, p1: u32, p2: u32) -> Seq<u8>
    decreases s.len(),
{
    if s.len() < 8 {
        s
    } else {
        let d1 = le32(s, 0);
        let d2 = le32(s, 4);
        let r = spec_drmp_decrypt_pass2(keys, d1, d2, 32);
        le32_bytes(r.0 ^ p1) + le32_bytes(r.1 ^ p2) + drmp_stream(s.skip(8), keys, d1, d2)
    }
}

/// SteamDRMP XTEA pass 1 CBC-like stream decryption.
pub fn steam_drmp_decrypt_pass1(data: &mut [u8], keys: &[u32; 4])
    ensures
        final(data)@ == drmp_stream(old(data)@, keys@, DRMP_IV, DRMP_IV),
{
    let ghost s = data@;
    let ghost target = drmp_stream(s, keys@, DRMP_IV, DRMP_IV);
    let mut v1: u32 = DRMP_IV;
    let mut v2: u32 = DRMP_IV;
    let mut pos: usize = 0;
    assert(s.skip(0) =~= s);
    assert(data@.take(0) + drmp_stream(s.skip(0), keys@, v1, v2) =~= target);
    while data.len() - pos >= 8
        invariant
            pos <= data@.len(),
            data@.len() == s.len(),
            data@.skip(pos as int) == s.skip(pos as int),
            data@.take(pos as int) + drmp_stream(s.skip(pos as int), keys@, v1, v2) == target,
        decreases data@.len() - pos,
    {
        let ghost rest = s.skip(pos as int);
        let ghost before = data@;
        let d1 = read_le32(data, pos);
        let d2 = read_le32(data, pos + 4);
        assert(d1 == le32(rest, 0) && d2 == le32(rest, 4)) by {
            assert(before.skip(pos as int) == rest);
            assert(before[pos as int] == rest[0]);
            assert(before[pos + 1] == rest[1]);
            assert(before[pos + 2] == rest[2]);
            assert(before[pos + 3] == rest[3]);
            assert(before[pos + 4] == rest[4]);
            assert(before[pos + 5] == rest[5]);
            assert(before[pos + 6] == rest[6]);
            assert(before[pos + 7] == rest[7]);
        }
        let (res1, res2) = steam_drmp_decrypt_pass2(keys, d1, d2, 32);
        let ghost p1 = v1;
        let ghost p2 = v2;
        write_le32(data, pos, res1 ^ v1);
        write_le32(data, pos + 4, res2 ^ v2);
        v1 = d1;
        v2 = d2;
        pos = pos + 8;
        proof {
            lemma_le32_bytes_len(res1 ^ p1);
            lemma_le32_bytes_len(res2 ^ p2);
            assert(data@.take(pos as int) =~= before.take(pos - 8) + le32_bytes(res1 ^ p1)
                + le32_bytes(res2 ^ p2));
            assert forall|k: int| 0 <= k < data@.len() - pos implies #[trigger] data@.skip(
                pos as int,
            )[k] == s.skip(pos as int)[k] by {
                assert(before.skip(pos - 8)[k + 8] == s.skip(pos - 8)[k + 8]);
            }
            assert(data@.skip(pos as int) =~= s.skip(pos as int));
            assert(rest.skip(8) =~= s.skip(pos as int));
        }
    }
    proof {
        assert(s.skip(pos as int).len() < 8);
        assert(data@ =~= data@.take(pos as int) + data@.skip(pos as int));
    }
}

proof fn lemma_xor_stream_concat(a: Seq<u8>, b: Seq<u8>, key: u32)
    requires
        a.len() % 4 == 0,
    ensures
        xor_stream(a + b, key) == xor_stream(a, key) + xor_stream(b, xor_stream_key(a, key)),
        xor_stream_key(a + b, key) == xor_stream_key(b, xor_stream_key(a, key)),
    decreases a.len(),
{
    if a.len() == 0 {
        assert(a + b =~= b);
        assert(xor_stream(a, key) =~= Seq::<u8>::empty());
    } else {
        let ab = a + b;
        assert(ab.skip(4) =~= a.skip(4) + b);
        assert(le32(ab, 0) == le32(a, 0));
        lemma_xor_stream_concat(a.skip(4), b, le32(a, 0));
        assert(xor_stream(ab, key) =~= xor_stream(a, key) + xor_stream(b, xor_stream_key(a, key)));
    }
}

/// With a zero key, keeping the first word and taking it as the key is
/// the same as XORing it with zero: the stream rule holds for every key.
proof fn lemma_steam_xor_stream(s: Seq<u8>, key: u32)
    ensures
        spec_steam_xor(s, key) == (xor_stream(s, key), xor_stream_key(s, key)),
{
    if key == 0 && s.len() >= 4 {
        let w = le32(s, 0);
        assert(w ^ 0u32 == w) by (bit_vector);
        crate::bytes::law_le32_write_read(s, 0, w);
        let b = le32_bytes(w);
        let sp = crate::bytes::splice(s, 0, b);
        assert forall|k: int| 0 <= k < 4 implies b[k] == s.take(4)[k] by {
            assert(sp[k] == b[k]);
            assert(sp[k] == s[k]);
        }
        assert(b =~= s.take(4));
    }
}

/// Key chaining: decrypting `a + b` in one call gives the same bytes and
/// key as decrypting `a` and then `b` with the key that the first call
/// returned, when `a` ends on a word boundary.
pub proof fn law_steam_xor_chaining(a: Seq<u8>, b: Seq<u8>, key: u32)
    requires
        a.len() % 4 == 0,
    ensures
        spec_steam_xor(a + b, key).0 == spec_steam_xor(a, key).0 + spec_steam_xor(
            b,
            spec_steam_xor(a, key).1,
        ).0,
        spec_steam_xor(a + b, key).1 == spec_steam_xor(b, spec_steam_xor(a, key).1).1,
{
    lemma_xor_stream_concat(a, b, key);
    lemma_steam_xor_stream(a + b, key);
    lemma_steam_xor_stream(a, key);
    lemma_steam_xor_stream(b, xor_stream_key(a, key));
}

/// Decryption keeps the length of the data.
pub proof fn law_steam_xor_length(s: Seq<u8>, key: u32)
    ensures
        spec_steam_xor(s, key).0.len() == s.len(),
{
    lemma_xor_stream_len(s, key);
    if key == 0 && s.len() >= 4 {
        lemma_xor_stream_len(s.skip(4), le32(s, 0));
    }
}

proof fn lemma_drmp_stream_len(s: Seq<u8>, keys: Seq<u32>, p1: u32, p2: u32)
    ensures
        drmp_stream(s, keys, p1, p2).len() == s.len(),
    decreases s.len(),
{
    if s.len() >= 8 {
        lemma_le32_bytes_len(0);
        let r = spec_drmp_decrypt_pass2(keys, le32(s, 0), le32(s, 4), 32);
        lemma_le32_bytes_len(r.0 ^ p1);
        lemma_le32_bytes_len(r.1 ^ p2);
        lemma_drmp_stream_len(s.skip(8), keys, le32(s, 0), le32(s, 4));
    }
}

/// Pass 1 decrypts each 8-byte block on its own footing: the block at
/// `8 * i` depends only on itself and the ciphertext block before it.
pub proof fn law_drmp_block_chaining(s: Seq<u8>, keys: Seq<u32>, i: int)
    requires
        0 <= i,
        8 * i + 8 <= s.len(),
    ensures
        ({
            let out = drmp_stream(s, keys, DRMP_IV, DRMP_IV);
            let p1 = if i == 0 { DRMP_IV } else { le32(s, 8 * i - 8) };
            let p2 = if i == 0 { DRMP_IV } else { le32(s, 8 * i - 4) };
            let r = spec_drmp_decrypt_pass2(keys, le32(s, 8 * i), le32(s, 8 * i + 4), 32);
            &&& out.len() == s.len()
            &&& out.subrange(8 * i, 8 * i + 8) == le32_bytes(r.0 ^ p1) + le32_bytes(r.1 ^ p2)
        }),
{
    lemma_drmp_stream_len(s, keys, DRMP_IV, DRMP_IV);
    lemma_drmp_block_at(s, keys, DRMP_IV, DRMP_IV, i);
}

proof fn lemma_drmp_stream_prefix(s: Seq<u8>, keys: Seq<u32>, p1: u32, p2: u32, k: int)
    requires
        0 <= k <= s.len(),
        k % 8 == 0,
    ensures
        drmp_stream(s, keys, p1, p2).take(k) == drmp_stream(s.take(k), keys, p1, p2),
    decreases k,
{
    lemma_drmp_stream_len(s, keys, p1, p2);
    if k == 0 {
        assert(s.take(0) =~= Seq::<u8>::empty());
        assert(drmp_stream(s, keys, p1, p2).take(0) =~= Seq::<u8>::empty());
    } else {
        let t = s.take(k);
        let d1 = le32(s, 0);
        let d2 = le32(s, 4);
        assert(le32(t, 0) == d1);
        assert(le32(t, 4) == d2);
        assert(t.skip(8) =~= s.skip(8).take(k - 8));
        lemma_drmp_stream_prefix(s.skip(8), keys, d1, d2, k - 8);
        let r = spec_drmp_decrypt_pass2(keys, d1, d2, 32);
        lemma_le32_bytes_len(r.0 ^ p1);
        lemma_le32_bytes_len(r.1 ^ p2);
        let head = le32_bytes(r.0 ^ p1) + le32_bytes(r.1 ^ p2);
        let tail = drmp_stream(s.skip(8), keys, d1, d2);
        assert(drmp_stream(s, keys, p1, p2) == head + tail);
        assert(drmp_stream(t, keys, p1, p2) == head + drmp_stream(t.skip(8), keys, d1, d2));
        assert((head + tail).take(k) =~= head + tail.take(k - 8));
    }
}

/// Pass 1 decrypts a prefix of whole blocks as it does the whole input:
/// the output up to a block boundary depends only on the input up to it.
pub proof fn law_drmp_prefix(s: Seq<u8>, keys: Seq<u32>, k: int)
    requires
        0 <= k <= s.len(),
        k % 8 == 0,
    ensures
        drmp_stream(s, keys, DRMP_IV, DRMP_IV).take(k) == drmp_stream(s.take(k), keys, DRMP_IV, DRMP_IV),
{
    lemma_drmp_stream_prefix(s, keys, DRMP_IV, DRMP_IV, k);
}

proof fn lemma_drmp_block_at(s: Seq<u8>, keys: Seq<u32>, p1: u32, p2: u32, i: int)
    requires
        0 <= i,
        8 * i + 8 <= s.len(),
    ensures
        ({
            let out = drmp_stream(s, keys, p1, p2);
            let q1 = if i == 0 { p1 } else { le32(s, 8 * i - 8) };
            let q2 = if i == 0 { p2 } else { le32(s, 8 * i - 4) };
            let r = spec_drmp_decrypt_pass2(keys, le32(s, 8 * i), le32(s, 8 * i + 4), 32);
            out.subrange(8 * i, 8 * i + 8) == le32_bytes(r.0 ^ q1) + le32_bytes(r.1 ^ q2)
        }),
    decreases i,
{
    let d1 = le32(s, 0);
    let d2 = le32(s, 4);
    let r0 = spec_drmp_decrypt_pass2(keys, d1, d2, 32);
    lemma_le32_bytes_len(r0.0 ^ p1);
    lemma_le32_bytes_len(r0.1 ^ p2);
    let head = le32_bytes(r0.0 ^ p1) + le32_bytes(r0.1 ^ p2);
    let tail = drmp_stream(s.skip(8), keys, d1, d2);
    assert(drmp_stream(s, keys, p1, p2) == head + tail);
    if i == 0 {
        assert((head + tail).subrange(0, 8) =~= head);
    } else {
        lemma_drmp_block_at(s.skip(8), keys, d1, d2, i - 1);
        lemma_drmp_stream_len(s.skip(8), keys, d1, d2);
        let t = s.skip(8);
        assert(le32(t, 8 * (i - 1)) == le32(s, 8 * i));
        assert(le32(t, 8 * (i - 1) + 4) == le32(s, 8 * i + 4));
        if i > 1 {
            assert(le32(t, 8 * (i - 1) - 8) == le32(s, 8 * i - 8));
            assert(le32(t, 8 * (i - 1) - 4) == le32(s, 8 * i - 4));
        }
        assert((head + tail).subrange(8 * i, 8 * i + 8) =~= tail.subrange(8 * (i - 1), 8 * (i - 1) + 8));
    }
}

proof fn lemma_le32_bytes_len(v: u32)
    ensures
        le32_bytes(v).len() == 4,
{
}

} // verus!
