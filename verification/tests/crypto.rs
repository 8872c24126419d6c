use steamless_core::bytes::{read_le32, write_le32};
use steamless_core::crypto::{
    steam_drmp_decrypt_pass1, steam_drmp_decrypt_pass2, steam_xor, AesHelper, CipherMode,
};

fn hex(s: &str) -> Vec<u8> {
    (0..s.len() / 2)
        .map(|i| u8::from_str_radix(&s[2 * i..2 * i + 2], 16).unwrap())
        .collect()
}

#[test]
fn steam_xor_zero_key_keeps_first_word() {
    let mut data = vec![0x44, 0x33, 0x22, 0x11, 0x01, 0x00, 0x00, 0x00];
    let key = steam_xor(&mut data, 0);
    assert_eq!(data, vec![0x44, 0x33, 0x22, 0x11, 0x45, 0x33, 0x22, 0x11]);
    assert_eq!(key, 1);
}

#[test]
fn steam_xor_chains_the_key() {
    let mut data = vec![1, 0, 0, 0, 2, 0, 0, 0, 9, 9];
    let key = steam_xor(&mut data, 3);
    assert_eq!(data, vec![2, 0, 0, 0, 3, 0, 0, 0, 9, 9]);
    assert_eq!(key, 2);
}

#[test]
fn steam_xor_short_input_unchanged() {
    let mut data = vec![7, 8, 9];
    assert_eq!(steam_xor(&mut data, 0), 0);
    assert_eq!(data, vec![7, 8, 9]);
    let mut empty: Vec<u8> = Vec::new();
    assert_eq!(steam_xor(&mut empty, 5), 5);
}

#[test]
fn steam_xor_split_stream_matches_whole() {
    let input: Vec<u8> = (0u8..32).map(|b| b.wrapping_mul(37).wrapping_add(11)).collect();
    let mut whole = input.clone();
    let k_whole = steam_xor(&mut whole, 0x1234_5678);
    let mut a = input[..12].to_vec();
    let mut b = input[12..].to_vec();
    let k_a = steam_xor(&mut a, 0x1234_5678);
    let k_b = steam_xor(&mut b, k_a);
    a.extend_from_slice(&b);
    assert_eq!(a, whole);
    assert_eq!(k_b, k_whole);
}

fn xtea_round_by_hand(keys: &[u32; 4], v1: u32, v2: u32, sum: u32) -> (u32, u32, u32) {
    let t1 = ((v1 << 4) ^ (v1 >> 5)).wrapping_add(v1);
    let t2 = sum.wrapping_add(keys[((sum >> 11) & 3) as usize]);
    let nv2 = v2.wrapping_sub(t1 ^ t2);
    let nsum = sum.wrapping_sub(0x9E37_79B9);
    let t3 = ((nv2 << 4) ^ (nv2 >> 5)).wrapping_add(nv2);
    let t4 = nsum.wrapping_add(keys[(nsum & 3) as usize]);
    (v1.wrapping_sub(t3 ^ t4), nv2, nsum)
}

#[test]
fn drmp_pass2_zero_rounds_is_identity() {
    assert_eq!(steam_drmp_decrypt_pass2(&[1, 2, 3, 4], 0xDEAD_BEEF, 0x0BAD_F00D, 0), (0xDEAD_BEEF, 0x0BAD_F00D));
}

#[test]
fn drmp_pass2_two_rounds() {
    let keys = [0x0102_0304, 0x1111_1111, 0xCAFE_BABE, 0x0000_0007];
    let (a, b, s) = xtea_round_by_hand(&keys, 0x1234_5678, 0x9ABC_DEF0, 0x9E37_79B9u32.wrapping_mul(2));
    let (c, d, _) = xtea_round_by_hand(&keys, a, b, s);
    assert_eq!(steam_drmp_decrypt_pass2(&keys, 0x1234_5678, 0x9ABC_DEF0, 2), (c, d));
}

#[test]
fn drmp_pass1_chains_blocks() {
    let keys = [5, 6, 7, 8];
    let data: Vec<u8> = (0u8..20).collect();
    let mut out = data.clone();
    steam_drmp_decrypt_pass1(&mut out, &keys);
    let w = |s: &[u8], o: usize| u32::from_le_bytes(s[o..o + 4].try_into().unwrap());
    let (r1, r2) = steam_drmp_decrypt_pass2(&keys, w(&data, 0), w(&data, 4), 32);
    assert_eq!(w(&out, 0), r1 ^ 0x5555_5555);
    assert_eq!(w(&out, 4), r2 ^ 0x5555_5555);
    let (s1, s2) = steam_drmp_decrypt_pass2(&keys, w(&data, 8), w(&data, 12), 32);
    assert_eq!(w(&out, 8), s1 ^ w(&data, 0));
    assert_eq!(w(&out, 12), s2 ^ w(&data, 4));
    assert_eq!(&out[16..], &data[16..]);
}

#[test]
fn aes_ecb_known_vector() {
    let key = hex("000102030405060708090a0b0c0d0e0f101112131415161718191a1b1c1d1e1f");
    let helper = AesHelper::new(&key, &[0u8; 16], CipherMode::ECB);
    let ct = hex("8ea2b7ca516745bfeafc49904b496089");
    assert_eq!(helper.decrypt(&ct, CipherMode::ECB), hex("00112233445566778899aabbccddeeff"));
}

#[test]
fn aes_cbc_known_vector() {
    let key = hex("603deb1015ca71be2b73aef0857d77811f352c073b6108d72d9810a30914dff4");
    let iv = hex("000102030405060708090a0b0c0d0e0f");
    let helper = AesHelper::new(&key, &iv, CipherMode::CBC);
    let ct = hex("f58c4c04d6e5f1ba779eabfb5f7bfbd69cfc4e967edb808d679f777bc6702c7d");
    assert_eq!(
        helper.decrypt(&ct, CipherMode::CBC),
        hex("6bc1bee22e409f96e93d7e117393172aae2d8a571e03ac9c9eb76fac45af8e51")
    );
}

#[test]
fn aes_cbc_partial_block_left_as_is() {
    let key = hex("603deb1015ca71be2b73aef0857d77811f352c073b6108d72d9810a30914dff4");
    let helper = AesHelper::new(&key, &[0u8; 16], CipherMode::CBC);
    let data = vec![1u8; 20];
    assert_eq!(helper.decrypt(&data, CipherMode::CBC), data);
}

#[test]
fn aes_short_key_or_empty_data_unchanged() {
    let helper = AesHelper::new(&[1u8; 16], &[0u8; 16], CipherMode::ECB);
    let data = vec![3u8; 16];
    assert_eq!(helper.decrypt(&data, CipherMode::ECB), data);
    let helper = AesHelper::new(&[1u8; 32], &[0u8; 16], CipherMode::ECB);
    assert_eq!(helper.decrypt(&[], CipherMode::ECB), Vec::<u8>::new());
}

#[test]
fn aes_rebuild_iv_decrypts_the_iv() {
    let key = hex("000102030405060708090a0b0c0d0e0f101112131415161718191a1b1c1d1e1f");
    let mut helper = AesHelper::new(&key, &[0u8; 16], CipherMode::CBC);
    assert!(helper.rebuild_iv(&hex("8ea2b7ca516745bfeafc49904b496089")));
    assert_eq!(helper.iv, hex("00112233445566778899aabbccddeeff"));
    assert!(!helper.rebuild_iv(&[0u8; 8]));
    assert_eq!(helper.iv, hex("00112233445566778899aabbccddeeff"));
}

#[test]
fn aes_ecb_decrypts_each_block_alone() {
    let key = hex("000102030405060708090a0b0c0d0e0f101112131415161718191a1b1c1d1e1f");
    let helper = AesHelper::new(&key, &[0u8; 16], CipherMode::ECB);
    let mut ct = hex("8ea2b7ca516745bfeafc49904b496089");
    ct.extend(hex("8ea2b7ca516745bfeafc49904b496089"));
    ct.push(0x42);
    let mut expected = hex("00112233445566778899aabbccddeeff");
    expected.extend(hex("00112233445566778899aabbccddeeff"));
    expected.push(0x42);
    assert_eq!(helper.decrypt(&ct, CipherMode::ECB), expected);
}

#[test]
fn le32_write_then_read() {
    let mut buf = vec![9u8; 10];
    write_le32(&mut buf, 3, 0xA1B2_C3D4);
    assert_eq!(read_le32(&buf, 3), 0xA1B2_C3D4);
    assert_eq!(buf, vec![9, 9, 9, 0xD4, 0xC3, 0xB2, 0xA1, 9, 9, 9]);
    let before = buf.clone();
    let v = read_le32(&buf, 1);
    write_le32(&mut buf, 1, v);
    assert_eq!(buf, before);
}

fn xtea_encipher(keys: &[u32; 4], mut v1: u32, mut v2: u32, n: u32) -> (u32, u32) {
    let mut sum: u32 = 0;
    for _ in 0..n {
        v1 = v1.wrapping_add((((v2 << 4) ^ (v2 >> 5)).wrapping_add(v2)) ^ sum.wrapping_add(keys[(sum & 3) as usize]));
        sum = sum.wrapping_add(0x9E37_79B9);
        v2 = v2.wrapping_add((((v1 << 4) ^ (v1 >> 5)).wrapping_add(v1)) ^ sum.wrapping_add(keys[((sum >> 11) & 3) as usize]));
    }
    (v1, v2)
}

#[test]
fn drmp_pass2_inverts_xtea() {
    let keys = [0xDEAD_BEEF, 0x0123_4567, 0x89AB_CDEF, 0xFEDC_BA98];
    for &(v1, v2, n) in &[(0u32, 0u32, 32u32), (0x1234_5678, 0x9ABC_DEF0, 32), (7, 9, 1), (1, 2, 64), (5, 5, 0)] {
        let (c1, c2) = xtea_encipher(&keys, v1, v2, n);
        assert_eq!(steam_drmp_decrypt_pass2(&keys, c1, c2, n), (v1, v2));
    }
}

#[test]
fn drmp_pass1_prefix_does_not_see_later_blocks() {
    let keys = [11, 22, 33, 44];
    let data: Vec<u8> = (0u8..40).map(|b| b.wrapping_mul(91)).collect();
    let mut whole = data.clone();
    steam_drmp_decrypt_pass1(&mut whole, &keys);
    let mut prefix = data[..24].to_vec();
    steam_drmp_decrypt_pass1(&mut prefix, &keys);
    assert_eq!(&whole[..24], &prefix[..]);
}

#[test]
fn steam_xor_chaining_with_zero_key() {
    let input: Vec<u8> = (0u8..20).map(|b| b.wrapping_mul(53).wrapping_add(7)).collect();
    let mut whole = input.clone();
    let k_whole = steam_xor(&mut whole, 0);
    let mut a = input[..8].to_vec();
    let mut b = input[8..].to_vec();
    let k_a = steam_xor(&mut a, 0);
    let k_b = steam_xor(&mut b, k_a);
    a.extend_from_slice(&b);
    assert_eq!(a, whole);
    assert_eq!(k_b, k_whole);
    let mut zero_prefix = vec![0u8; 4];
    zero_prefix.extend_from_slice(&[1, 2, 3, 4, 5, 6, 7, 8]);
    let mut whole = zero_prefix.clone();
    let k = steam_xor(&mut whole, 0);
    let mut a = zero_prefix[..4].to_vec();
    let mut b = zero_prefix[4..].to_vec();
    let ka = steam_xor(&mut a, 0);
    assert_eq!(ka, 0);
    let kb = steam_xor(&mut b, ka);
    a.extend_from_slice(&b);
    assert_eq!(a, whole);
    assert_eq!(kb, k);
}
