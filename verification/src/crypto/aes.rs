//! AES-256 decryption of the SteamStub code section (ECB and CBC).
use aes::cipher::block_padding::NoPadding;
use aes::cipher::{BlockDecrypt, BlockDecryptMut, KeyInit, KeyIvInit};
use aes::Aes256;
use vstd::prelude::*;
use vstd::slice::SliceAdditionalExecFns;

verus! {

/// Block cipher mode of a decryption.
#[derive(Debug, Clone, Copy, PartialEq, Eq, Structural)]
pub enum CipherMode {
    CBC,
    ECB,
}

/// An AES-256 key and IV with a default cipher mode.
pub struct AesHelper {
    pub key: Vec<u8>,
    pub iv: Vec<u8>,
    pub mode: CipherMode,
}

/// The AES-256 decryption of the 16-byte `block` under the 32-byte `key`,
/// as the `aes` crate computes it.
pub uninterp spec fn aes256_decrypt_block(key: Seq<u8>, block: Seq<u8>) -> Seq<u8>;

/// Decrypts one block with `aes::Aes256` (`KeyInit::new`, then
/// `BlockDecrypt::decrypt_block`). Claimed: the result is
/// `aes256_decrypt_block(key, block)`, a function of the key and the block,
/// and has 16 bytes.
#[verifier::external_body]
fn aes256_decrypt(key: &[u8], block: &[u8]) -> (r: Vec<u8>)
    requires
        key@.len() == 32,
        block@.len() == 16,
    ensures
        r@ == aes256_decrypt_block(key@, block@),
        r@.len() == 16,
{
    let cipher = Aes256::new(aes::cipher::generic_array::GenericArray::from_slice(key));
    let mut b = aes::Block::clone_from_slice(block);
    cipher.decrypt_block(&mut b);
    b.to_vec()
}

/// The 16-byte block that AES-256 decryption of `block` under `key`
/// gives.
pub open spec fn aes_block(key: Seq<u8>, block: Seq<u8>) -> Seq<u8> {
    Seq::new(16, |i: int| aes256_decrypt_block(key, block)[i])
}

/// Bytewise XOR of two 16-byte blocks.
pub open spec fn xor_block(a: Seq<u8>, b: Seq<u8>) -> Seq<u8> {
    Seq::new(16, |i: int| a[i] ^ b[i])
}

/// AES-256 decryption in ECB mode of the whole 16-byte blocks of `data`;
/// a trailing partial block is left as it is.
pub open spec fn ecb_decrypt(key: Seq<u8>, data: Seq<u8>) -> Seq<u8>
    decreases data.len(),
{
    if data.len() < 16 {
        data
    } else {
        aes_block(key, data.take(16)) + ecb_decrypt(key, data.skip(16))
    }
}

/// AES-256 decryption in CBC mode of the 16-byte blocks of `data`, the
/// first one chained to `prev`: each plaintext block is the decrypted
/// ciphertext block XOR the previous ciphertext block.
pub open spec fn cbc_decrypt(key: Seq<u8>, prev: Seq<u8>, data: Seq<u8>) -> Seq<u8>
    decreases data.len(),
{
    if data.len() < 16 {
        seq![]
    } else {
        xor_block(aes_block(key, data.take(16)), prev) + cbc_decrypt(
            key,
            data.take(16),
            data.skip(16),
        )
    }
}

/// Decrypts `buf` in place with `cbc::Decryptor<aes::Aes256>` and
/// `NoPadding`. Claimed: a buffer whose length is a multiple of 16 becomes
/// its CBC decryption under `key` and `iv`; any other buffer is left as it
/// is (the crate refuses it before decrypting).
#[verifier::external_body]
fn aes256_cbc_decrypt_in_place(key: &[u8], iv: &[u8], buf: &mut [u8])
    requires
        key@.len() == 32,
        iv@.len() == 16,
    ensures
        old(buf)@.len() % 16 == 0 ==> final(buf)@ == cbc_decrypt(key@, iv@, old(buf)@),
        old(buf)@.len() % 16 != 0 ==> final(buf)@ == old(buf)@,
{
    if let Ok(decryptor) = cbc::Decryptor::<Aes256>::new_from_slices(key, iv) {
        let _ = decryptor.decrypt_padded_mut::<NoPadding>(buf);
    }
}

/// What `AesHelper::decrypt` returns for `data` with the helper's `key`
/// and `iv`: `data` itself when it is empty or the key is shorter than 32
/// bytes; otherwise the decryption under the first 32 key bytes, in CBC
/// mode with the first 16 IV bytes (16 zero bytes when the IV is shorter),
/// where a length that is not a multiple of 16 leaves `data` unchanged.
pub open spec fn spec_aes_decrypt(key: Seq<u8>, iv: Seq<u8>, data: Seq<u8>, mode: CipherMode) -> Seq<
    u8,
> {
    if data.len() == 0 || key.len() < 32 {
        data
    } else {
        match mode {
            CipherMode::ECB => ecb_decrypt(key.take(32), data),
            CipherMode::CBC => {
                let v = if iv.len() >= 16 {
                    iv.take(16)
                } else {
                    Seq::new(16, |i: int| 0u8)
                };
                if data.len() % 16 == 0 {
                    cbc_decrypt(key.take(32), v, data)
                } else {
                    data
                }
            },
        }
    }
}

impl AesHelper {
    /// A helper holding copies of `key` and `iv`.
    pub fn new(key: &[u8], iv: &[u8], mode: CipherMode) -> (r: Self)
        ensures
            r.key@ == key@,
            r.iv@ == iv@,
            r.mode == mode,
    {
        AesHelper {
            key: vstd::slice::slice_to_vec(key),
            iv: vstd::slice::slice_to_vec(iv),
            mode,
        }
    }

    /// Rebuilds the current IV by decrypting `iv` using AES-256-ECB with the key.
    pub fn rebuild_iv(&mut self, iv: &[u8]) -> (r: bool)
        ensures
            r == (iv@.len() >= 16 && old(self).key@.len() >= 32),
            r ==> final(self).iv@ == aes256_decrypt_block(old(self).key@.take(32), iv@.take(16)),
            r ==> final(self).iv@.len() == 16,
            r ==> final(self).key@ == old(self).key@ && final(self).mode == old(self).mode,
            !r ==> final(self).key@ == old(self).key@ && final(self).iv@ == old(self).iv@
                && final(self).mode == old(self).mode,
    {
        if iv.len() < 16 || self.key.len() < 32 {
            return false;
        }
        let key = vstd::slice::slice_subrange(self.key.as_slice(), 0, 32);
        let block = vstd::slice::slice_subrange(iv, 0, 16);
        assert(key@ =~= self.key@.take(32));
        assert(block@ =~= iv@.take(16));
        self.iv = aes256_decrypt(key, block);
        true
    }

    /// Decrypts payload bytes in-place or returns decrypted buffer.
    pub fn decrypt(&self, data: &[u8], mode: CipherMode) -> (r: Vec<u8>)
        ensures
            r@ == spec_aes_decrypt(self.key@, self.iv@, data@, mode),
    {
        let mut output = vstd::slice::slice_to_vec(data);
        if data.len() == 0 || self.key.len() < 32 {
            return output;
        }
        let key = vstd::slice::slice_subrange(self.key.as_slice(), 0, 32);
        assert(key@ =~= self.key@.take(32));
        match mode {
            CipherMode::ECB => {
                ecb_decrypt_in_place(key, output.as_mut_slice());
            },
            CipherMode::CBC => {
                let zero_iv: [u8; 16] = [0u8; 16];
                let iv_bytes: &[u8] = if self.iv.len() >= 16 {
                    vstd::slice::slice_subrange(self.iv.as_slice(), 0, 16)
                } else {
                    zero_iv.as_slice()
                };
                assert(iv_bytes@ =~= (if self.iv@.len() >= 16 {
                    self.iv@.take(16)
                } else {
                    Seq::new(16, |i: int| 0u8)
                }));
                aes256_cbc_decrypt_in_place(key, iv_bytes, output.as_mut_slice());
            },
        }
        output
    }
}

proof fn lemma_cbc_decrypt_len(key: Seq<u8>, prev: Seq<u8>, data: Seq<u8>)
    requires
        data.len() % 16 == 0,
    ensures
        cbc_decrypt(key, prev, data).len() == data.len(),
    decreases data.len(),
{
    if data.len() >= 16 {
        lemma_cbc_decrypt_len(key, data.take(16), data.skip(16));
    }
}

proof fn lemma_ecb_decrypt_len(key: Seq<u8>, data: Seq<u8>)
    ensures
        ecb_decrypt(key, data).len() == data.len(),
    decreases data.len(),
{
    if data.len() >= 16 {
        lemma_ecb_decrypt_len(key, data.skip(16));
    }
}

/// Decryption keeps the length of the data in both modes.
pub proof fn law_aes_decrypt_length(key: Seq<u8>, iv: Seq<u8>, data: Seq<u8>, mode: CipherMode)
    ensures
        spec_aes_decrypt(key, iv, data, mode).len() == data.len(),
{
    if data.len() > 0 && key.len() >= 32 {
        match mode {
            CipherMode::ECB => lemma_ecb_decrypt_len(key.take(32), data),
            CipherMode::CBC => {
                if data.len() % 16 == 0 {
                    let v = if iv.len() >= 16 {
                        iv.take(16)
                    } else {
                        Seq::new(16, |i: int| 0u8)
                    };
                    lemma_cbc_decrypt_len(key.take(32), v, data);
                }
            },
        }
    }
}

/// Decrypts the whole 16-byte blocks of `buf` in place in ECB mode.
fn ecb_decrypt_in_place(key: &[u8], buf: &mut [u8])
    requires
        key@.len() == 32,
    ensures
        final(buf)@ == ecb_decrypt(key@, old(buf)@),
{
    let ghost s = buf@;
    let len = buf.len();
    let mut pos: usize = 0;
    assert(s.skip(0) =~= s);
    assert(buf@.take(0) + ecb_decrypt(key@, s.skip(0)) =~= ecb_decrypt(key@, s));
    while len - pos >= 16
        invariant
            pos <= len,
            len == s.len(),
            buf@.len() == len,
            key@.len() == 32,
            buf@.skip(pos as int) == s.skip(pos as int),
            buf@.take(pos as int) + ecb_decrypt(key@, s.skip(pos as int)) == ecb_decrypt(key@, s),
        decreases len - pos,
    {
        let ghost before = buf@;
        let ghost rest = s.skip(pos as int);
        let plain = {
            let block = vstd::slice::slice_subrange(&*buf, pos, pos + 16);
            assert(block@ =~= rest.take(16)) by {
                assert forall|k: int| 0 <= k < 16 implies block@[k] == rest.take(16)[k] by {
                    assert(before.skip(pos as int)[k] == rest[k]);
                }
            }
            aes256_decrypt(key, block)
        };
        assert(plain@ =~= aes_block(key@, rest.take(16)));
        let mut k: usize = 0;
        while k < 16
            invariant
                k <= 16,
                pos + 16 <= len,
                buf@.len() == len,
                plain@.len() == 16,
                forall|j: int| 0 <= j < len ==> #[trigger] buf@[j] == (if pos <= j < pos + k {
                    plain@[j - pos]
                } else {
                    before[j]
                }),
            decreases 16 - k,
        {
            buf.set(pos + k, plain[k]);
            k = k + 1;
        }
        proof {
            assert(rest.skip(16) =~= s.skip(pos + 16));
            assert(buf@.take(pos + 16) =~= before.take(pos as int) + plain@);
            assert forall|j: int| 0 <= j < len - pos - 16 implies #[trigger] buf@.skip(pos + 16)[j]
                == s.skip(pos + 16)[j] by {
                assert(before.skip(pos as int)[j + 16] == s.skip(pos as int)[j + 16]);
            }
            assert(buf@.skip(pos + 16) =~= s.skip(pos + 16));
        }
        pos = pos + 16;
    }
    proof {
        assert(s.skip(pos as int).len() < 16);
        assert(buf@ =~= buf@.take(pos as int) + buf@.skip(pos as int));
    }
}

} // verus!
