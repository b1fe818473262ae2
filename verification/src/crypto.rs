//! The stream cipher that protects sign-server packets.
//!
//! Each byte is whitened with `SHARED_CRYPT_KEY` indexed by the previous
//! plaintext byte and substituted through `ENCRYPT_KEY`, while a linear
//! congruential key advances per byte.  Three running sums give the packet
//! checksums.
use vstd::prelude::*;
use vstd::wrapping::u32_specs::{wrapping_add, wrapping_mul};

use crate::tables::{lemma_decrypt_key_inverts, DECRYPT_KEY, ENCRYPT_KEY, SHARED_CRYPT_KEY};

verus! {

/// Running state of the cipher between two bytes.
pub struct CipherState {
    pub key: u32,
    pub prev: u8,
    pub sum_shifted: u32,
    pub sum_index: u32,
    pub sum_product: u32,
}

/// One step of the linear congruential key schedule.
pub open spec fn next_key(key: u32) -> u32 {
    wrapping_add(wrapping_mul(1277, key), 1277)
}

/// The byte that seeds the key schedule: the override when given, else
/// derived from the rotating session key.
pub open spec fn seed_byte(rot_key: u32, override_byte: Option<u8>) -> u8 {
    match override_byte {
        Some(b) => b,
        None => (((rot_key >> 1u32) % 999983) & 0xFF) as u8,
    }
}

/// State before the first byte of a message of `len` bytes.
pub open spec fn initial_state(len: nat, seed: u8) -> CipherState {
    CipherState {
        key: wrapping_mul(len as u32, (seed + 1) as u32),
        prev: 1,
        sum_shifted: 0,
        sum_index: 0,
        sum_product: 0,
    }
}

/// State before the first byte when the key schedule starts at `key`.
pub open spec fn initial_state_with_key(key: u32) -> CipherState {
    CipherState { key, prev: 1, sum_shifted: 0, sum_index: 0, sum_product: 0 }
}

/// Table index that encrypting byte `d` in state `s` goes through.
pub open spec fn encrypt_index(s: CipherState, d: u8) -> u32 {
    ((s.key >> 10u32) ^ (d as u32)) & 0xFF
}

/// Encrypting the byte `d` at position `i`: the new state and the ciphertext byte.
pub open spec fn encrypt_step(s: CipherState, d: u8, i: nat) -> (CipherState, u8) {
    let idx = encrypt_index(s, d);
    let kb = ENCRYPT_KEY@[idx as int];
    (
        CipherState {
            key: next_key(s.key),
            prev: d,
            sum_shifted: wrapping_add(s.sum_shifted, ((kb as u32) << ((i % 8) as u32))),
            sum_index: wrapping_add(s.sum_index, idx),
            sum_product: wrapping_add(s.sum_product, ((s.prev as u32) * (d as u32)) as u32),
        },
        SHARED_CRYPT_KEY@[s.prev as int] ^ kb,
    )
}

/// Decrypting the byte `c` at position `i`: the new state and the plaintext byte.
pub open spec fn decrypt_step(s: CipherState, c: u8, i: nat) -> (CipherState, u8) {
    let t = c ^ SHARED_CRYPT_KEY@[s.prev as int];
    let db = DECRYPT_KEY@[t as int];
    let np = (((s.key >> 10u32) ^ (db as u32)) & 0xFF) as u8;
    (
        CipherState {
            key: next_key(s.key),
            prev: np,
            sum_shifted: wrapping_add(s.sum_shifted, ((t as u32) << ((i % 8) as u32))),
            sum_index: wrapping_add(s.sum_index, db as u32),
            sum_product: wrapping_add(s.sum_product, ((s.prev as u32) * (np as u32)) as u32),
        },
        np,
    )
}

/// Encrypting all of `data` from state `s0`: the final state and the ciphertext.
pub open spec fn encrypt_run(data: Seq<u8>, s0: CipherState) -> (CipherState, Seq<u8>)
    decreases data.len(),
{
    if data.len() == 0 {
        (s0, Seq::empty())
    } else {
        let (s, out) = encrypt_run(data.drop_last(), s0);
        let (s2, b) = encrypt_step(s, data.last(), (data.len() - 1) as nat);
        (s2, out.push(b))
    }
}

/// Decrypting all of `data` from state `s0`: the final state and the plaintext.
pub open spec fn decrypt_run(data: Seq<u8>, s0: CipherState) -> (CipherState, Seq<u8>)
    decreases data.len(),
{
    if data.len() == 0 {
        (s0, Seq::empty())
    } else {
        let (s, out) = decrypt_run(data.drop_last(), s0);
        let (s2, b) = decrypt_step(s, data.last(), (data.len() - 1) as nat);
        (s2, out.push(b))
    }
}

/// Folds a 32-bit sum into its 16-bit check value.
pub open spec fn fold_check(acc: u32) -> u16 {
    (acc ^ ((acc & 0xFFFF_0000) >> 16u32)) as u16
}

/// The combined check and the three checks of a final cipher state.
pub open spec fn checks_of(s: CipherState) -> (u16, u16, u16, u16) {
    (
        wrapping_add(wrapping_add(s.sum_index, s.sum_shifted >> 1u32), s.sum_product >> 2u32) as u16,
        fold_check(s.sum_shifted),
        fold_check(s.sum_index),
        fold_check(s.sum_product),
    )
}

/// What `crypto` returns: the transformed bytes, the combined check and the three checks.
pub open spec fn crypto_spec(data: Seq<u8>, rot_key: u32, encrypt: bool, override_byte: Option<u8>) -> (
    Seq<u8>,
    u16,
    u16,
    u16,
    u16,
) {
    let s0 = initial_state(data.len(), seed_byte(rot_key, override_byte));
    let (s, out) = if encrypt {
        encrypt_run(data, s0)
    } else {
        decrypt_run(data, s0)
    };
    let (cc, c0, c1, c2) = checks_of(s);
    (out, cc, c0, c1, c2)
}

proof fn lemma_run_len(data: Seq<u8>, s0: CipherState)
    ensures
        encrypt_run(data, s0).1.len() == data.len(),
        decrypt_run(data, s0).1.len() == data.len(),
    decreases data.len(),
{
    if data.len() > 0 {
        lemma_run_len(data.drop_last(), s0);
    }
}

proof fn lemma_low_byte_shift(i: usize)
    ensures
        ((i & 7) as u32) == (i % 8) as u32,
{
    assert((i & 7) == i % 8) by (bit_vector);
}

/// Decrypting an encrypted byte in the same state gives the byte back and
/// leaves the cipher in the same state.
proof fn lemma_step_inverse(s: CipherState, d: u8, i: nat)
    ensures
        decrypt_step(s, encrypt_step(s, d, i).1, i).0 == encrypt_step(s, d, i).0,
        decrypt_step(s, encrypt_step(s, d, i).1, i).1 == d,
{
    let idx = encrypt_index(s, d);
    let k = s.key >> 10u32;
    assert(idx < 256) by (bit_vector)
        requires
            idx == (k ^ (d as u32)) & 0xFF,
    ;
    let kb = ENCRYPT_KEY@[idx as int];
    let sh = SHARED_CRYPT_KEY@[s.prev as int];
    let c = sh ^ kb;
    assert((c ^ sh) == kb) by (bit_vector)
        requires
            c == sh ^ kb,
    ;
    lemma_decrypt_key_inverts(idx as u8);
    assert(DECRYPT_KEY@[kb as int] == idx as u8);
    assert((((k ^ ((idx as u8) as u32)) & 0xFF) as u8) == d) by (bit_vector)
        requires
            idx == (k ^ (d as u32)) & 0xFF,
    ;
    assert(((idx as u8) as u32) == idx);
    let (e, eb) = encrypt_step(s, d, i);
    assert(eb == c);
    let (r, rb) = decrypt_step(s, c, i);
    assert(rb == d);
    assert(r.key == e.key);
    assert(r.prev == e.prev);
    assert(r.sum_shifted == e.sum_shifted);
    assert(r.sum_index == e.sum_index);
    assert(r.sum_product == e.sum_product);
}

/// Decrypting the encryption of `data` from the same state ends in the same
/// state and gives `data` back.
proof fn lemma_run_inverse(data: Seq<u8>, s0: CipherState)
    ensures
        decrypt_run(encrypt_run(data, s0).1, s0) == encrypt_run(data, s0).0.pair_with(data),
    decreases data.len(),
{
    if data.len() > 0 {
        let prefix = data.drop_last();
        lemma_run_inverse(prefix, s0);
        lemma_run_len(prefix, s0);
        let (s, out) = encrypt_run(prefix, s0);
        let i = (data.len() - 1) as nat;
        let (s2, b) = encrypt_step(s, data.last(), i);
        let enc = out.push(b);
        assert(enc.drop_last() =~= out);
        assert(enc.last() == b);
        lemma_step_inverse(s, data.last(), i);
        assert(prefix.push(data.last()) =~= data);
    }
}

impl CipherState {
    /// Pairs a state with a byte sequence (the shape that `decrypt_run` returns).
    pub open spec fn pair_with(self, bytes: Seq<u8>) -> (CipherState, Seq<u8>) {
        (self, bytes)
    }
}

/// The output of `crypto` is as long as its input.
pub proof fn lemma_crypto_len(data: Seq<u8>, rot_key: u32, encrypt: bool, override_byte: Option<u8>)
    ensures
        crypto_spec(data, rot_key, encrypt, override_byte).0.len() == data.len(),
{
    lemma_run_len(data, initial_state(data.len(), seed_byte(rot_key, override_byte)));
}

/// Decrypting what encryption produced, with the same session key and
/// override, gives back the original bytes and the very checks that
/// encryption computed.
pub proof fn lemma_crypto_roundtrip(data: Seq<u8>, rot_key: u32, override_byte: Option<u8>)
    ensures
        ({
            let (enc, cc, c0, c1, c2) = crypto_spec(data, rot_key, true, override_byte);
            crypto_spec(enc, rot_key, false, override_byte) == (data, cc, c0, c1, c2)
        }),
{
    let s0 = initial_state(data.len(), seed_byte(rot_key, override_byte));
    lemma_run_inverse(data, s0);
    lemma_run_len(data, s0);
}

/// The final state of a run, as the exec code carries it.
pub open spec fn state_of(key: u32, prev: u8, acc0: u32, acc1: u32, acc2: u32) -> CipherState {
    CipherState { key, prev, sum_shifted: acc0, sum_index: acc1, sum_product: acc2 }
}

fn encrypt_bytes(data: &[u8], key0: u32) -> (res: (Vec<u8>, u32, u32, u32))
    ensures
        ({
            let (s, out) = encrypt_run(data@, initial_state_with_key(key0));
            res.0@ == out && res.1 == s.sum_shifted && res.2 == s.sum_index && res.3
                == s.sum_product
        }),
{
    let ghost s0 = initial_state_with_key(key0);
    let mut key: u32 = key0;
    let mut prev: u8 = 1;
    let mut acc0: u32 = 0;
    let mut acc1: u32 = 0;
    let mut acc2: u32 = 0;
    let mut output: Vec<u8> = Vec::with_capacity(data.len());
    let len = data.len();
    let mut i: usize = 0;
    while i < len
        invariant
            len == data@.len(),
            0 <= i <= len,
            s0 == initial_state_with_key(key0),
            encrypt_run(data@.take(i as int), s0) == (state_of(key, prev, acc0, acc1, acc2), output@),
        decreases len - i,
    {
        let d = data[i];
        let idx: u32 = ((key >> 10) ^ (d as u32)) & 0xFF;
        assert(idx < 256) by (bit_vector)
            requires
                idx == ((key >> 10u32) ^ (d as u32)) & 0xFF,
        ;
        let kb = ENCRYPT_KEY[idx as usize];
        let shift: u32 = (i & 7) as u32;
        proof {
            lemma_low_byte_shift(i);
        }
        assert(((kb as u32) << shift) < 0x1_0000) by (bit_vector)
            requires
                shift < 8,
        ;
        assert((prev as u32) * (d as u32) < 0x1_0000) by (nonlinear_arith)
            requires
                prev < 256,
                d < 256,
        ;
        acc2 = acc2.wrapping_add((prev as u32) * (d as u32));
        acc1 = acc1.wrapping_add(idx);
        acc0 = acc0.wrapping_add((kb as u32) << shift);
        output.push(SHARED_CRYPT_KEY[prev as usize] ^ kb);
        prev = d;
        key = 1277u32.wrapping_mul(key).wrapping_add(1277);
        proof {
            assert(data@.take(i + 1).drop_last() =~= data@.take(i as int));
        }
        i = i + 1;
    }
    assert(data@.take(len as int) =~= data@);
    (output, acc0, acc1, acc2)
}

fn decrypt_bytes(data: &[u8], key0: u32) -> (res: (Vec<u8>, u32, u32, u32))
    ensures
        ({
            let (s, out) = decrypt_run(data@, initial_state_with_key(key0));
            res.0@ == out && res.1 == s.sum_shifted && res.2 == s.sum_index && res.3
                == s.sum_product
        }),
{
    let ghost s0 = initial_state_with_key(key0);
    let mut key: u32 = key0;
    let mut prev: u8 = 1;
    let mut acc0: u32 = 0;
    let mut acc1: u32 = 0;
    let mut acc2: u32 = 0;
    let mut output: Vec<u8> = Vec::with_capacity(data.len());
    let len = data.len();
    let mut i: usize = 0;
    while i < len
        invariant
            len == data@.len(),
            0 <= i <= len,
            s0 == initial_state_with_key(key0),
            decrypt_run(data@.take(i as int), s0) == (state_of(key, prev, acc0, acc1, acc2), output@),
        decreases len - i,
    {
        let c = data[i];
        let t: u8 = c ^ SHARED_CRYPT_KEY[prev as usize];
        let db = DECRYPT_KEY[t as usize];
        let np: u8 = (((key >> 10) ^ (db as u32)) & 0xFF) as u8;
        let shift: u32 = (i & 7) as u32;
        proof {
            lemma_low_byte_shift(i);
        }
        assert(((t as u32) << shift) < 0x1_0000) by (bit_vector)
            requires
                shift < 8,
        ;
        assert((prev as u32) * (np as u32) < 0x1_0000) by (nonlinear_arith)
            requires
                prev < 256,
                np < 256,
        ;
        acc0 = acc0.wrapping_add((t as u32) << shift);
        acc1 = acc1.wrapping_add(db as u32);
        acc2 = acc2.wrapping_add((prev as u32) * (np as u32));
        output.push(np);
        prev = np;
        key = 1277u32.wrapping_mul(key).wrapping_add(1277);
        proof {
            assert(data@.take(i + 1).drop_last() =~= data@.take(i as int));
        }
        i = i + 1;
    }
    assert(data@.take(len as int) =~= data@);
    (output, acc0, acc1, acc2)
}

/// Encrypts (`encrypt == true`) or decrypts `data` with the session key
/// `rot_key`, or with `override_byte` as the key seed when it is given.
/// Returns the transformed bytes, the combined check and the three checks.
pub fn crypto(data: &[u8], rot_key: u32, encrypt: bool, override_byte: Option<u8>) -> (res: (
    Vec<u8>,
    u16,
    u16,
    u16,
    u16,
))
    ensures
        ({
            let (out, cc, c0, c1, c2) = res;
            (out@, cc, c0, c1, c2) == crypto_spec(data@, rot_key, encrypt, override_byte)
        }),
        res.0@.len() == data@.len(),
{
    let seed: u8 = match override_byte {
        Some(b) => b,
        None => (((rot_key >> 1) % 999983) & 0xFF) as u8,
    };
    let key0: u32 = (data.len() as u32).wrapping_mul((seed as u32) + 1);
    assert(initial_state_with_key(key0) == initial_state(data@.len(), seed));
    proof {
        lemma_run_len(data@, initial_state_with_key(key0));
    }
    let (output, acc0, acc1, acc2) = if encrypt {
        encrypt_bytes(data, key0)
    } else {
        decrypt_bytes(data, key0)
    };
    let combined = acc1.wrapping_add(acc0 >> 1).wrapping_add(acc2 >> 2) as u16;
    let check0 = (acc0 ^ ((acc0 & 0xFFFF_0000) >> 16)) as u16;
    let check1 = (acc1 ^ ((acc1 & 0xFFFF_0000) >> 16)) as u16;
    let check2 = (acc2 ^ ((acc2 & 0xFFFF_0000) >> 16)) as u16;
    (output, combined, check0, check1, check2)
}

} // verus!
