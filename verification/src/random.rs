//! Random numbers from ChaCha20 keystreams.
//!
//! The seed of a generator is the entropy the kernel reports, with each of
//! its four 64-bit words xored with the thread handle repeated in both
//! halves (handle 0 for the process-wide generator), taken as the 32-byte
//! ChaCha20 key with an all-zero nonce. Random values are the next bytes of
//! the keystream, read in little-endian order; a generator keeps count of
//! the bytes read.

use chacha::{ChaCha, KeyStream};
use vstd::prelude::*;
use vstd::bytes::{spec_u128_from_le_bytes, spec_u16_from_le_bytes, spec_u32_from_le_bytes, spec_u64_from_le_bytes, spec_u64_to_le_bytes};

verus! {

#[verifier::external_type_specification]
#[verifier::external_body]
pub struct ExChaCha(ChaCha);

/// The byte at `position` of the ChaCha20 keystream (64-bit block counter
/// starting at zero) for `key` and `nonce`.
pub uninterp spec fn chacha20_keystream(key: Seq<u8>, nonce: Seq<u8>, position: nat) -> u8;

/// How many bytes of a keystream can be read: every block but the last of
/// the 2^64 that the block counter numbers.
pub open spec fn keystream_limit() -> nat {
    0xFFFF_FFFF_FFFF_FFFFnat * 64
}

/// A ChaCha20 keystream, with the key and nonce it was created with and the
/// number of its bytes read so far.
pub struct KeyedChaCha {
    stream: ChaCha,
    key: Ghost<Seq<u8>>,
    nonce: Ghost<Seq<u8>>,
    position: Ghost<nat>,
}

impl KeyedChaCha {
    /// The key the stream was created with.
    pub closed spec fn key(&self) -> Seq<u8> {
        self.key@
    }

    /// The nonce the stream was created with.
    pub closed spec fn nonce(&self) -> Seq<u8> {
        self.nonce@
    }

    /// The number of keystream bytes read so far.
    pub closed spec fn position(&self) -> nat {
        self.position@
    }

    /// The next `len` bytes of the keystream.
    pub open spec fn next_bytes(&self, len: nat) -> Seq<u8> {
        Seq::new(len, |i: int| chacha20_keystream(self.key(), self.nonce(), (self.position() + i) as nat))
    }

    /// Whether `len` more bytes of the keystream can be read.
    pub open spec fn can_read(&self, len: nat) -> bool {
        self.position() + len <= keystream_limit()
    }

    /// Whether `self` is the stream `before` after reading `len` more bytes.
    pub open spec fn read_from(&self, before: &KeyedChaCha, len: nat) -> bool {
        &&& self.key() == before.key()
        &&& self.nonce() == before.nonce()
        &&& self.position() == before.position() + len
    }
}

/// Creates a ChaCha20 keystream (`chacha::ChaCha::new_chacha20`) from a
/// 32-byte key and an 8-byte nonce, positioned at its first byte, and
/// records that key and nonce beside it.
#[verifier::external_body]
fn new_chacha20(key: &[u8; 32], nonce: &[u8; 8]) -> (r: KeyedChaCha)
    ensures
        r.key() == key@,
        r.nonce() == nonce@,
        r.position() == 0,
{
    KeyedChaCha {
        stream: ChaCha::new_chacha20(key, nonce),
        key: Ghost(key@),
        nonce: Ghost(nonce@),
        position: Ghost(0),
    }
}

/// Xors the next keystream bytes of `rng` into `dest`
/// (`chacha::KeyStream::xor_read`), ignoring the end-of-stream error. The
/// key and nonce stay; while the end of the keystream is not reached, byte
/// `i` of `dest` is xored with the keystream byte at the position plus `i`,
/// and the position moves on by the length of `dest`. Past the end the
/// bytes are left unstated, as `xor_read` leaves them undefined.
#[verifier::external_body]
fn xor_keystream(rng: &mut KeyedChaCha, dest: &mut [u8])
    ensures
        final(dest)@.len() == old(dest)@.len(),
        final(rng).key() == old(rng).key(),
        final(rng).nonce() == old(rng).nonce(),
        old(rng).can_read(old(dest)@.len()) ==> final(rng).position() == old(rng).position() + old(dest)@.len(),
        old(rng).can_read(old(dest)@.len()) ==> forall|i: int|
            0 <= i < old(dest)@.len() ==> #[trigger] final(dest)@[i] == old(dest)@[i] ^ chacha20_keystream(
                old(rng).key(),
                old(rng).nonce(),
                (old(rng).position() + i) as nat,
            ),
{
    let _ = rng.stream.xor_read(dest);
    rng.position = Ghost(rng.position@ + dest@.len());
}

/// The thread handle repeated in both halves of a 64-bit word.
pub open spec fn handle_mask(handle: u32) -> u64 {
    (handle as u64) | ((handle as u64) << 32u64)
}

/// The key of the generator of the thread with `handle`.
pub open spec fn seed_spec(entropy: [u64; 4], handle: u32) -> Seq<u8> {
    spec_u64_to_le_bytes(entropy@[0] ^ handle_mask(handle)) + spec_u64_to_le_bytes(entropy@[1] ^ handle_mask(handle))
        + spec_u64_to_le_bytes(entropy@[2] ^ handle_mask(handle)) + spec_u64_to_le_bytes(entropy@[3] ^ handle_mask(handle))
}

/// Computes the key of the generator of the thread with `handle` from the
/// kernel's random entropy.
pub fn thread_seed(entropy: [u64; 4], handle: u32) -> (r: [u8; 32])
    ensures
        r@ == seed_spec(entropy, handle),
{
    let mask = (handle as u64) | ((handle as u64) << 32u64);
    let mut seed = [0u8; 32];
    let mut w: usize = 0;
    proof {
        vstd::bytes::lemma_auto_spec_u64_to_from_le_bytes();
    }
    while w < 4
        invariant
            w <= 4,
            seed@.len() == 32,
            mask == handle_mask(handle),
            forall|k: int| 0 <= k < w ==> seed@.subrange(8 * k, 8 * k + 8) == #[trigger] spec_u64_to_le_bytes(entropy@[k] ^ mask),
        decreases 4 - w,
    {
        let word = entropy[w] ^ mask;
        let bytes = vstd::bytes::u64_to_le_bytes(word);
        let ghost before = seed@;
        let mut b: usize = 0;
        while b < 8
            invariant
                w < 4,
                b <= 8,
                seed@.len() == 32,
                bytes@ == spec_u64_to_le_bytes(word),
                bytes@.len() == 8,
                forall|k: int| 0 <= k < 32 && !(8 * w <= k < 8 * w + b) ==> seed@[k] == before[k],
                forall|k: int| 0 <= k < b ==> seed@[8 * w + k] == bytes@[k],
            decreases 8 - b,
        {
            seed[8 * w + b] = bytes[b];
            b = b + 1;
        }
        assert(seed@.subrange(8 * w as int, 8 * w + 8) =~= bytes@);
        assert forall|k: int| 0 <= k < w implies seed@.subrange(8 * k, 8 * k + 8) == #[trigger] spec_u64_to_le_bytes(entropy@[k] ^ mask) by {
            assert(seed@.subrange(8 * k, 8 * k + 8) =~= before.subrange(8 * k, 8 * k + 8));
        }
        w = w + 1;
    }
    assert(seed@ =~= seed@.subrange(0, 8) + seed@.subrange(8, 16) + seed@.subrange(16, 24) + seed@.subrange(24, 32));
    seed
}

/// Each of the four 8-byte words of a thread's key is the matching entropy
/// word xored with the thread handle repeated in both 32-bit halves, in
/// little-endian order, and the key has 32 bytes.
pub proof fn lemma_seed_words(entropy: [u64; 4], handle: u32, k: int)
    requires
        0 <= k < 4,
    ensures
        seed_spec(entropy, handle).len() == 32,
        seed_spec(entropy, handle).subrange(8 * k, 8 * k + 8) == spec_u64_to_le_bytes(
            entropy@[k] ^ ((handle as u64) | ((handle as u64) << 32u64)),
        ),
{
    vstd::bytes::lemma_auto_spec_u64_to_from_le_bytes();
    let m = (handle as u64) | ((handle as u64) << 32u64);
    let w0 = spec_u64_to_le_bytes(entropy@[0] ^ m);
    let w1 = spec_u64_to_le_bytes(entropy@[1] ^ m);
    let w2 = spec_u64_to_le_bytes(entropy@[2] ^ m);
    let w3 = spec_u64_to_le_bytes(entropy@[3] ^ m);
    let s = seed_spec(entropy, handle);
    assert(s == w0 + w1 + w2 + w3);
    assert(s.subrange(0, 8) =~= w0);
    assert(s.subrange(8, 16) =~= w1);
    assert(s.subrange(16, 24) =~= w2);
    assert(s.subrange(24, 32) =~= w3);
}

/// The process-wide generator (handle 0) is keyed with the raw entropy, and
/// the generators of two different threads get different keys: thread
/// generators are distinguished from each other and from the process-wide one.
pub proof fn lemma_seeds_distinguish_threads(entropy: [u64; 4], h1: u32, h2: u32)
    ensures
        seed_spec(entropy, 0) == spec_u64_to_le_bytes(entropy@[0]) + spec_u64_to_le_bytes(entropy@[1])
            + spec_u64_to_le_bytes(entropy@[2]) + spec_u64_to_le_bytes(entropy@[3]),
        h1 != h2 ==> seed_spec(entropy, h1) != seed_spec(entropy, h2),
{
    let e0 = entropy@[0];
    let e1 = entropy@[1];
    let e2 = entropy@[2];
    let e3 = entropy@[3];
    assert(handle_mask(0) == 0) by (bit_vector);
    assert(e0 ^ 0u64 == e0 && e1 ^ 0u64 == e1) by (bit_vector);
    assert(e2 ^ 0u64 == e2 && e3 ^ 0u64 == e3) by (bit_vector);
    if h1 != h2 {
        vstd::bytes::lemma_auto_spec_u64_to_from_le_bytes();
        assert(e0 ^ handle_mask(h1) != e0 ^ handle_mask(h2)) by (bit_vector)
            requires
                h1 != h2,
        ;
        let s1 = seed_spec(entropy, h1);
        let s2 = seed_spec(entropy, h2);
        let w1 = spec_u64_to_le_bytes(e0 ^ handle_mask(h1));
        let w2 = spec_u64_to_le_bytes(e0 ^ handle_mask(h2));
        assert(s1.subrange(0, 8) =~= w1);
        assert(s2.subrange(0, 8) =~= w2);
        if s1 == s2 {
            assert(w1 == w2);
            assert(vstd::bytes::spec_u64_from_le_bytes(w1) == vstd::bytes::spec_u64_from_le_bytes(w2));
        }
    }
}

/// Creates the generator of the thread with `handle` (0 for the
/// process-wide one) from the kernel's random entropy: ChaCha20 keyed with
/// `thread_seed(entropy, handle)` and an all-zero nonce, at its first byte.
pub fn create_chacha_with_thread_handle(handle: u32, entropy: [u64; 4]) -> (r: KeyedChaCha)
    ensures
        r.key() == seed_spec(entropy, handle),
        r.nonce() == Seq::new(8, |i: int| 0u8),
        r.position() == 0,
{
    let seed = thread_seed(entropy, handle);
    let nonce = [0u8; 8];
    assert(nonce@ =~= Seq::new(8, |i: int| 0u8));
    new_chacha20(&seed, &nonce)
}

/// Fills `bytes` with the next keystream bytes of `rng`, whatever they
/// held, and moves the generator on by their number.
pub fn fill(rng: &mut KeyedChaCha, bytes: &mut [u8])
    ensures
        final(bytes)@.len() == old(bytes)@.len(),
        final(rng).key() == old(rng).key(),
        final(rng).nonce() == old(rng).nonce(),
        old(rng).can_read(old(bytes)@.len()) ==> final(bytes)@ == old(rng).next_bytes(old(bytes)@.len())
            && final(rng).read_from(old(rng), old(bytes)@.len()),
{
    let mut i: usize = 0;
    while i < bytes.len()
        invariant
            i <= bytes@.len(),
            bytes@.len() == old(bytes)@.len(),
            forall|k: int| 0 <= k < i ==> bytes@[k] == 0u8,
        decreases bytes@.len() - i,
    {
        bytes[i] = 0;
        i = i + 1;
    }
    let ghost zeroed = bytes@;
    let ghost before = *rng;
    xor_keystream(rng, bytes);
    proof {
        if before.can_read(zeroed.len()) {
            assert forall|k: int| 0 <= k < zeroed.len() implies bytes@[k] == before.next_bytes(zeroed.len())[k] by {
                let x = chacha20_keystream(before.key(), before.nonce(), (before.position() + k) as nat);
                assert(0u8 ^ x == x) by (bit_vector);
            }
            assert(bytes@ =~= before.next_bytes(zeroed.len()));
        }
    }
}

/// A random byte: the next keystream byte.
pub fn get_u8(rng: &mut KeyedChaCha) -> (r: u8)
    ensures
        final(rng).key() == old(rng).key() && final(rng).nonce() == old(rng).nonce(),
        old(rng).can_read(1) ==> r == old(rng).next_bytes(1)[0] && final(rng).read_from(old(rng), 1),
{
    let mut b = [0u8; 1];
    fill(rng, &mut b);
    b[0]
}

/// A random signed byte: the next keystream byte, as a signed number.
pub fn get_i8(rng: &mut KeyedChaCha) -> (r: i8)
    ensures
        final(rng).key() == old(rng).key() && final(rng).nonce() == old(rng).nonce(),
        old(rng).can_read(1) ==> r == old(rng).next_bytes(1)[0] as i8 && final(rng).read_from(old(rng), 1),
{
    get_u8(rng) as i8
}

/// A random 16-bit number: the next 2 keystream bytes, little-endian.
pub fn get_u16(rng: &mut KeyedChaCha) -> (r: u16)
    ensures
        final(rng).key() == old(rng).key() && final(rng).nonce() == old(rng).nonce(),
        old(rng).can_read(2) ==> r == spec_u16_from_le_bytes(old(rng).next_bytes(2)) && final(rng).read_from(old(rng), 2),
{
    let mut b = [0u8; 2];
    fill(rng, &mut b);
    vstd::bytes::u16_from_le_bytes(b.as_slice())
}

/// A random signed 16-bit number: the next 2 keystream bytes, little-endian.
pub fn get_i16(rng: &mut KeyedChaCha) -> (r: i16)
    ensures
        final(rng).key() == old(rng).key() && final(rng).nonce() == old(rng).nonce(),
        old(rng).can_read(2) ==> r == spec_u16_from_le_bytes(old(rng).next_bytes(2)) as i16 && final(rng).read_from(
            old(rng),
            2,
        ),
{
    get_u16(rng) as i16
}

/// A random 32-bit number: the next 4 keystream bytes, little-endian.
pub fn get_u32(rng: &mut KeyedChaCha) -> (r: u32)
    ensures
        final(rng).key() == old(rng).key() && final(rng).nonce() == old(rng).nonce(),
        old(rng).can_read(4) ==> r == spec_u32_from_le_bytes(old(rng).next_bytes(4)) && final(rng).read_from(old(rng), 4),
{
    let mut b = [0u8; 4];
    fill(rng, &mut b);
    vstd::bytes::u32_from_le_bytes(b.as_slice())
}

/// A random signed 32-bit number: the next 4 keystream bytes, little-endian.
pub fn get_i32(rng: &mut KeyedChaCha) -> (r: i32)
    ensures
        final(rng).key() == old(rng).key() && final(rng).nonce() == old(rng).nonce(),
        old(rng).can_read(4) ==> r == spec_u32_from_le_bytes(old(rng).next_bytes(4)) as i32 && final(rng).read_from(
            old(rng),
            4,
        ),
{
    get_u32(rng) as i32
}

/// A random 64-bit number: the next 8 keystream bytes, little-endian.
pub fn get_u64(rng: &mut KeyedChaCha) -> (r: u64)
    ensures
        final(rng).key() == old(rng).key() && final(rng).nonce() == old(rng).nonce(),
        old(rng).can_read(8) ==> r == spec_u64_from_le_bytes(old(rng).next_bytes(8)) && final(rng).read_from(old(rng), 8),
{
    let mut b = [0u8; 8];
    fill(rng, &mut b);
    vstd::bytes::u64_from_le_bytes(b.as_slice())
}

/// A random signed 64-bit number: the next 8 keystream bytes, little-endian.
pub fn get_i64(rng: &mut KeyedChaCha) -> (r: i64)
    ensures
        final(rng).key() == old(rng).key() && final(rng).nonce() == old(rng).nonce(),
        old(rng).can_read(8) ==> r == spec_u64_from_le_bytes(old(rng).next_bytes(8)) as i64 && final(rng).read_from(
            old(rng),
            8,
        ),
{
    get_u64(rng) as i64
}

/// A random 128-bit number: the next 16 keystream bytes, little-endian.
pub fn get_u128(rng: &mut KeyedChaCha) -> (r: u128)
    ensures
        final(rng).key() == old(rng).key() && final(rng).nonce() == old(rng).nonce(),
        old(rng).can_read(16) ==> r == spec_u128_from_le_bytes(old(rng).next_bytes(16)) && final(rng).read_from(
            old(rng),
            16,
        ),
{
    let mut b = [0u8; 16];
    fill(rng, &mut b);
    vstd::bytes::u128_from_le_bytes(b.as_slice())
}

/// A random signed 128-bit number: the next 16 keystream bytes, little-endian.
pub fn get_i128(rng: &mut KeyedChaCha) -> (r: i128)
    ensures
        final(rng).key() == old(rng).key() && final(rng).nonce() == old(rng).nonce(),
        old(rng).can_read(16) ==> r == spec_u128_from_le_bytes(old(rng).next_bytes(16)) as i128 && final(rng).read_from(
            old(rng),
            16,
        ),
{
    get_u128(rng) as i128
}

} // verus!
