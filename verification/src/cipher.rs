use vstd::prelude::*;
use chacha20poly1305::aead::generic_array::GenericArray;
use chacha20poly1305::AeadInPlace;
use chacha20poly1305::ChaCha20Poly1305;
use chacha20poly1305::KeyInit;
use rand::Rng;
use rand::RngCore;
use rand::SeedableRng;
use crate::format::Header;

verus! {

/// The raw Argon2i (version 1.3, no secret, no associated data) hash of
/// `password` under `salt` with the given costs.
pub uninterp spec fn argon2i_hash(
    password: Seq<u8>,
    salt: Seq<u8>,
    mem_cost: u32,
    time_cost: u32,
    lanes: u32,
    hash_length: u32,
) -> Seq<u8>;

/// Ciphertext and tag that ChaCha20-Poly1305 gives for `plaintext`, with no
/// associated data.
pub uninterp spec fn chacha20poly1305_seal(key: Seq<u8>, nonce: Seq<u8>, plaintext: Seq<u8>) -> (
    Seq<u8>,
    Seq<u8>,
);

/// The plaintext that ChaCha20-Poly1305 gives back for `ciphertext` and
/// `tag`, with no associated data; `None` where the tag does not fit.
pub uninterp spec fn chacha20poly1305_open(
    key: Seq<u8>,
    nonce: Seq<u8>,
    ciphertext: Seq<u8>,
    tag: Seq<u8>,
) -> Option<Seq<u8>>;

#[verifier::external_type_specification]
#[verifier::external_body]
pub struct ExArgon2Error(argon2::Error);

#[verifier::external_type_specification]
#[verifier::external_body]
pub struct ExAeadError(chacha20poly1305::aead::Error);

#[verifier::external_type_specification]
#[verifier::external_body]
pub struct ExStdRng(rand::rngs::StdRng);

/// Inputs that `argon2::hash_raw` takes without an error: one lane, enough
/// memory for it, at least one pass, at least four bytes of output, and
/// lengths within the limits of the algorithm.
pub open spec fn argon2i_accepts(
    password: Seq<u8>,
    salt: Seq<u8>,
    mem_cost: u32,
    time_cost: u32,
    lanes: u32,
    hash_length: u32,
) -> bool {
    &&& lanes == 1
    &&& 8 <= mem_cost <= 0x20_0000
    &&& 1 <= time_cost
    &&& 4 <= hash_length
    &&& password.len() <= 0xFFFF_FFFF
    &&& 8 <= salt.len() <= 0xFFFF_FFFF
}

/// `argon2::hash_raw` with variant Argon2i, version 1.3, sequential, no
/// secret and no associated data. It checks the costs and lengths, returns an
/// error without hashing if one is out of bounds, and else a hash of
/// `hash_length` bytes that depends on the arguments alone.
#[verifier::external_body]
pub(crate) fn argon2i_raw(
    password: &[u8],
    salt: &[u8],
    mem_cost: u32,
    time_cost: u32,
    lanes: u32,
    hash_length: u32,
) -> (r: Result<Vec<u8>, argon2::Error>)
    ensures
        argon2i_accepts(password@, salt@, mem_cost, time_cost, lanes, hash_length) ==> r is Ok,
        r is Ok ==> r->Ok_0@ == argon2i_hash(
            password@,
            salt@,
            mem_cost,
            time_cost,
            lanes,
            hash_length,
        ) && r->Ok_0@.len() == hash_length,
{
    let config = argon2::Config {
        variant: argon2::Variant::Argon2i,
        version: argon2::Version::Version13,
        mem_cost,
        time_cost,
        lanes,
        thread_mode: argon2::ThreadMode::Sequential,
        secret: &[],
        ad: &[],
        hash_length,
    };
    argon2::hash_raw(password, salt, &config)
}

/// `encrypt_in_place_detached` of `ChaCha20Poly1305`, with no associated
/// data. It replaces the buffer by the ciphertext of the same length and
/// returns the tag; it fails only on buffers of 256 GiB and more. What it
/// wrote, `decrypt_in_place_detached` turns back into what it read.
#[verifier::external_body]
pub(crate) fn seal_in_place(key: &[u8; 32], nonce: &[u8; 12], buffer: &mut [u8; 512]) -> (tag:
    Result<[u8; 16], chacha20poly1305::aead::Error>)
    ensures
        tag is Ok,
        (final(buffer)@, tag->Ok_0@) == chacha20poly1305_seal(key@, nonce@, old(buffer)@),
        chacha20poly1305_open(key@, nonce@, final(buffer)@, tag->Ok_0@) == Some(old(buffer)@),
{
    let cipher = ChaCha20Poly1305::new(GenericArray::from_slice(key));
    let tag = cipher.encrypt_in_place_detached(GenericArray::from_slice(nonce), &[], buffer)?;
    Ok(tag.into())
}

/// `decrypt_in_place_detached` of `ChaCha20Poly1305`, with no associated
/// data. Where the tag fits the ciphertext it replaces the buffer by the
/// plaintext; where it does not, it returns an error and leaves the buffer as
/// it was.
#[verifier::external_body]
pub(crate) fn open_in_place(
    key: &[u8; 32],
    nonce: &[u8; 12],
    buffer: &mut [u8; 512],
    tag: &[u8; 16],
) -> (r: Result<(), chacha20poly1305::aead::Error>)
    ensures
        r is Ok <==> chacha20poly1305_open(key@, nonce@, old(buffer)@, tag@) is Some,
        r is Ok ==> Some(final(buffer)@) == chacha20poly1305_open(
            key@,
            nonce@,
            old(buffer)@,
            tag@,
        ),
        r is Err ==> final(buffer)@ == old(buffer)@,
{
    let cipher = ChaCha20Poly1305::new(GenericArray::from_slice(key));
    cipher.decrypt_in_place_detached(
        GenericArray::from_slice(nonce),
        &[],
        buffer,
        GenericArray::from_slice(tag),
    )
}

/// `StdRng::from_entropy`: a generator seeded by the operating system. The
/// call panics where the system can give no entropy.
#[verifier::external_body]
pub(crate) fn entropy_rng() -> rand::rngs::StdRng {
    rand::rngs::StdRng::from_entropy()
}

/// `RngCore::fill_bytes` on a salt: every byte is overwritten with a random
/// one, so nothing is known of the result.
#[verifier::external_body]
pub(crate) fn fill_salt(rng: &mut rand::rngs::StdRng, salt: &mut [u8; 10]) {
    rng.fill_bytes(salt)
}

/// `Rng::gen_range` on a half-open range of `u16`: some number of the range.
/// The call panics on an empty range.
#[verifier::external_body]
pub(crate) fn gen_in_range(rng: &mut rand::rngs::StdRng, low: u16, high: u16) -> (r: u16)
    requires
        low < high,
    ensures
        low <= r < high,
{
    rng.gen_range(low..high)
}

/// Memory cost of the key derivation, in KiB.
pub const KDF_MEM_COST: u32 = 65536;

/// Passes of the key derivation.
pub const KDF_TIME_COST: u32 = 3;

/// Lanes of the key derivation.
pub const KDF_LANES: u32 = 1;

/// Bytes that the key derivation returns.
pub const KDF_HASH_LENGTH: u32 = 32;

/// What the key derivation is salted with: the salt of the sub-stream, then
/// the ASCII bytes of "#toc".
pub open spec fn kdf_salt(salt: Seq<u8>) -> Seq<u8> {
    salt + seq![35u8, 116u8, 111u8, 99u8]
}

/// The key of the sub-stream with this salt under this passphrase.
pub open spec fn derived_key(passphrase: Seq<u8>, salt: Seq<u8>) -> Seq<u8> {
    argon2i_hash(
        passphrase,
        kdf_salt(salt),
        KDF_MEM_COST,
        KDF_TIME_COST,
        KDF_LANES,
        KDF_HASH_LENGTH,
    )
}

/// The 32 bytes of a hash of that length, as an array.
pub fn key_from_hash(hash: &[u8]) -> (key: Option<[u8; 32]>)
    ensures
        key is Some <==> hash@.len() == 32,
        key is Some ==> key->Some_0@ == hash@,
{
    if hash.len() != 32 {
        return None;
    }
    let mut key: [u8; 32] = [0u8; 32];
    let mut k: usize = 0;
    while k < 32
        invariant
            k <= 32,
            hash@.len() == 32,
            forall|j: int| 0 <= j < k ==> key@[j] == hash@[j],
        decreases 32 - k,
    {
        key[k] = hash[k];
        k += 1;
    }
    assert(key@ =~= hash@);
    Some(key)
}

/// Derives the key of a sub-stream from the passphrase and the salt in the
/// header. Passphrases of 4 GiB and more are beyond the key derivation.
pub fn generate_key(passphrase: &[u8], header: &Header) -> (key: [u8; 32])
    requires
        passphrase@.len() <= 0xFFFF_FFFF,
    ensures
        key@ == derived_key(passphrase@, header.salt@),
{
    let mut salt: [u8; 14] = [0u8; 14];
    let mut i: usize = 0;
    while i < 10
        invariant
            i <= 10,
            forall|j: int| 0 <= j < i ==> salt@[j] == header.salt@[j],
        decreases 10 - i,
    {
        salt[i] = header.salt[i];
        i += 1;
    }
    salt[10] = 35;
    salt[11] = 116;
    salt[12] = 111;
    salt[13] = 99;
    assert(salt@ =~= kdf_salt(header.salt@));
    match argon2i_raw(
        passphrase,
        salt.as_slice(),
        KDF_MEM_COST,
        KDF_TIME_COST,
        KDF_LANES,
        KDF_HASH_LENGTH,
    ) {
        Ok(hash) => match key_from_hash(hash.as_slice()) {
            Some(key) => key,
            None => {
                assert(false);
                [0u8; 32]
            },
        },
        Err(_) => {
            assert(false);
            [0u8; 32]
        },
    }
}

} // verus!
