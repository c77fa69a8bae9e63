use vstd::prelude::*;

verus! {

/// Bytes of the block prefix: magic, version and variant, counter, salt.
pub const HEADER_SIZE: usize = 16;

/// Bytes of the Poly1305 tag that closes a block.
pub const POLY_TAG_SIZE: usize = 16;

/// Plaintext bytes carried by one block.
pub const PAYLOAD_SIZE: usize = 512;

/// Bytes of one block on the wire.
pub const BLOCK_SIZE: usize = 544;

/// Random bytes that name a sub-stream.
pub const SALT_SIZE: usize = 10;

/// Bytes of the derived symmetric key.
pub const KEY_SIZE: usize = 32;

/// Bytes of the AEAD nonce.
pub const NONCE_SIZE: usize = 12;

pub const VERSION_0: u8 = 0;

pub const VARIANT_ARGON_CHACHA20_POLY: u8 = 1;

/// The counter is stored xor-ed with the ASCII bytes of "544b".
pub const COUNTER_HINT: u32 = 0x3534_3462;

/// Magic table: a block with counter `c` starts with the byte at `c % 256`.
/// The text describes the format to whoever opens a file in an editor.
pub const MAGIC: [u8; 256] = [
    35, 116, 111, 99, 35, 115, 116, 114, 101, 97, 109, 95, 95, 95, 95, 95,
    10, 107, 101, 121, 61, 97, 114, 103, 111, 110, 50, 105, 118, 49, 51, 40,
    116, 61, 51, 44, 109, 61, 54, 53, 53, 51, 54, 44, 112, 61, 49, 44,
    115, 97, 108, 116, 61, 83, 65, 76, 84, 58, 49, 48, 124, 39, 35, 116,
    111, 99, 39, 44, 80, 76, 65, 73, 78, 41, 10, 110, 111, 110, 99, 101,
    61, 83, 65, 76, 84, 91, 48, 58, 56, 93, 124, 67, 79, 85, 78, 84,
    69, 82, 10, 109, 97, 103, 105, 99, 61, 105, 102, 32, 67, 79, 85, 78,
    84, 69, 82, 60, 49, 54, 32, 39, 35, 116, 111, 99, 35, 115, 116, 114,
    101, 97, 109, 95, 95, 95, 95, 95, 39, 91, 67, 79, 85, 78, 84, 69,
    82, 93, 32, 101, 108, 115, 101, 32, 63, 10, 118, 61, 49, 10, 101, 110,
    99, 44, 116, 97, 103, 61, 99, 104, 97, 99, 104, 97, 50, 48, 45, 112,
    111, 108, 121, 49, 51, 48, 53, 40, 110, 111, 110, 99, 101, 44, 107, 101,
    121, 41, 10, 99, 61, 67, 79, 85, 78, 84, 69, 82, 58, 52, 98, 101,
    94, 39, 53, 52, 52, 98, 39, 10, 109, 97, 103, 105, 99, 58, 49, 124,
    118, 58, 49, 124, 99, 58, 52, 124, 83, 65, 76, 84, 58, 49, 48, 124,
    101, 110, 99, 58, 53, 49, 50, 124, 116, 97, 103, 58, 49, 54, 10, 10,
];

/// The four bytes of `c`, most significant first.
pub open spec fn be32(c: u32) -> Seq<u8> {
    seq![(c >> 24) as u8, (c >> 16) as u8, (c >> 8) as u8, c as u8]
}

/// The number whose big-endian bytes are the first four of `b`.
pub open spec fn from_be32(b: Seq<u8>) -> u32 {
    ((b[0] as u32) << 24) | ((b[1] as u32) << 16) | ((b[2] as u32) << 8) | (b[3] as u32)
}

/// The magic byte that a writer puts before a block with this counter.
pub open spec fn magic_byte(counter: u32) -> u8 {
    MAGIC@[(counter % 256) as int]
}

/// The version and variant nibbles packed into one byte.
pub open spec fn pack_nibbles(version: u8, variant: u8) -> u8 {
    (version << 4) | variant
}

/// The first sixteen bytes of a block with the given fields.
pub open spec fn header_bytes(version: u8, variant: u8, counter: u32, salt: Seq<u8>) -> Seq<u8> {
    seq![magic_byte(counter), pack_nibbles(version, variant)] + be32(counter ^ COUNTER_HINT) + salt
}

/// The twelve nonce bytes for a block: eight of salt, then the counter.
pub open spec fn nonce_bytes(salt: Seq<u8>, counter: u32) -> Seq<u8> {
    salt.subrange(0, 8) + be32(counter)
}

pub fn counter_to_bytes(c: u32) -> (r: [u8; 4])
    ensures
        r@ == be32(c),
{
    let r: [u8; 4] = [(c >> 24) as u8, (c >> 16) as u8, (c >> 8) as u8, c as u8];
    assert(r@ =~= be32(c));
    r
}

pub fn counter_from_bytes(b0: u8, b1: u8, b2: u8, b3: u8) -> (c: u32)
    ensures
        c == from_be32(seq![b0, b1, b2, b3]),
{
    ((b0 as u32) << 24) | ((b1 as u32) << 16) | ((b2 as u32) << 8) | (b3 as u32)
}

/// The parsed prefix of a block.
#[derive(Debug, Clone, Copy)]
pub struct Header {
    pub magic: u8,
    pub version: u8,
    pub variant: u8,
    pub blockcounter: u32,
    pub salt: [u8; 10],
}

impl Header {
    /// What `data` says about a block, field by field.
    pub open spec fn parses(data: Seq<u8>, h: Header) -> bool {
        &&& h.magic == data[0]
        &&& h.version == (data[1] >> 4) & 0x0F
        &&& h.variant == data[1] & 0x0F
        &&& h.blockcounter == from_be32(data.subrange(2, 6)) ^ COUNTER_HINT
        &&& h.salt@ == data.subrange(6, 16)
    }

    pub open spec fn spec_to_bytes(self) -> Seq<u8> {
        header_bytes(self.version, self.variant, self.blockcounter, self.salt@)
    }

    pub open spec fn spec_magic_ok(self) -> bool {
        self.blockcounter >= 16 || self.magic == magic_byte(self.blockcounter)
    }

    pub fn from_bytes(data: &[u8; 16]) -> (h: Header)
        ensures
            Header::parses(data@, h),
    {
        let mut salt: [u8; 10] = [0u8; 10];
        let mut i: usize = 0;
        while i < 10
            invariant
                i <= 10,
                forall|j: int| 0 <= j < i ==> salt@[j] == data@[6 + j],
            decreases 10 - i,
        {
            salt[i] = data[6 + i];
            i += 1;
        }
        assert(salt@ =~= data@.subrange(6, 16));
        assert(data@.subrange(2, 6) =~= seq![data@[2], data@[3], data@[4], data@[5]]);
        Header {
            magic: data[0],
            version: (data[1] >> 4) & 0x0F,
            variant: data[1] & 0x0F,
            blockcounter: counter_from_bytes(data[2], data[3], data[4], data[5]) ^ COUNTER_HINT,
            salt,
        }
    }

    /// The sixteen bytes that start a block with this header. The magic byte
    /// is taken from the table, whatever `self.magic` holds.
    pub fn to_bytes(self) -> (data: [u8; 16])
        ensures
            data@ == self.spec_to_bytes(),
    {
        let mut data: [u8; 16] = [0u8; 16];
        data[0] = MAGIC[(self.blockcounter % 256) as usize];
        data[1] = (self.version << 4) | self.variant;
        let c = counter_to_bytes(self.blockcounter ^ COUNTER_HINT);
        data[2] = c[0];
        data[3] = c[1];
        data[4] = c[2];
        data[5] = c[3];
        let mut i: usize = 0;
        while i < 10
            invariant
                i <= 10,
                data@[0] == magic_byte(self.blockcounter),
                data@[1] == pack_nibbles(self.version, self.variant),
                data@.subrange(2, 6) == be32(self.blockcounter ^ COUNTER_HINT),
                forall|j: int| 0 <= j < i ==> data@[6 + j] == self.salt@[j],
            decreases 10 - i,
        {
            data[6 + i] = self.salt[i];
            i += 1;
            assert(data@.subrange(2, 6) =~= be32(self.blockcounter ^ COUNTER_HINT));
        }
        assert(data@ =~= self.spec_to_bytes());
        data
    }

    /// Whether the magic byte fits the counter. Only the first sixteen
    /// counters pin it down.
    pub fn magic_ok(&self) -> (ok: bool)
        ensures
            ok == self.spec_magic_ok(),
    {
        self.blockcounter >= 16 || self.magic == MAGIC[(self.blockcounter % 256) as usize]
    }
}

pub fn payload_nonce(h: &Header) -> (nonce: [u8; 12])
    ensures
        nonce@ == nonce_bytes(h.salt@, h.blockcounter),
{
    let mut nonce: [u8; 12] = [0u8; 12];
    let mut i: usize = 0;
    while i < 8
        invariant
            i <= 8,
            forall|j: int| 0 <= j < i ==> nonce@[j] == h.salt@[j],
        decreases 8 - i,
    {
        nonce[i] = h.salt[i];
        i += 1;
    }
    let c = counter_to_bytes(h.blockcounter);
    nonce[8] = c[0];
    nonce[9] = c[1];
    nonce[10] = c[2];
    nonce[11] = c[3];
    assert(nonce@ =~= nonce_bytes(h.salt@, h.blockcounter));
    nonce
}

/// Reading back the fields of a header finds what was written.
pub proof fn lemma_header_bytes_parse(version: u8, variant: u8, counter: u32, salt: Seq<u8>)
    requires
        version < 16,
        variant < 16,
        salt.len() == 10,
    ensures
        header_bytes(version, variant, counter, salt).len() == 16,
        header_bytes(version, variant, counter, salt)[0] == magic_byte(counter),
        (header_bytes(version, variant, counter, salt)[1] >> 4) & 0x0F == version,
        header_bytes(version, variant, counter, salt)[1] & 0x0F == variant,
        from_be32(header_bytes(version, variant, counter, salt).subrange(2, 6)) ^ COUNTER_HINT
            == counter,
        header_bytes(version, variant, counter, salt).subrange(6, 16) == salt,
{
    let d = header_bytes(version, variant, counter, salt);
    let x = counter ^ COUNTER_HINT;
    assert(d.subrange(2, 6) =~= be32(x));
    assert(d.subrange(6, 16) =~= salt);
    assert(from_be32(be32(x)) == x) by {
        let b0 = (x >> 24) as u8;
        let b1 = (x >> 16) as u8;
        let b2 = (x >> 8) as u8;
        let b3 = x as u8;
        assert(((b0 as u32) << 24) | ((b1 as u32) << 16) | ((b2 as u32) << 8) | (b3 as u32) == x)
            by (bit_vector)
            requires
                b0 == (x >> 24) as u8,
                b1 == (x >> 16) as u8,
                b2 == (x >> 8) as u8,
                b3 == x as u8,
        ;
    }
    assert((counter ^ 0x3534_3462u32) ^ 0x3534_3462u32 == counter) by (bit_vector);
    assert((((version << 4) | variant) >> 4) & 0x0F == version && ((version << 4) | variant)
        & 0x0F == variant) by (bit_vector)
        requires
            version < 16,
            variant < 16,
    ;
}

} // verus!
