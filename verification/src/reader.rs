use vstd::prelude::*;
use std::collections::BTreeMap;
use crate::cipher::chacha20poly1305_open;
use crate::cipher::derived_key;
use crate::cipher::generate_key;
use crate::cipher::open_in_place;
use crate::error::EncryptedFileError;
use crate::format::from_be32;
use crate::format::magic_byte;
use crate::format::nonce_bytes;
use crate::format::payload_nonce;
use crate::format::Header;
use crate::format::COUNTER_HINT;
use crate::format::PAYLOAD_SIZE;
use crate::format::VARIANT_ARGON_CHACHA20_POLY;
use crate::format::VERSION_0;

verus! {

/// The bytes of `salt` read as one number, first byte most significant.
pub open spec fn salt_number(salt: Seq<u8>) -> nat
    decreases salt.len(),
{
    if salt.len() == 0 {
        0
    } else {
        salt_number(salt.drop_last()) * 256 + salt.last() as nat
    }
}

/// The key under which a reader files the sub-stream with this salt.
pub open spec fn salt_key(salt: Seq<u8>) -> u128 {
    salt_number(salt) as u128
}

/// 256 to the power of `n`.
pub open spec fn pow256(n: nat) -> nat
    decreases n,
{
    if n == 0 {
        1
    } else {
        256 * pow256((n - 1) as nat)
    }
}

pub proof fn lemma_salt_number_bound(salt: Seq<u8>)
    ensures
        salt_number(salt) < pow256(salt.len()),
    decreases salt.len(),
{
    if salt.len() > 0 {
        lemma_salt_number_bound(salt.drop_last());
    }
}

/// Salts of one length with one number are one salt.
pub proof fn lemma_salt_number_injective(a: Seq<u8>, b: Seq<u8>)
    requires
        a.len() == b.len(),
        salt_number(a) == salt_number(b),
    ensures
        a == b,
    decreases a.len(),
{
    if a.len() > 0 {
        lemma_salt_number_injective(a.drop_last(), b.drop_last());
        assert(a =~= a.drop_last().push(a.last()));
        assert(b =~= b.drop_last().push(b.last()));
    } else {
        assert(a =~= b);
    }
}

/// Two different salts of the format are filed under two different keys.
pub proof fn lemma_salt_key_injective(a: Seq<u8>, b: Seq<u8>)
    requires
        a.len() == 10,
        b.len() == 10,
        salt_key(a) == salt_key(b),
    ensures
        a == b,
{
    lemma_salt_number_bound(a);
    lemma_salt_number_bound(b);
    reveal_with_fuel(pow256, 11);
    lemma_salt_number_injective(a, b);
}

pub fn key_of_salt(salt: &[u8; 10]) -> (k: u128)
    ensures
        k == salt_key(salt@),
{
    let mut k: u128 = 0;
    let mut i: usize = 0;
    proof {
        reveal_with_fuel(pow256, 11);
        assert(salt@.subrange(0, 0) =~= Seq::<u8>::empty());
    }
    while i < 10
        invariant
            i <= 10,
            k == salt_number(salt@.subrange(0, i as int)),
            k < pow256(i as nat),
        decreases 10 - i,
    {
        proof {
            reveal_with_fuel(pow256, 11);
            let next = salt@.subrange(0, i + 1);
            assert(next.drop_last() =~= salt@.subrange(0, i as int));
            assert(next.last() == salt@[i as int]);
        }
        k = k * 256 + salt[i] as u128;
        i += 1;
    }
    proof {
        assert(salt@.subrange(0, 10) =~= salt@);
    }
    k
}

/// What a reader remembers of one sub-stream.
pub struct StreamModel {
    pub key: Seq<u8>,
    /// Global block index at which the sub-stream's block 0 stands.
    pub first: nat,
    /// Global block index at which another sub-stream took over, if one did.
    pub next: Option<nat>,
}

#[derive(Clone, Copy)]
pub struct StreamState {
    pub key: [u8; 32],
    pub first_stream_chunk: u64,
    pub next_stream_block: Option<u64>,
}

impl View for StreamState {
    type V = StreamModel;

    open spec fn view(&self) -> StreamModel {
        StreamModel {
            key: self.key@,
            first: self.first_stream_chunk as nat,
            next: match self.next_stream_block {
                Some(n) => Some(n as nat),
                None => None,
            },
        }
    }
}

/// Where a seek is measured from.
#[derive(Debug, Clone, Copy, PartialEq, Eq)]
pub enum SeekFrom {
    /// So many plaintext bytes after the start.
    Start(u64),
    /// So many plaintext bytes after the read position, or before it.
    Current(i64),
    /// So many plaintext bytes after the end of the last whole block of the
    /// source, or before it.
    End(i64),
}

/// What a reader is, as far as its results depend on it.
pub struct ReaderModel {
    pub passphrase: Seq<u8>,
    /// The sub-streams seen so far, each under the key of its salt.
    pub streams: Map<u128, StreamModel>,
    /// Key of the salt of the block decoded last, unless a seek came since.
    pub last_stream: Option<u128>,
    /// Plaintext of the current block that has not been read yet.
    pub buffered: Seq<u8>,
    /// Plaintext bytes before the read position.
    pub position: nat,
}

impl ReaderModel {
    /// Index of the block that the read position lies in.
    pub open spec fn current_block(self) -> nat {
        self.position / 512
    }

    /// The sub-streams once the one decoded last is marked as ended here,
    /// which happens when the block at hand belongs to another one.
    pub open spec fn retire_last(self, k: u128) -> Map<u128, StreamModel> {
        match self.last_stream {
            Some(l) => if l != k && self.streams.contains_key(l) {
                self.streams.insert(
                    l,
                    StreamModel { next: Some(self.current_block()), ..self.streams[l] },
                )
            } else {
                self.streams
            },
            None => self.streams,
        }
    }

    /// Looks for the place of a block with this counter and salt: the reader
    /// afterwards, and the state of the block's sub-stream if it is known
    /// and the block is where it belongs, nothing if the sub-stream is new
    /// and may start here, or why the block is out of place.
    pub open spec fn spec_find_place(self, counter: u32, salt: Seq<u8>) -> (
        ReaderModel,
        Result<Option<StreamModel>, EncryptedFileError>,
    ) {
        let k = salt_key(salt);
        let current = self.current_block();
        let streams = self.retire_last(k);
        let m = ReaderModel { streams, last_stream: Some(k), ..self };
        if streams.contains_key(k) {
            let st = streams[k];
            if st.next is Some && st.next->Some_0 <= current {
                (m, Err(EncryptedFileError::InvalidBlockCounter))
            } else if current == st.first + counter {
                (m, Ok(Some(st)))
            } else {
                (m, Err(EncryptedFileError::InvalidBlockCounter))
            }
        } else if current < counter {
            (m, Err(EncryptedFileError::InvalidBlockCounter))
        } else {
            (m, Ok(None))
        }
    }

    /// Files the sub-stream with this salt as one whose block `counter`
    /// stands at the read position, under the given key. A sub-stream that
    /// would have started before the source did is not filed.
    pub open spec fn spec_enter_stream(self, counter: u32, salt: Seq<u8>, key: Seq<u8>) -> (
        ReaderModel,
        Result<StreamModel, EncryptedFileError>,
    ) {
        if self.current_block() < counter {
            (self, Err(EncryptedFileError::InvalidBlockCounter))
        } else {
            let st = StreamModel {
                key,
                first: (self.current_block() - counter) as nat,
                next: None,
            };
            (ReaderModel { streams: self.streams.insert(salt_key(salt), st), ..self }, Ok(st))
        }
    }

    /// Places a block with this counter and salt: the reader afterwards, and
    /// the state of the block's sub-stream or why the block is out of place.
    /// A sub-stream that is new is filed under the key that the passphrase
    /// gives for its salt.
    pub open spec fn spec_get_state(self, counter: u32, salt: Seq<u8>) -> (
        ReaderModel,
        Result<StreamModel, EncryptedFileError>,
    ) {
        let (m, found) = self.spec_find_place(counter, salt);
        match found {
            Err(e) => (m, Err(e)),
            Ok(Some(st)) => (m, Ok(st)),
            Ok(None) => m.spec_enter_stream(counter, salt, derived_key(self.passphrase, salt)),
        }
    }

    /// Takes the outcome of opening a block: its plaintext, which is then
    /// buffered, or none, which is a key error.
    pub open spec fn spec_accept_payload(self, opened: Option<Seq<u8>>) -> (
        ReaderModel,
        Result<bool, EncryptedFileError>,
    ) {
        let idle = ReaderModel { buffered: Seq::empty(), ..self };
        if self.position + 512 > u64::MAX {
            (idle, Err(EncryptedFileError::InvalidInput))
        } else {
            match opened {
                None => (idle, Err(EncryptedFileError::KeyError)),
                Some(plain) => (ReaderModel { buffered: plain, ..self }, Ok(true)),
            }
        }
    }

    /// Takes in what the source gave for the next block: nothing at its end,
    /// 544 bytes, or a shorter tail. `Ok(true)` with the block's plaintext
    /// buffered, `Ok(false)` at the end, or the error. A reader so far into
    /// the plaintext that a position cannot hold the end of one more block
    /// takes no more.
    pub open spec fn spec_read_chunk(self, block: Seq<u8>) -> (
        ReaderModel,
        Result<bool, EncryptedFileError>,
    ) {
        let idle = ReaderModel { buffered: Seq::empty(), ..self };
        if self.position + 512 > u64::MAX {
            (idle, Err(EncryptedFileError::InvalidInput))
        } else if block.len() == 0 {
            (idle, Ok(false))
        } else if block.len() != 544 {
            (idle, Err(EncryptedFileError::InvalidChunk))
        } else {
            let counter = from_be32(block.subrange(2, 6)) ^ COUNTER_HINT;
            let salt = block.subrange(6, 16);
            if !(counter >= 16 || block[0] == magic_byte(counter)) {
                (idle, Err(EncryptedFileError::InvalidHeader))
            } else if (block[1] >> 4) & 0x0F != VERSION_0 || block[1] & 0x0F
                != VARIANT_ARGON_CHACHA20_POLY {
                (idle, Err(EncryptedFileError::UnsupportedVariant))
            } else {
                let (m, placed) = idle.spec_get_state(counter, salt);
                match placed {
                    Err(e) => (m, Err(e)),
                    Ok(st) => m.spec_accept_payload(
                        chacha20poly1305_open(
                            st.key,
                            nonce_bytes(salt, counter),
                            block.subrange(16, 528),
                            block.subrange(528, 544),
                        ),
                    ),
                }
            }
        }
    }

    /// How many bytes a read into a buffer of `room` bytes delivers.
    pub open spec fn delivers(self, room: nat) -> nat {
        if room <= self.buffered.len() {
            room
        } else {
            self.buffered.len()
        }
    }

    /// The reader after a read into a buffer of `room` bytes.
    pub open spec fn spec_read(self, room: nat) -> ReaderModel {
        ReaderModel {
            buffered: self.buffered.skip(self.delivers(room) as int),
            position: self.position + self.delivers(room),
            ..self
        }
    }

    /// The plaintext byte that a seek aims at, for a source of `source_len`
    /// bytes. It can be negative or beyond any position.
    pub open spec fn spec_seek_target(self, pos: SeekFrom, source_len: nat) -> int {
        match pos {
            SeekFrom::Start(n) => n as int,
            SeekFrom::Current(n) => self.position + n,
            SeekFrom::End(n) => source_len / 544 * 512 + n,
        }
    }

    /// Where in the source the block that holds plaintext byte `offset`
    /// starts.
    pub open spec fn source_offset(offset: nat) -> nat {
        offset / 512 * 544
    }

    /// Moves the read position to `offset`, given what the source holds at
    /// `source_offset(offset)`.
    pub open spec fn spec_seek(self, offset: nat, block: Seq<u8>) -> (
        ReaderModel,
        Result<u64, EncryptedFileError>,
    ) {
        if ReaderModel::source_offset(offset) > u64::MAX {
            (self, Err(EncryptedFileError::InvalidInput))
        } else {
            let start = ReaderModel {
                last_stream: None,
                position: (offset / 512 * 512) as nat,
                ..self
            };
            let (m, r) = start.spec_read_chunk(block);
            match r {
                Err(e) => (m, Err(e)),
                Ok(false) => (m, Ok(offset as u64)),
                Ok(true) => (
                    ReaderModel {
                        buffered: m.buffered.skip((offset % 512) as int),
                        position: m.position + offset % 512,
                        ..m
                    },
                    Ok(offset as u64),
                ),
            }
        }
    }
}

impl ReaderModel {
    /// A reader that has seen nothing yet.
    pub open spec fn fresh(passphrase: Seq<u8>) -> ReaderModel {
        ReaderModel {
            passphrase,
            streams: Map::empty(),
            last_stream: None,
            buffered: Seq::empty(),
            position: 0,
        }
    }

    /// The reader once all of the current block has been read.
    pub open spec fn spec_drain(self) -> ReaderModel {
        ReaderModel {
            buffered: Seq::empty(),
            position: self.position + self.buffered.len(),
            ..self
        }
    }

    /// What the source hands over for the next block when `source` is what
    /// is left of it.
    pub open spec fn next_block(source: Seq<u8>) -> Seq<u8> {
        if source.len() < 544 {
            source
        } else {
            source.take(544)
        }
    }

    /// Reads block after block until the source ends: all the plaintext,
    /// or the first error. `source` is what is left of the source.
    pub open spec fn spec_read_all(self, source: Seq<u8>) -> Result<Seq<u8>, EncryptedFileError>
        decreases source.len(),
    {
        let (m, r) = self.spec_read_chunk(ReaderModel::next_block(source));
        match r {
            Err(e) => Err(e),
            Ok(more) => if more && source.len() >= 544 {
                match m.spec_drain().spec_read_all(source.skip(544)) {
                    Err(e) => Err(e),
                    Ok(rest) => Ok(m.buffered + rest),
                }
            } else {
                Ok(Seq::empty())
            },
        }
    }

    /// Reads on from the read position until `want` bytes are there or the
    /// source ends: the reader afterwards, and the bytes or the first error.
    /// `source` is what is left of the source.
    pub open spec fn spec_read_some(self, source: Seq<u8>, want: nat) -> (
        ReaderModel,
        Result<Seq<u8>, EncryptedFileError>,
    )
        decreases want, source.len(),
    {
        if want == 0 {
            (self, Ok(Seq::empty()))
        } else if self.buffered.len() > 0 {
            let n = self.delivers(want);
            let (m, r) = self.spec_read(want).spec_read_some(source, (want - n) as nat);
            (
                m,
                match r {
                    Ok(rest) => Ok(self.buffered.take(n as int) + rest),
                    Err(e) => Err(e),
                },
            )
        } else {
            let (m, r) = self.spec_read_chunk(ReaderModel::next_block(source));
            match r {
                Err(e) => (m, Err(e)),
                Ok(more) => if more && source.len() >= 544 {
                    m.spec_read_some(source.skip(544), want)
                } else {
                    (m, Ok(Seq::empty()))
                },
            }
        }
    }

    /// What is left of `source` from byte `from` on; nothing beyond its end.
    pub open spec fn source_from(source: Seq<u8>, from: nat) -> Seq<u8> {
        if from <= source.len() {
            source.skip(from as int)
        } else {
            Seq::empty()
        }
    }

    /// Seeks to plaintext byte `offset` of the whole source `source` and
    /// reads on until `want` bytes are there or the source ends.
    pub open spec fn spec_read_at(self, source: Seq<u8>, offset: nat, want: nat) -> (
        ReaderModel,
        Result<Seq<u8>, EncryptedFileError>,
    ) {
        let rest = ReaderModel::source_from(source, ReaderModel::source_offset(offset));
        let block = ReaderModel::next_block(rest);
        let (m, r) = self.spec_seek(offset, block);
        match r {
            Err(e) => (m, Err(e)),
            Ok(_) => m.spec_read_some(rest.skip(block.len() as int), want),
        }
    }
}

/// Turns the blocks of a ciphertext back into plaintext. It owns no source:
/// whoever drives it hands it the source's bytes block by block.
pub struct EncryptedReader {
    passphrase: Vec<u8>,
    stream_state: BTreeMap<u128, StreamState>,
    last_stream: Option<u128>,
    current_chunk_position: usize,
    current_chunk: [u8; PAYLOAD_SIZE],
    global_position: u64,
}

impl View for EncryptedReader {
    type V = ReaderModel;

    closed spec fn view(&self) -> ReaderModel {
        ReaderModel {
            passphrase: self.passphrase@,
            streams: self.stream_state@.map_values(|s: StreamState| s@),
            last_stream: self.last_stream,
            buffered: self.current_chunk@.subrange(self.current_chunk_position as int, 512),
            position: self.global_position as nat,
        }
    }
}

/// Copies `dst.len()` bytes of `src`, from `start` on, into `dst`.
pub fn copy_range(src: &[u8], start: usize, dst: &mut [u8])
    requires
        start + old(dst)@.len() <= src@.len(),
    ensures
        final(dst)@ == src@.subrange(start as int, start + old(dst)@.len()),
{
    let n = dst.len();
    let total = src.len();
    let mut i: usize = 0;
    while i < n
        invariant
            i <= n,
            n == dst@.len(),
            start + n <= src@.len(),
            total == src@.len(),
            forall|j: int| 0 <= j < i ==> dst@[j] == src@[start + j],
        decreases n - i,
    {
        dst[i] = src[start + i];
        i += 1;
    }
    assert(dst@ =~= src@.subrange(start as int, start + n));
}

impl EncryptedReader {
    #[verifier::type_invariant]
    spec fn inv(self) -> bool {
        &&& self.current_chunk_position <= 512
        &&& self.passphrase@.len() <= 0xFFFF_FFFF
        &&& self.global_position + (512 - self.current_chunk_position) <= u64::MAX
    }

    /// A reader at position 0 that has seen no sub-stream. Nothing is
    /// derived yet. Passphrases of 4 GiB and more are beyond the key
    /// derivation.
    pub fn new(passphrase: &[u8]) -> (r: Self)
        requires
            passphrase@.len() <= 0xFFFF_FFFF,
        ensures
            r@ == ReaderModel::fresh(passphrase@),
    {
        let r = Self {
            passphrase: vstd::slice::slice_to_vec(passphrase),
            stream_state: BTreeMap::new(),
            last_stream: None,
            current_chunk_position: PAYLOAD_SIZE,
            current_chunk: [0u8; PAYLOAD_SIZE],
            global_position: 0,
        };
        assert(r@.streams =~= Map::<u128, StreamModel>::empty());
        assert(r@.buffered =~= Seq::<u8>::empty());
        r
    }

    /// Plaintext bytes before the read position.
    pub fn position(&self) -> (p: u64)
        ensures
            p == self@.position,
    {
        self.global_position
    }

    /// Bytes of the current block that are still to be read. At 0 the next
    /// read needs the next block.
    pub fn available(&self) -> (n: usize)
        ensures
            n == self@.buffered.len(),
    {
        proof {
            use_type_invariant(self);
        }
        PAYLOAD_SIZE - self.current_chunk_position
    }

    /// Files `state` under `k`, in place of what was filed there.
    fn set_stream(&mut self, k: u128, state: StreamState)
        ensures
            final(self)@ == (ReaderModel {
                streams: old(self)@.streams.insert(k, state@),
                ..old(self)@
            }),
            final(self).current_chunk_position == old(self).current_chunk_position,
            final(self).current_chunk == old(self).current_chunk,
            final(self).global_position == old(self).global_position,
    {
        broadcast use vstd::std_specs::btree::group_btree_axioms;
        proof {
            use_type_invariant(&*self);
        }
        let mut streams: BTreeMap<u128, StreamState> = BTreeMap::new();
        core::mem::swap(&mut self.stream_state, &mut streams);
        streams.insert(k, state);
        core::mem::swap(&mut self.stream_state, &mut streams);
        assert(self@.streams =~= old(self)@.streams.insert(k, state@));
    }

    /// Looks for the place of a block with this header. The sub-stream read
    /// last is marked as ended here if the block belongs to another one.
    /// `Ok(Some(..))` is the state of the block's sub-stream, known and with
    /// the block where it belongs; `Ok(None)` says that the sub-stream is
    /// new and may start here.
    pub fn find_place(&mut self, header: &Header) -> (r: Result<
        Option<StreamState>,
        EncryptedFileError,
    >)
        ensures
            final(self)@ == old(self)@.spec_find_place(header.blockcounter, header.salt@).0,
            (match r {
                Ok(Some(st)) => Ok::<Option<StreamModel>, EncryptedFileError>(Some(st@)),
                Ok(None) => Ok::<Option<StreamModel>, EncryptedFileError>(None),
                Err(e) => Err::<Option<StreamModel>, EncryptedFileError>(e),
            }) == old(self)@.spec_find_place(header.blockcounter, header.salt@).1,
    {
        broadcast use vstd::std_specs::btree::group_btree_axioms;
        proof {
            use_type_invariant(&*self);
        }
        let current_block: u64 = self.global_position / 512;
        let k = key_of_salt(&header.salt);
        let ghost spec_streams = self@.retire_last(k);
        match self.last_stream {
            Some(l) => {
                if l != k {
                    let found = match self.stream_state.get(&l) {
                        Some(st) => Some(*st),
                        None => None,
                    };
                    match found {
                        Some(st) => {
                            let retired = StreamState {
                                next_stream_block: Some(current_block),
                                ..st
                            };
                            self.set_stream(l, retired);
                        },
                        None => {},
                    }
                }
            },
            None => {},
        }
        assert(self@.streams =~= spec_streams);
        self.last_stream = Some(k);
        let found = match self.stream_state.get(&k) {
            Some(st) => Some(*st),
            None => None,
        };
        match found {
            Some(state) => {
                match state.next_stream_block {
                    Some(next) => {
                        if next <= current_block {
                            return Err(EncryptedFileError::InvalidBlockCounter);
                        }
                    },
                    None => {},
                }
                if state.first_stream_chunk <= current_block && current_block
                    - state.first_stream_chunk == header.blockcounter as u64 {
                    Ok(Some(state))
                } else {
                    Err(EncryptedFileError::InvalidBlockCounter)
                }
            },
            None => {
                if current_block < header.blockcounter as u64 {
                    Err(EncryptedFileError::InvalidBlockCounter)
                } else {
                    Ok(None)
                }
            },
        }
    }

    /// Files the sub-stream of this header as one whose block with the
    /// header's counter stands at the read position, under `key`.
    pub fn enter_stream(&mut self, header: &Header, key: [u8; 32]) -> (r: Result<
        StreamState,
        EncryptedFileError,
    >)
        ensures
            final(self)@ == old(self)@.spec_enter_stream(header.blockcounter, header.salt@, key@).0,
            (match r {
                Ok(st) => Ok::<StreamModel, EncryptedFileError>(st@),
                Err(e) => Err::<StreamModel, EncryptedFileError>(e),
            }) == old(self)@.spec_enter_stream(header.blockcounter, header.salt@, key@).1,
    {
        let current_block: u64 = self.global_position / 512;
        if current_block < header.blockcounter as u64 {
            return Err(EncryptedFileError::InvalidBlockCounter);
        }
        let state = StreamState {
            key,
            first_stream_chunk: current_block - header.blockcounter as u64,
            next_stream_block: None,
        };
        let k = key_of_salt(&header.salt);
        self.set_stream(k, state);
        Ok(state)
    }

    /// Places a block with this header. For a sub-stream that is new the
    /// key is derived from the passphrase.
    fn get_state(&mut self, header: &Header) -> (r: Result<StreamState, EncryptedFileError>)
        ensures
            final(self)@ == old(self)@.spec_get_state(header.blockcounter, header.salt@).0,
            (match r {
                Ok(st) => Ok::<StreamModel, EncryptedFileError>(st@),
                Err(e) => Err::<StreamModel, EncryptedFileError>(e),
            }) == old(self)@.spec_get_state(header.blockcounter, header.salt@).1,
    {
        proof {
            use_type_invariant(&*self);
        }
        match self.find_place(header)? {
            Some(state) => Ok(state),
            None => {
                proof {
                    use_type_invariant(&*self);
                }
                let key = generate_key(self.passphrase.as_slice(), header);
                self.enter_stream(header, key)
            },
        }
    }

    /// Takes the outcome of opening the block at hand: its plaintext, which
    /// is then ready to be read, or none, which is a key error.
    pub fn accept_payload(&mut self, opened: Option<[u8; PAYLOAD_SIZE]>) -> (r: Result<
        bool,
        EncryptedFileError,
    >)
        ensures
            final(self)@ == old(self)@.spec_accept_payload(
                match opened {
                    Some(plain) => Some(plain@),
                    None => None,
                },
            ).0,
            r == old(self)@.spec_accept_payload(
                match opened {
                    Some(plain) => Some(plain@),
                    None => None,
                },
            ).1,
            r == Ok::<bool, EncryptedFileError>(true) ==> final(self)@.buffered.len() == 512,
    {
        proof {
            use_type_invariant(&*self);
        }
        self.current_chunk_position = PAYLOAD_SIZE;
        assert(self@.buffered =~= Seq::<u8>::empty());
        if self.global_position > u64::MAX - 512 {
            return Err(EncryptedFileError::InvalidInput);
        }
        match opened {
            Some(plain) => {
                self.current_chunk = plain;
                self.current_chunk_position = 0;
                assert(self@.buffered =~= plain@);
                Ok(true)
            },
            None => Err(EncryptedFileError::KeyError),
        }
    }

    /// Takes in what the source gave for the next block: no bytes at its
    /// end, 544 bytes, or a shorter tail, which is an error. What was left of
    /// the block before is dropped. On `Ok(true)` the block's plaintext is
    /// ready to be read; `Ok(false)` says that the source has ended. Beyond
    /// the last block whose end a position can hold, the call is refused.
    pub fn read_chunk(&mut self, block: &[u8]) -> (r: Result<bool, EncryptedFileError>)
        ensures
            final(self)@ == old(self)@.spec_read_chunk(block@).0,
            r == old(self)@.spec_read_chunk(block@).1,
            r == Ok::<bool, EncryptedFileError>(true) ==> final(self)@.buffered.len() == 512,
    {
        proof {
            use_type_invariant(&*self);
        }
        self.current_chunk_position = PAYLOAD_SIZE;
        assert(self@.buffered =~= Seq::<u8>::empty());
        if self.global_position > u64::MAX - 512 {
            return Err(EncryptedFileError::InvalidInput);
        }
        if block.len() == 0 {
            return Ok(false);
        }
        if block.len() != 544 {
            return Err(EncryptedFileError::InvalidChunk);
        }
        let mut head: [u8; 16] = [0u8; 16];
        copy_range(block, 0, &mut head);
        let header = Header::from_bytes(&head);
        proof {
            assert(head@.subrange(2, 6) =~= block@.subrange(2, 6));
            assert(head@.subrange(6, 16) =~= block@.subrange(6, 16));
        }
        if !header.magic_ok() {
            return Err(EncryptedFileError::InvalidHeader);
        }
        if header.version != VERSION_0 || header.variant != VARIANT_ARGON_CHACHA20_POLY {
            return Err(EncryptedFileError::UnsupportedVariant);
        }
        let state = self.get_state(&header)?;
        let nonce = payload_nonce(&header);
        let mut payload: [u8; PAYLOAD_SIZE] = [0u8; PAYLOAD_SIZE];
        copy_range(block, 16, &mut payload);
        let mut tag: [u8; 16] = [0u8; 16];
        copy_range(block, 528, &mut tag);
        match open_in_place(&state.key, &nonce, &mut payload, &tag) {
            Ok(()) => self.accept_payload(Some(payload)),
            Err(_) => self.accept_payload(None),
        }
    }

    /// Moves bytes of the current block into the front of `buf`: as many as
    /// are left of the block and fit. Returns how many; 0 means that the
    /// buffer is empty or that the next block is needed.
    pub fn read(&mut self, buf: &mut [u8]) -> (n: usize)
        ensures
            n == old(self)@.delivers(old(buf)@.len()),
            final(self)@ == old(self)@.spec_read(old(buf)@.len()),
            final(buf)@ == old(self)@.buffered.take(n as int) + old(buf)@.skip(n as int),
    {
        proof {
            use_type_invariant(&*self);
        }
        let left = PAYLOAD_SIZE - self.current_chunk_position;
        let to_read = if buf.len() < left {
            buf.len()
        } else {
            left
        };
        let start = self.current_chunk_position;
        let mut i: usize = 0;
        while i < to_read
            invariant
                i <= to_read,
                start + to_read <= 512,
                to_read <= buf@.len(),
                buf@.len() == old(buf)@.len(),
                forall|j: int| 0 <= j < i ==> buf@[j] == self.current_chunk@[start + j],
                forall|j: int| i <= j < buf@.len() ==> buf@[j] == old(buf)@[j],
            decreases to_read - i,
        {
            buf[i] = self.current_chunk[start + i];
            i += 1;
        }
        self.current_chunk_position = start + to_read;
        self.global_position = self.global_position + to_read as u64;
        proof {
            assert(self@.buffered =~= old(self)@.buffered.skip(to_read as int));
            assert(buf@ =~= old(self)@.buffered.take(to_read as int) + old(buf)@.skip(
                to_read as int,
            ));
        }
        to_read
    }

    /// The plaintext byte to seek to, given where the seek is measured from
    /// and how long the source is. A target before the start is refused, and
    /// so is one beyond what a position can hold.
    pub fn seek_target(&self, pos: SeekFrom, source_len: u64) -> (r: Result<
        u64,
        EncryptedFileError,
    >)
        ensures
            r == (if 0 <= self@.spec_seek_target(pos, source_len as nat) <= u64::MAX {
                Ok::<u64, EncryptedFileError>(
                    self@.spec_seek_target(pos, source_len as nat) as u64,
                )
            } else {
                Err::<u64, EncryptedFileError>(EncryptedFileError::InvalidInput)
            }),
    {
        let target: i128 = match pos {
            SeekFrom::Start(n) => n as i128,
            SeekFrom::Current(n) => self.global_position as i128 + n as i128,
            SeekFrom::End(n) => (source_len / 544) as i128 * 512 + n as i128,
        };
        if 0 <= target && target <= u64::MAX as i128 {
            Ok(target as u64)
        } else {
            Err(EncryptedFileError::InvalidInput)
        }
    }

    /// Where the source must be read for a seek to plaintext byte `offset`:
    /// the start of the block that holds it, or `None` where a source
    /// position cannot hold that number.
    pub fn source_offset(offset: u64) -> (r: Option<u64>)
        ensures
            r == (if ReaderModel::source_offset(offset as nat) <= u64::MAX {
                Some(ReaderModel::source_offset(offset as nat) as u64)
            } else {
                None::<u64>
            }),
    {
        let block = offset / 512;
        if block <= u64::MAX / 544 {
            Some(block * 544)
        } else {
            None
        }
    }

    /// Moves the read position to plaintext byte `offset`. `block` is what
    /// the source holds at `source_offset(offset)`: 544 bytes, or none past
    /// its end. The sub-streams seen so far stay known; which one was read
    /// last is forgotten. Past the end the position is the start of the
    /// block and there is nothing to read.
    pub fn seek(&mut self, offset: u64, block: &[u8]) -> (r: Result<u64, EncryptedFileError>)
        ensures
            final(self)@ == old(self)@.spec_seek(offset as nat, block@).0,
            r == old(self)@.spec_seek(offset as nat, block@).1,
    {
        proof {
            use_type_invariant(&*self);
        }
        let index = offset / 512;
        let intra = offset % 512;
        if index > u64::MAX / 544 {
            return Err(EncryptedFileError::InvalidInput);
        }
        self.last_stream = None;
        self.current_chunk_position = PAYLOAD_SIZE;
        self.global_position = index * 512;
        if self.read_chunk(block)? {
            proof {
                use_type_invariant(&*self);
            }
            let ghost whole = self@.buffered;
            assert(whole =~= self.current_chunk@);
            self.current_chunk_position = intra as usize;
            self.global_position = self.global_position + intra;
            assert(self@.buffered =~= whole.skip(intra as int));
        }
        Ok(offset)
    }
}

} // verus!
