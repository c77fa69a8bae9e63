use vstd::prelude::*;
use crate::cipher::chacha20poly1305_open;
use crate::cipher::chacha20poly1305_seal;
use crate::cipher::derived_key;
use crate::error::EncryptedFileError;
use crate::format::header_bytes;
use crate::format::lemma_header_bytes_parse;
use crate::format::nonce_bytes;
use crate::format::VARIANT_ARGON_CHACHA20_POLY;
use crate::format::VERSION_0;
use crate::reader::lemma_salt_key_injective;
use crate::reader::salt_key;
use crate::reader::ReaderModel;
use crate::reader::StreamModel;
use crate::stream::is_encryption;
use crate::stream::lemma_padded;
use crate::stream::lemma_stream_append;
use crate::stream::lemma_stream_len;
use crate::stream::stream_bytes;
use crate::stream::stream_seals;
use crate::writer::block_bytes;
use crate::writer::padded;
use crate::writer::seals;

verus! {

/// The parts of a block: sixteen bytes of header, the ciphertext, the tag.
pub proof fn lemma_block_layout(key: Seq<u8>, salt: Seq<u8>, counter: u32, payload: Seq<u8>)
    requires
        salt.len() == 10,
        seals(key, salt, counter, payload),
    ensures
        block_bytes(key, salt, counter, payload).len() == 544,
        block_bytes(key, salt, counter, payload).subrange(0, 16) == header_bytes(
            VERSION_0,
            VARIANT_ARGON_CHACHA20_POLY,
            counter,
            salt,
        ),
        block_bytes(key, salt, counter, payload).subrange(16, 528) == chacha20poly1305_seal(
            key,
            nonce_bytes(salt, counter),
            payload,
        ).0,
        block_bytes(key, salt, counter, payload).subrange(528, 544) == chacha20poly1305_seal(
            key,
            nonce_bytes(salt, counter),
            payload,
        ).1,
{
    let block = block_bytes(key, salt, counter, payload);
    let head = header_bytes(VERSION_0, VARIANT_ARGON_CHACHA20_POLY, counter, salt);
    let sealed = chacha20poly1305_seal(key, nonce_bytes(salt, counter), payload);
    lemma_header_bytes_parse(VERSION_0, VARIANT_ARGON_CHACHA20_POLY, counter, salt);
    assert(block.subrange(0, 16) =~= head);
    assert(block.subrange(16, 528) =~= sealed.0);
    assert(block.subrange(528, 544) =~= sealed.1);
}

/// The reader is at a block boundary where block `counter` of the
/// sub-stream with this salt belongs: the sub-stream is new to it, or known
/// with block 0 at the fitting place and not ended.
pub open spec fn expects(m: ReaderModel, key: Seq<u8>, salt: Seq<u8>, counter: nat) -> bool {
    let k = salt_key(salt);
    &&& m.position % 512 == 0
    &&& m.position / 512 >= counter
    &&& key == derived_key(m.passphrase, salt)
    &&& m.streams.contains_key(k) ==> m.streams[k] == (StreamModel {
        key,
        first: (m.position / 512 - counter) as nat,
        next: None,
    })
}

/// The reader after it has read `blocks` blocks of the sub-stream, the first
/// of them with block counter `counter`.
pub open spec fn after_stream(
    m: ReaderModel,
    key: Seq<u8>,
    salt: Seq<u8>,
    counter: nat,
    blocks: nat,
) -> ReaderModel {
    if blocks == 0 {
        m
    } else {
        ReaderModel {
            streams: m.retire_last(salt_key(salt)).insert(
                salt_key(salt),
                StreamModel { key, first: (m.position / 512 - counter) as nat, next: None },
            ),
            last_stream: Some(salt_key(salt)),
            buffered: Seq::empty(),
            position: m.position + 512 * blocks,
            ..m
        }
    }
}

/// A block that stands where the reader expects it is taken in: its payload
/// is buffered and its sub-stream is the current one.
pub proof fn lemma_read_block(
    m: ReaderModel,
    key: Seq<u8>,
    salt: Seq<u8>,
    counter: u32,
    payload: Seq<u8>,
)
    requires
        salt.len() == 10,
        payload.len() == 512,
        seals(key, salt, counter, payload),
        expects(m, key, salt, counter as nat),
        m.position + 512 <= u64::MAX,
    ensures
        m.spec_read_chunk(block_bytes(key, salt, counter, payload)).1 == Ok::<
            bool,
            EncryptedFileError,
        >(true),
        m.spec_read_chunk(block_bytes(key, salt, counter, payload)).0 == (ReaderModel {
            buffered: payload,
            position: m.position,
            ..after_stream(m, key, salt, counter as nat, 1)
        }),
{
    let block = block_bytes(key, salt, counter, payload);
    let k = salt_key(salt);
    lemma_block_layout(key, salt, counter, payload);
    lemma_header_bytes_parse(VERSION_0, VARIANT_ARGON_CHACHA20_POLY, counter, salt);
    let head = header_bytes(VERSION_0, VARIANT_ARGON_CHACHA20_POLY, counter, salt);
    assert(block.subrange(2, 6) =~= head.subrange(2, 6));
    assert(block.subrange(6, 16) =~= head.subrange(6, 16));
    assert(block[0] == head[0]);
    assert(block[1] == head[1]);
    let idle = ReaderModel { buffered: Seq::empty(), ..m };
    let streams = idle.retire_last(k);
    let entry = StreamModel { key, first: (m.position / 512 - counter) as nat, next: None };
    if streams.contains_key(k) {
        assert(streams[k] == entry);
        assert(streams.insert(k, entry) =~= streams);
    }
    assert(idle.retire_last(k) == m.retire_last(k));
}

/// Reading a source that starts with a sub-stream the reader expects gives
/// the sub-stream's plaintext and then goes on with the rest of the source.
pub proof fn lemma_reads_stream(
    m: ReaderModel,
    key: Seq<u8>,
    salt: Seq<u8>,
    start: nat,
    plain: Seq<u8>,
    tail: Seq<u8>,
)
    requires
        salt.len() == 10,
        plain.len() % 512 == 0,
        start + plain.len() / 512 <= 0x1_0000_0000,
        stream_seals(key, salt, start, plain),
        expects(m, key, salt, start),
        m.position + plain.len() <= u64::MAX,
    ensures
        m.spec_read_all(stream_bytes(key, salt, start, plain) + tail) == (match after_stream(
            m,
            key,
            salt,
            start,
            plain.len() / 512,
        ).spec_read_all(tail) {
            Ok(rest) => Ok::<Seq<u8>, EncryptedFileError>(plain + rest),
            Err(e) => Err::<Seq<u8>, EncryptedFileError>(e),
        }),
    decreases plain.len(),
{
    let source = stream_bytes(key, salt, start, plain) + tail;
    if plain.len() == 0 {
        assert(source =~= tail);
        match m.spec_read_all(tail) {
            Ok(rest) => {
                assert(plain + rest =~= rest);
            },
            Err(e) => {},
        }
    } else {
        let payload = plain.take(512);
        let later = plain.skip(512);
        let block = block_bytes(key, salt, start as u32, payload);
        lemma_block_layout(key, salt, start as u32, payload);
        lemma_read_block(m, key, salt, start as u32, payload);
        assert(ReaderModel::next_block(source) =~= block);
        assert(source.skip(544) =~= stream_bytes(key, salt, start + 1, later) + tail);
        let loaded = m.spec_read_chunk(block).0;
        let drained = loaded.spec_drain();
        assert(expects(drained, key, salt, start + 1));
        lemma_reads_stream(drained, key, salt, start + 1, later, tail);
        let blocks = plain.len() / 512;
        let k = salt_key(salt);
        assert(after_stream(drained, key, salt, start + 1, (blocks - 1) as nat) == after_stream(
            m,
            key,
            salt,
            start,
            blocks,
        )) by {
            let entry = StreamModel { key, first: (m.position / 512 - start) as nat, next: None };
            if blocks > 1 {
                assert(drained.retire_last(k) == drained.streams);
                assert(drained.streams.insert(k, entry) =~= m.retire_last(k).insert(k, entry));
            }
        }
        match after_stream(m, key, salt, start, blocks).spec_read_all(tail) {
            Ok(rest) => {
                assert(payload + (later + rest) =~= plain + rest);
            },
            Err(e) => {},
        }
    }
}

/// Round trip: decrypting what a writer gave for `data`, under the same
/// passphrase, gives `data` again, followed by the zeros that filled up its
/// last block.
pub proof fn lemma_round_trip(
    cipher: Seq<u8>,
    passphrase: Seq<u8>,
    salt: Seq<u8>,
    data: Seq<u8>,
)
    requires
        is_encryption(cipher, passphrase, salt, data),
    ensures
        ReaderModel::fresh(passphrase).spec_read_all(cipher) == Ok::<
            Seq<u8>,
            EncryptedFileError,
        >(padded(data)),
        padded(data).take(data.len() as int) == data,
{
    let m = ReaderModel::fresh(passphrase);
    let key = derived_key(passphrase, salt);
    let plain = padded(data);
    lemma_padded(data);
    lemma_reads_stream(m, key, salt, 0, plain, Seq::empty());
    assert(cipher + Seq::<u8>::empty() =~= cipher);
    assert(plain + Seq::<u8>::empty() =~= plain);
}

/// Wrong passphrase: where the cipher refuses the first block under the key
/// that another passphrase gives, decrypting with that passphrase fails at
/// the first block with `KeyError`. That the cipher does refuse is what it
/// is trusted for and is not proved here. A ciphertext without blocks
/// decrypts to nothing under any passphrase.
pub proof fn lemma_wrong_passphrase(
    cipher: Seq<u8>,
    passphrase: Seq<u8>,
    salt: Seq<u8>,
    data: Seq<u8>,
    other: Seq<u8>,
)
    requires
        is_encryption(cipher, passphrase, salt, data),
        data.len() > 0,
        chacha20poly1305_open(
            derived_key(other, salt),
            nonce_bytes(salt, 0),
            cipher.subrange(16, 528),
            cipher.subrange(528, 544),
        ) is None,
    ensures
        ReaderModel::fresh(other).spec_read_all(cipher) == Err::<Seq<u8>, EncryptedFileError>(
            EncryptedFileError::KeyError,
        ),
{
    let key = derived_key(passphrase, salt);
    let plain = padded(data);
    lemma_padded(data);
    let payload = plain.take(512);
    let block = block_bytes(key, salt, 0, payload);
    lemma_block_layout(key, salt, 0, payload);
    lemma_header_bytes_parse(VERSION_0, VARIANT_ARGON_CHACHA20_POLY, 0, salt);
    let head = header_bytes(VERSION_0, VARIANT_ARGON_CHACHA20_POLY, 0, salt);
    assert(ReaderModel::next_block(cipher) =~= block);
    assert(block.subrange(2, 6) =~= head.subrange(2, 6));
    assert(block.subrange(6, 16) =~= head.subrange(6, 16));
    assert(block[0] == head[0]);
    assert(block[1] == head[1]);
    assert(cipher.subrange(16, 528) =~= block.subrange(16, 528));
    assert(cipher.subrange(528, 544) =~= block.subrange(528, 544));
}

/// Concatenation: three ciphertexts, written one after another under one
/// passphrase for three runs of whole payloads, decrypt as one to the three
/// runs in a row. The three sub-streams must differ in their salts; a writer
/// picks each salt at random.
pub proof fn lemma_concatenation(
    passphrase: Seq<u8>,
    salt1: Seq<u8>,
    salt2: Seq<u8>,
    salt3: Seq<u8>,
    data1: Seq<u8>,
    data2: Seq<u8>,
    data3: Seq<u8>,
    cipher1: Seq<u8>,
    cipher2: Seq<u8>,
    cipher3: Seq<u8>,
)
    requires
        is_encryption(cipher1, passphrase, salt1, data1),
        is_encryption(cipher2, passphrase, salt2, data2),
        is_encryption(cipher3, passphrase, salt3, data3),
        data1.len() % 512 == 0,
        data2.len() % 512 == 0,
        data3.len() % 512 == 0,
        salt1 != salt2,
        salt1 != salt3,
        salt2 != salt3,
    ensures
        ReaderModel::fresh(passphrase).spec_read_all(cipher1 + cipher2 + cipher3) == Ok::<
            Seq<u8>,
            EncryptedFileError,
        >(data1 + data2 + data3),
{
    let m0 = ReaderModel::fresh(passphrase);
    let key1 = derived_key(passphrase, salt1);
    let key2 = derived_key(passphrase, salt2);
    let key3 = derived_key(passphrase, salt3);
    lemma_padded(data1);
    lemma_padded(data2);
    lemma_padded(data3);
    if salt_key(salt1) == salt_key(salt2) {
        lemma_salt_key_injective(salt1, salt2);
    }
    if salt_key(salt1) == salt_key(salt3) {
        lemma_salt_key_injective(salt1, salt3);
    }
    if salt_key(salt2) == salt_key(salt3) {
        lemma_salt_key_injective(salt2, salt3);
    }
    let m1 = after_stream(m0, key1, salt1, 0, data1.len() / 512);
    let m2 = after_stream(m1, key2, salt2, 0, data2.len() / 512);
    let m3 = after_stream(m2, key3, salt3, 0, data3.len() / 512);
    lemma_reads_stream(m0, key1, salt1, 0, data1, cipher2 + cipher3);
    lemma_reads_stream(m1, key2, salt2, 0, data2, cipher3);
    lemma_reads_stream(m2, key3, salt3, 0, data3, Seq::empty());
    assert(cipher1 + (cipher2 + cipher3) =~= cipher1 + cipher2 + cipher3);
    assert(cipher3 + Seq::<u8>::empty() =~= cipher3);
    assert(data1 + (data2 + (data3 + Seq::<u8>::empty())) =~= data1 + data2 + data3);
}

/// A sub-stream cut after `blocks` blocks: the blocks before the cut carry
/// the plaintext before it, the blocks after it the rest.
pub proof fn lemma_stream_split(
    key: Seq<u8>,
    salt: Seq<u8>,
    start: nat,
    plain: Seq<u8>,
    blocks: int,
)
    requires
        salt.len() == 10,
        plain.len() % 512 == 0,
        0 <= blocks <= plain.len() / 512,
        stream_seals(key, salt, start, plain),
    ensures
        stream_bytes(key, salt, start, plain).len() == plain.len() / 512 * 544,
        stream_bytes(key, salt, start, plain).take(544 * blocks) == stream_bytes(
            key,
            salt,
            start,
            plain.take(512 * blocks),
        ),
        stream_bytes(key, salt, start, plain).skip(544 * blocks) == stream_bytes(
            key,
            salt,
            (start + blocks) as nat,
            plain.skip(512 * blocks),
        ),
        stream_seals(key, salt, start, plain.take(512 * blocks)),
        stream_seals(key, salt, (start + blocks) as nat, plain.skip(512 * blocks)),
{
    let first = plain.take(512 * blocks);
    let second = plain.skip(512 * blocks);
    assert(first + second =~= plain);
    lemma_stream_append(key, salt, start, first, second);
    assert(first.len() / 512 == blocks);
    lemma_stream_len(key, salt, start, plain);
    lemma_stream_len(key, salt, start, first);
    let whole = stream_bytes(key, salt, start, plain);
    let head = stream_bytes(key, salt, start, first);
    let rest = stream_bytes(key, salt, (start + blocks) as nat, second);
    assert(whole.take(544 * blocks) =~= head);
    assert(whole.skip(544 * blocks) =~= rest);
}

/// The reader is where block `counter` of the sub-stream with this salt
/// does not belong: the sub-stream is known and has ended, or has its block
/// 0 elsewhere, or is new and would have started before the source did.
pub open spec fn out_of_place(m: ReaderModel, salt: Seq<u8>, counter: nat) -> bool {
    let k = salt_key(salt);
    let current = m.position / 512;
    if m.streams.contains_key(k) {
        (m.streams[k].next is Some && m.streams[k].next->Some_0 <= current) || current
            != m.streams[k].first + counter
    } else {
        current < counter
    }
}

/// A block that stands where it does not belong ends the reading with an
/// error: with `InvalidBlockCounter`, unless the reader is further into the
/// plaintext than a position can hold.
pub proof fn lemma_block_out_of_place(
    m: ReaderModel,
    key: Seq<u8>,
    salt: Seq<u8>,
    counter: u32,
    payload: Seq<u8>,
    tail: Seq<u8>,
)
    requires
        salt.len() == 10,
        seals(key, salt, counter, payload),
        out_of_place(m, salt, counter as nat),
    ensures
        m.spec_read_all(block_bytes(key, salt, counter, payload) + tail) is Err,
        m.position + 512 <= u64::MAX ==> m.spec_read_all(
            block_bytes(key, salt, counter, payload) + tail,
        ) == Err::<Seq<u8>, EncryptedFileError>(EncryptedFileError::InvalidBlockCounter),
{
    let block = block_bytes(key, salt, counter, payload);
    let source = block + tail;
    let k = salt_key(salt);
    lemma_block_layout(key, salt, counter, payload);
    lemma_header_bytes_parse(VERSION_0, VARIANT_ARGON_CHACHA20_POLY, counter, salt);
    let head = header_bytes(VERSION_0, VARIANT_ARGON_CHACHA20_POLY, counter, salt);
    assert(block.subrange(2, 6) =~= head.subrange(2, 6));
    assert(block.subrange(6, 16) =~= head.subrange(6, 16));
    assert(block[0] == head[0]);
    assert(block[1] == head[1]);
    assert(ReaderModel::next_block(source) =~= block);
    let idle = ReaderModel { buffered: Seq::empty(), ..m };
    let streams = idle.retire_last(k);
    assert(streams.contains_key(k) == m.streams.contains_key(k));
    if m.streams.contains_key(k) {
        assert(streams[k] == m.streams[k]);
    }
}

/// `cipher` with its blocks number `i` and number `j` exchanged.
pub open spec fn swap_blocks(cipher: Seq<u8>, i: int, j: int) -> Seq<u8> {
    cipher.take(544 * i) + cipher.subrange(544 * j, 544 * j + 544) + cipher.subrange(
        544 * i + 544,
        544 * j,
    ) + cipher.subrange(544 * i, 544 * i + 544) + cipher.skip(544 * j + 544)
}

/// Reorder rejection: when two blocks of a writer's ciphertext change
/// places, decrypting stops at the first of the two places with
/// `InvalidBlockCounter`.
pub proof fn lemma_reorder_rejected(
    cipher: Seq<u8>,
    passphrase: Seq<u8>,
    salt: Seq<u8>,
    data: Seq<u8>,
    i: int,
    j: int,
)
    requires
        is_encryption(cipher, passphrase, salt, data),
        0 <= i < j < padded(data).len() / 512,
    ensures
        ReaderModel::fresh(passphrase).spec_read_all(swap_blocks(cipher, i, j)) == Err::<
            Seq<u8>,
            EncryptedFileError,
        >(EncryptedFileError::InvalidBlockCounter),
{
    let m0 = ReaderModel::fresh(passphrase);
    let key = derived_key(passphrase, salt);
    let plain = padded(data);
    lemma_padded(data);
    lemma_stream_split(key, salt, 0, plain, i);
    lemma_stream_split(key, salt, 0, plain, j);
    let before = plain.take(512 * i);
    let from_j = plain.skip(512 * j);
    let moved = from_j.take(512);
    lemma_stream_split(key, salt, j as nat, from_j, 1);
    crate::stream::lemma_stream_single(key, salt, j as nat, moved);
    let block = block_bytes(key, salt, j as u32, moved);
    assert(cipher.subrange(544 * j, 544 * j + 544) =~= cipher.skip(544 * j).take(544));
    let tail = cipher.subrange(544 * i + 544, 544 * j) + cipher.subrange(544 * i, 544 * i + 544)
        + cipher.skip(544 * j + 544);
    assert(swap_blocks(cipher, i, j) =~= stream_bytes(key, salt, 0, before) + (block + tail));
    lemma_reads_stream(m0, key, salt, 0, before, block + tail);
    let m = after_stream(m0, key, salt, 0, i as nat);
    assert(out_of_place(m, salt, j as nat));
    lemma_block_out_of_place(m, key, salt, j as u32, moved, tail);
}

/// `cipher` with its block number `k` replaced by `block`.
pub open spec fn splice_block(cipher: Seq<u8>, k: int, block: Seq<u8>) -> Seq<u8> {
    cipher.take(544 * k) + block + cipher.skip(544 * k + 544)
}

/// Splice rejection: when a block of a writer's ciphertext, neither its
/// first nor its last, is replaced by the first block of any sub-stream,
/// decrypting fails. The first block could be replaced by the start of
/// another sub-stream without a trace, and so could the last: the result
/// would be a concatenation.
pub proof fn lemma_splice_rejected(
    cipher: Seq<u8>,
    passphrase: Seq<u8>,
    salt: Seq<u8>,
    data: Seq<u8>,
    k: int,
    other_key: Seq<u8>,
    other_salt: Seq<u8>,
    other_payload: Seq<u8>,
)
    requires
        is_encryption(cipher, passphrase, salt, data),
        0 < k,
        k + 1 < padded(data).len() / 512,
        other_salt.len() == 10,
        seals(other_key, other_salt, 0, other_payload),
    ensures
        ReaderModel::fresh(passphrase).spec_read_all(
            splice_block(cipher, k, block_bytes(other_key, other_salt, 0, other_payload)),
        ) is Err,
{
    let m0 = ReaderModel::fresh(passphrase);
    let key = derived_key(passphrase, salt);
    let plain = padded(data);
    lemma_padded(data);
    lemma_stream_split(key, salt, 0, plain, k);
    lemma_stream_split(key, salt, 0, plain, k + 1);
    let before = plain.take(512 * k);
    let later = plain.skip(512 * (k + 1));
    let next_payload = later.take(512);
    let after = stream_bytes(key, salt, (k + 1) as nat, later);
    let next_block = block_bytes(key, salt, (k + 1) as u32, next_payload);
    let rest = stream_bytes(key, salt, (k + 2) as nat, later.skip(512));
    assert(after == next_block + rest);
    let foreign = block_bytes(other_key, other_salt, 0, other_payload);
    assert(splice_block(cipher, k, foreign) =~= stream_bytes(key, salt, 0, before) + (foreign
        + after));
    lemma_reads_stream(m0, key, salt, 0, before, foreign + after);
    let m = after_stream(m0, key, salt, 0, k as nat);
    let ks = salt_key(salt);
    let kf = salt_key(other_salt);
    if kf == ks {
        assert(out_of_place(m, other_salt, 0));
        lemma_block_out_of_place(m, other_key, other_salt, 0, other_payload, after);
    } else {
        let source = foreign + after;
        lemma_block_layout(other_key, other_salt, 0, other_payload);
        lemma_header_bytes_parse(VERSION_0, VARIANT_ARGON_CHACHA20_POLY, 0, other_salt);
        let head = header_bytes(VERSION_0, VARIANT_ARGON_CHACHA20_POLY, 0, other_salt);
        assert(foreign.subrange(2, 6) =~= head.subrange(2, 6));
        assert(foreign.subrange(6, 16) =~= head.subrange(6, 16));
        assert(foreign[0] == head[0]);
        assert(foreign[1] == head[1]);
        assert(ReaderModel::next_block(source) =~= foreign);
        assert(source.skip(544) =~= after);
        let (loaded, taken) = m.spec_read_chunk(foreign);
        if taken == Ok::<bool, EncryptedFileError>(true) {
            let drained = loaded.spec_drain();
            assert(loaded.streams.contains_key(ks));
            assert(loaded.streams[ks].next == Some(k as nat));
            assert(out_of_place(drained, salt, (k + 1) as nat));
            lemma_block_out_of_place(drained, key, salt, (k + 1) as u32, next_payload, rest);
        }
    }
}

/// The reader knows the sub-stream with this salt as one that starts at the
/// start of the source and has not ended, or does not know it yet.
pub open spec fn at_home(m: ReaderModel, salt: Seq<u8>) -> bool {
    m.streams.contains_key(salt_key(salt)) ==> m.streams[salt_key(salt)] == (StreamModel {
        key: derived_key(m.passphrase, salt),
        first: 0,
        next: None,
    })
}

/// Reading on within a sub-stream that starts at the start of the source:
/// what is buffered comes first, then the payloads of the blocks that
/// follow.
pub proof fn lemma_read_run(
    m: ReaderModel,
    salt: Seq<u8>,
    counter: nat,
    future: Seq<u8>,
    want: nat,
)
    requires
        salt.len() == 10,
        future.len() % 512 == 0,
        counter + future.len() / 512 <= 0x1_0000_0000,
        stream_seals(derived_key(m.passphrase, salt), salt, counter, future),
        m.position + m.buffered.len() == 512 * counter,
        at_home(m, salt),
        want <= m.buffered.len() + future.len(),
    ensures
        m.spec_read_some(
            stream_bytes(derived_key(m.passphrase, salt), salt, counter, future),
            want,
        ).1 == Ok::<Seq<u8>, EncryptedFileError>((m.buffered + future).take(want as int)),
        at_home(
            m.spec_read_some(
                stream_bytes(derived_key(m.passphrase, salt), salt, counter, future),
                want,
            ).0,
            salt,
        ),
        m.spec_read_some(
            stream_bytes(derived_key(m.passphrase, salt), salt, counter, future),
            want,
        ).0.passphrase == m.passphrase,
    decreases want, future.len(),
{
    let key = derived_key(m.passphrase, salt);
    let source = stream_bytes(key, salt, counter, future);
    if want == 0 {
        assert((m.buffered + future).take(0) =~= Seq::<u8>::empty());
    } else if m.buffered.len() > 0 {
        let n = m.delivers(want);
        let read = m.spec_read(want);
        lemma_read_run(read, salt, counter, future, (want - n) as nat);
        assert(m.buffered.take(n as int) + (read.buffered + future).take(want - n) =~= (m.buffered
            + future).take(want as int));
    } else {
        let payload = future.take(512);
        let later = future.skip(512);
        let block = block_bytes(key, salt, counter as u32, payload);
        lemma_block_layout(key, salt, counter as u32, payload);
        lemma_read_block(m, key, salt, counter as u32, payload);
        assert(ReaderModel::next_block(source) =~= block);
        assert(source.skip(544) =~= stream_bytes(key, salt, counter + 1, later));
        let loaded = m.spec_read_chunk(block).0;
        lemma_read_run(loaded, salt, counter + 1, later, want);
        assert((payload + later).take(want as int) =~= (m.buffered + future).take(want as int));
    }
}

/// A seek to a byte of the plaintext takes in the block that holds the byte
/// and leaves the rest of that block's payload, from the byte on, buffered.
pub proof fn lemma_seek_lands(
    m: ReaderModel,
    cipher: Seq<u8>,
    salt: Seq<u8>,
    data: Seq<u8>,
    offset: nat,
)
    requires
        is_encryption(cipher, m.passphrase, salt, data),
        at_home(m, salt),
        offset < padded(data).len(),
    ensures
        ({
            let block = ReaderModel::next_block(
                ReaderModel::source_from(cipher, ReaderModel::source_offset(offset)),
            );
            let found = m.spec_seek(offset, block);
            &&& block.len() == 544
            &&& found.1 == Ok::<u64, EncryptedFileError>(offset as u64)
            &&& found.0.buffered == padded(data).subrange(
                offset as int,
                (512 * (offset / 512) + 512) as int,
            )
            &&& found.0.position == offset
            &&& found.0.passphrase == m.passphrase
            &&& at_home(found.0, salt)
        }),
{
    let key = derived_key(m.passphrase, salt);
    let plain = padded(data);
    lemma_padded(data);
    let index = (offset / 512) as int;
    let intra = (offset % 512) as int;
    assert(offset == 512 * index + intra);
    assert(index < plain.len() / 512);
    assert(ReaderModel::source_offset(offset) == 544 * index);
    lemma_stream_split(key, salt, 0, plain, index);
    let rest = ReaderModel::source_from(cipher, ReaderModel::source_offset(offset));
    let from_here = plain.skip(512 * index);
    assert(cipher.len() == plain.len() / 512 * 544);
    assert(rest == stream_bytes(key, salt, index as nat, from_here));
    let payload = from_here.take(512);
    lemma_stream_split(key, salt, index as nat, from_here, 1);
    crate::stream::lemma_stream_single(key, salt, index as nat, payload);
    lemma_block_layout(key, salt, index as u32, payload);
    let block = ReaderModel::next_block(rest);
    lemma_stream_len(key, salt, index as nat, from_here);
    assert(rest.len() >= 544);
    assert(block =~= block_bytes(key, salt, index as u32, payload));
    let start = ReaderModel { last_stream: None, position: (512 * index) as nat, ..m };
    assert(start.position / 512 == index);
    assert(expects(start, key, salt, index as nat));
    lemma_read_block(start, key, salt, index as u32, payload);
    assert(payload.skip(intra) =~= plain.subrange(offset as int, 512 * index + 512));
}

/// Seek correctness: after a seek to any byte of the plaintext, reading
/// gives the plaintext from that byte on, as far as it is asked for and
/// there. This holds for a new reader and for one that has read in the same
/// ciphertext before, so for any number of seeks in a row.
pub proof fn lemma_seek_reads(
    m: ReaderModel,
    cipher: Seq<u8>,
    salt: Seq<u8>,
    data: Seq<u8>,
    offset: nat,
    want: nat,
)
    requires
        is_encryption(cipher, m.passphrase, salt, data),
        at_home(m, salt),
        offset + want <= padded(data).len(),
    ensures
        m.spec_read_at(cipher, offset, want).1 == Ok::<Seq<u8>, EncryptedFileError>(
            padded(data).subrange(offset as int, (offset + want) as int),
        ),
        at_home(m.spec_read_at(cipher, offset, want).0, salt),
        m.spec_read_at(cipher, offset, want).0.passphrase == m.passphrase,
{
    let key = derived_key(m.passphrase, salt);
    let plain = padded(data);
    lemma_padded(data);
    let index = (offset / 512) as int;
    let rest = ReaderModel::source_from(cipher, ReaderModel::source_offset(offset));
    let block = ReaderModel::next_block(rest);
    assert(offset == 512 * index + offset % 512);
    assert(ReaderModel::source_offset(offset) == 544 * index);
    if offset == plain.len() {
        assert(rest =~= Seq::<u8>::empty()) by {
            lemma_stream_len(key, salt, 0, plain);
        }
        assert(plain.subrange(offset as int, (offset + want) as int) =~= Seq::<u8>::empty());
    } else {
        lemma_seek_lands(m, cipher, salt, data, offset);
        let found = m.spec_seek(offset, block).0;
        let later = plain.skip(512 * (index + 1));
        assert(rest.skip(block.len() as int) == stream_bytes(
            key,
            salt,
            (index + 1) as nat,
            later,
        ) && stream_seals(key, salt, (index + 1) as nat, later)) by {
            lemma_stream_split(key, salt, 0, plain, index + 1);
            lemma_stream_len(key, salt, 0, plain);
            assert(rest.skip(544) =~= cipher.skip(544 * (index + 1)));
        }
        assert(later.len() % 512 == 0 && (index + 1) + later.len() / 512 <= 0x1_0000_0000 && want
            <= found.buffered.len() + later.len() && found.position + found.buffered.len() == 512
            * (index + 1));
        lemma_read_run(found, salt, (index + 1) as nat, later, want);
        assert((found.buffered + later).take(want as int) =~= plain.subrange(
            offset as int,
            (offset + want) as int,
        ));
    }
}

} // verus!
