use vstd::prelude::*;
use crate::cipher::derived_key;
use crate::error::EncryptedFileError;
use crate::laws::lemma_round_trip;
use crate::reader::EncryptedReader;
use crate::reader::ReaderModel;
use crate::writer::append;
use crate::writer::block_bytes;
use crate::writer::padded;
use crate::writer::seals;
use crate::writer::EncryptedWriter;

verus! {

/// The blocks of one sub-stream that carry `plain`, a whole number of
/// payloads, under block counters from `start` on.
pub open spec fn stream_bytes(key: Seq<u8>, salt: Seq<u8>, start: nat, plain: Seq<u8>) -> Seq<u8>
    decreases plain.len(),
{
    if plain.len() < 512 {
        Seq::empty()
    } else {
        block_bytes(key, salt, start as u32, plain.take(512)) + stream_bytes(
            key,
            salt,
            start + 1,
            plain.skip(512),
        )
    }
}

/// Every block of the sub-stream has the sizes of the format and opens to
/// its payload again.
pub open spec fn stream_seals(key: Seq<u8>, salt: Seq<u8>, start: nat, plain: Seq<u8>) -> bool
    decreases plain.len(),
{
    plain.len() < 512 || (seals(key, salt, start as u32, plain.take(512)) && stream_seals(
        key,
        salt,
        start + 1,
        plain.skip(512),
    ))
}

/// `cipher` is what a writer with this salt gives for `data` under
/// `passphrase`: the blocks of the padded data, counted from 0.
pub open spec fn is_encryption(
    cipher: Seq<u8>,
    passphrase: Seq<u8>,
    salt: Seq<u8>,
    data: Seq<u8>,
) -> bool {
    &&& salt.len() == 10
    &&& padded(data).len() / 512 <= 0x1_0000_0000
    &&& cipher == stream_bytes(derived_key(passphrase, salt), salt, 0, padded(data))
    &&& stream_seals(derived_key(passphrase, salt), salt, 0, padded(data))
}

/// The padded data is the data, then zeros, and a whole number of payloads.
pub proof fn lemma_padded(data: Seq<u8>)
    ensures
        padded(data).len() % 512 == 0,
        padded(data).len() >= data.len(),
        padded(data).len() < data.len() + 512,
        padded(data).take(data.len() as int) == data,
        data.len() % 512 == 0 ==> padded(data) == data,
{
    assert(padded(data).take(data.len() as int) =~= data);
    if data.len() % 512 == 0 {
        assert(padded(data) =~= data);
    }
}

pub proof fn lemma_stream_len(key: Seq<u8>, salt: Seq<u8>, start: nat, plain: Seq<u8>)
    requires
        salt.len() == 10,
        plain.len() % 512 == 0,
        stream_seals(key, salt, start, plain),
    ensures
        stream_bytes(key, salt, start, plain).len() == plain.len() / 512 * 544,
    decreases plain.len(),
{
    if plain.len() >= 512 {
        lemma_stream_len(key, salt, start + 1, plain.skip(512));
    }
}

/// A sub-stream of two runs of payloads is the blocks of the first run and
/// then those of the second.
pub proof fn lemma_stream_append(
    key: Seq<u8>,
    salt: Seq<u8>,
    start: nat,
    first: Seq<u8>,
    second: Seq<u8>,
)
    requires
        first.len() % 512 == 0,
    ensures
        stream_bytes(key, salt, start, first + second) == stream_bytes(key, salt, start, first)
            + stream_bytes(key, salt, start + first.len() / 512, second),
        stream_seals(key, salt, start, first + second) == (stream_seals(key, salt, start, first)
            && stream_seals(key, salt, start + first.len() / 512, second)),
    decreases first.len(),
{
    if first.len() >= 512 {
        let whole = first + second;
        assert(whole.take(512) =~= first.take(512));
        assert(whole.skip(512) =~= first.skip(512) + second);
        lemma_stream_append(key, salt, start + 1, first.skip(512), second);
        assert(start + 1 + first.skip(512).len() / 512 == start + first.len() / 512);
        assert(stream_bytes(key, salt, start, whole) =~= stream_bytes(key, salt, start, first)
            + stream_bytes(key, salt, start + first.len() / 512, second));
    } else {
        assert(first + second =~= second);
        assert(stream_bytes(key, salt, start, first) + stream_bytes(key, salt, start, second)
            =~= stream_bytes(key, salt, start, second));
    }
}

/// A sub-stream of one payload is one block.
pub proof fn lemma_stream_single(key: Seq<u8>, salt: Seq<u8>, start: nat, payload: Seq<u8>)
    requires
        payload.len() == 512,
    ensures
        stream_bytes(key, salt, start, payload) == block_bytes(key, salt, start as u32, payload),
        stream_seals(key, salt, start, payload) == seals(key, salt, start as u32, payload),
{
    assert(payload.take(512) =~= payload);
    assert(payload.skip(512) =~= Seq::<u8>::empty());
    assert(stream_bytes(key, salt, start + 1, payload.skip(512)) =~= Seq::<u8>::empty());
    assert(stream_seals(key, salt, start + 1, payload.skip(512)));
    assert(stream_bytes(key, salt, start, payload) =~= block_bytes(
        key,
        salt,
        start as u32,
        payload,
    ));
}

/// Encrypts `data` under `passphrase` as one sub-stream with a fresh salt:
/// its blocks, the last one zero-padded. Decrypting the result under the
/// same passphrase gives the padded data back. Data of 2^32 payloads and
/// more is beyond one sub-stream.
pub fn encrypt_all(data: &[u8], passphrase: &[u8]) -> (r: Result<Vec<u8>, EncryptedFileError>)
    requires
        passphrase@.len() <= 0xFFFF_FFFF,
    ensures
        r is Ok <==> padded(data@).len() / 512 <= 0xFFFF_FFFF,
        r is Ok ==> exists|salt: Seq<u8>| #[trigger]
            is_encryption(r->Ok_0@, passphrase@, salt, data@),
        r is Ok ==> ReaderModel::fresh(passphrase@).spec_read_all(r->Ok_0@) == Ok::<
            Seq<u8>,
            EncryptedFileError,
        >(padded(data@)),
        r is Err ==> r->Err_0 == EncryptedFileError::Exhausted,
{
    let mut writer = EncryptedWriter::new(passphrase);
    let ghost key = writer@.key;
    let ghost salt = writer@.salt;
    let mut out: Vec<u8> = Vec::new();
    let mut pos: usize = 0;
    let ghost mut done: nat = 0;
    proof {
        assert(data@.take(0) =~= Seq::<u8>::empty());
        assert(data@.subrange(0, 0) =~= Seq::<u8>::empty());
    }
    while pos < data.len()
        invariant
            pos <= data@.len(),
            done <= pos,
            done % 512 == 0,
            pos - done < 512,
            writer@.key == key,
            writer@.salt == salt,
            salt.len() == 10,
            key == derived_key(passphrase@, salt),
            writer@.counter == done / 512,
            done / 512 <= 0xFFFF_FFFF,
            writer@.pending == data@.subrange(done as int, pos as int),
            out@ == stream_bytes(key, salt, 0, data@.take(done as int)),
            stream_seals(key, salt, 0, data@.take(done as int)),
        decreases data@.len() - pos,
    {
        let rest = vstd::slice::slice_subrange(data, pos, data.len());
        let ghost before = writer@;
        let ghost taken = before.accepts(rest@);
        let ghost filled = before.pending + rest@.subrange(0, taken as int);
        proof {
            assert(filled =~= data@.subrange(done as int, pos + taken));
        }
        let written = writer.write(rest, &mut out);
        proof {
            if filled.len() == 512 {
                let head = data@.take(done as int);
                lemma_stream_append(key, salt, 0, head, filled);
                assert(head + filled =~= data@.take((done + 512) as int));
                assert(padded(filled) =~= filled);
                lemma_stream_single(key, salt, done / 512, filled);
                lemma_padded(data@);
            }
        }
        match written {
            Ok(n) => {
                proof {
                    if filled.len() == 512 {
                        done = done + 512;
                        assert(data@.subrange(done as int, pos + n) =~= Seq::<u8>::empty());
                    }
                }
                pos = pos + n;
            },
            Err(e) => {
                proof {
                    lemma_padded(data@);
                }
                return Err(e);
            },
        }
    }
    let ghost before = writer@;
    let finished = writer.finish(&mut out);
    proof {
        lemma_padded(data@);
        let head = data@.take(done as int);
        let tail = padded(before.pending);
        if before.pending.len() > 0 {
            lemma_padded(before.pending);
            lemma_stream_append(key, salt, 0, head, tail);
            assert(head + tail =~= padded(data@));
            lemma_stream_single(key, salt, done / 512, tail);
        } else {
            assert(head =~= padded(data@));
            assert(out@ =~= stream_bytes(key, salt, 0, padded(data@)));
        }
    }
    match finished {
        Ok(()) => {
            proof {
                assert(out@ == stream_bytes(key, salt, 0, padded(data@)));
                assert(stream_seals(key, salt, 0, padded(data@)));
                assert(padded(data@).len() / 512 <= 0x1_0000_0000);
                assert(is_encryption(out@, passphrase@, salt, data@));
            }
            let r: Result<Vec<u8>, EncryptedFileError> = Ok(out);
            assert(is_encryption(r->Ok_0@, passphrase@, salt, data@));
            proof {
                lemma_round_trip(r->Ok_0@, passphrase@, salt, data@);
            }
            assert(exists|salt: Seq<u8>| #[trigger]
                is_encryption(r->Ok_0@, passphrase@, salt, data@));
            r
        },
        Err(e) => Err(e),
    }
}

/// Decrypts a whole ciphertext under `passphrase`: the plaintext of all its
/// blocks, or the first error.
pub fn decrypt_all(cipher: &[u8], passphrase: &[u8]) -> (r: Result<Vec<u8>, EncryptedFileError>)
    requires
        passphrase@.len() <= 0xFFFF_FFFF,
    ensures
        (match r {
            Ok(plain) => Ok::<Seq<u8>, EncryptedFileError>(plain@),
            Err(e) => Err::<Seq<u8>, EncryptedFileError>(e),
        }) == ReaderModel::fresh(passphrase@).spec_read_all(cipher@),
{
    let mut reader = EncryptedReader::new(passphrase);
    let mut out: Vec<u8> = Vec::new();
    let mut pos: usize = 0;
    let mut buf: [u8; 512] = [0u8; 512];
    let ghost whole = ReaderModel::fresh(passphrase@).spec_read_all(cipher@);
    proof {
        assert(cipher@.skip(0) =~= cipher@);
    }
    loop
        invariant
            pos <= cipher@.len(),
            reader@.buffered.len() == 0,
            whole == ReaderModel::fresh(passphrase@).spec_read_all(cipher@),
            whole == (match reader@.spec_read_all(cipher@.skip(pos as int)) {
                Ok(rest) => Ok::<Seq<u8>, EncryptedFileError>(out@ + rest),
                Err(e) => Err::<Seq<u8>, EncryptedFileError>(e),
            }),
        decreases cipher@.len() - pos,
    {
        let end = if cipher.len() - pos < 544 {
            cipher.len()
        } else {
            pos + 544
        };
        let block = vstd::slice::slice_subrange(cipher, pos, end);
        let ghost source = cipher@.skip(pos as int);
        let ghost before = reader@;
        proof {
            assert(block@ =~= ReaderModel::next_block(source));
        }
        match reader.read_chunk(block) {
            Err(e) => {
                return Err(e);
            },
            Ok(false) => {
                assert(out@ + Seq::<u8>::empty() =~= out@);
                return Ok(out);
            },
            Ok(true) => {
                let ghost loaded = reader@;
                let n = reader.read(&mut buf);
                proof {
                    assert(loaded.buffered.take(512) =~= loaded.buffered);
                    assert(buf@ =~= loaded.buffered);
                    assert(reader@.buffered =~= Seq::<u8>::empty());
                    assert(reader@ == loaded.spec_drain());
                    assert(source.skip(544) =~= cipher@.skip(end as int));
                }
                let ghost sofar = out@;
                append(&mut out, buf.as_slice());
                proof {
                    match reader@.spec_read_all(cipher@.skip(end as int)) {
                        Ok(rest) => {
                            assert(sofar + (loaded.buffered + rest) =~= out@ + rest);
                        },
                        Err(e) => {},
                    }
                }
                pos = end;
            },
        }
    }
}

/// Seeks `reader` to plaintext byte `offset` of the ciphertext `source` and
/// reads on from there: `want` bytes, or fewer where the source ends first.
pub fn read_at(reader: &mut EncryptedReader, source: &[u8], offset: u64, want: usize) -> (r:
    Result<Vec<u8>, EncryptedFileError>)
    ensures
        final(reader)@ == old(reader)@.spec_read_at(source@, offset as nat, want as nat).0,
        (match r {
            Ok(plain) => Ok::<Seq<u8>, EncryptedFileError>(plain@),
            Err(e) => Err::<Seq<u8>, EncryptedFileError>(e),
        }) == old(reader)@.spec_read_at(source@, offset as nat, want as nat).1,
{
    let from: usize = match EncryptedReader::source_offset(offset) {
        Some(p) => if p <= source.len() as u64 {
            p as usize
        } else {
            source.len()
        },
        None => source.len(),
    };
    let first_end = if source.len() - from < 544 {
        source.len()
    } else {
        from + 544
    };
    let first = vstd::slice::slice_subrange(source, from, first_end);
    let ghost rest = ReaderModel::source_from(source@, ReaderModel::source_offset(offset as nat));
    proof {
        assert(rest =~= source@.skip(from as int));
        assert(first@ =~= ReaderModel::next_block(rest));
        assert(rest.skip(first@.len() as int) =~= source@.skip(first_end as int));
    }
    let ghost whole = old(reader)@.spec_read_at(source@, offset as nat, want as nat);
    match reader.seek(offset, first) {
        Err(e) => {
            return Err(e);
        },
        Ok(_) => {},
    }
    let mut pos: usize = first_end;
    let mut out: Vec<u8> = Vec::new();
    let mut left: usize = want;
    loop
        invariant
            pos <= source@.len(),
            whole == old(reader)@.spec_read_at(source@, offset as nat, want as nat),
            whole.0 == reader@.spec_read_some(source@.skip(pos as int), left as nat).0,
            whole.1 == (match reader@.spec_read_some(source@.skip(pos as int), left as nat).1 {
                Ok(more) => Ok::<Seq<u8>, EncryptedFileError>(out@ + more),
                Err(e) => Err::<Seq<u8>, EncryptedFileError>(e),
            }),
        decreases left, source@.len() - pos,
    {
        if left == 0 {
            assert(out@ + Seq::<u8>::empty() =~= out@);
            return Ok(out);
        }
        let ready = reader.available();
        if ready > 0 {
            let room = if left < ready {
                left
            } else {
                ready
            };
            let ghost before = reader@;
            let ghost sofar = out@;
            let mut piece: Vec<u8> = Vec::new();
            piece.resize(room, 0u8);
            let n = reader.read(piece.as_mut_slice());
            proof {
                assert(before.delivers(left as nat) == room);
                assert(reader@ == before.spec_read(left as nat));
                assert(piece@ =~= before.buffered.take(room as int));
            }
            append(&mut out, piece.as_slice());
            left = left - n;
            proof {
                match reader@.spec_read_some(source@.skip(pos as int), left as nat).1 {
                    Ok(more) => {
                        assert(sofar + (before.buffered.take(room as int) + more) =~= out@
                            + more);
                    },
                    Err(e) => {},
                }
            }
        } else {
            let end = if source.len() - pos < 544 {
                source.len()
            } else {
                pos + 544
            };
            let block = vstd::slice::slice_subrange(source, pos, end);
            proof {
                assert(block@ =~= ReaderModel::next_block(source@.skip(pos as int)));
                if block@.len() == 544 {
                    assert(source@.skip(pos as int).skip(544) =~= source@.skip(end as int));
                }
            }
            match reader.read_chunk(block) {
                Err(e) => {
                    return Err(e);
                },
                Ok(false) => {
                    assert(out@ + Seq::<u8>::empty() =~= out@);
                    return Ok(out);
                },
                Ok(true) => {
                    pos = end;
                },
            }
        }
    }
}

} // verus!
