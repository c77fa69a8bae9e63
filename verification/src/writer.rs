use vstd::prelude::*;
use crate::cipher::chacha20poly1305_open;
use crate::cipher::chacha20poly1305_seal;
use crate::cipher::derived_key;
use crate::cipher::entropy_rng;
use crate::cipher::fill_salt;
use crate::cipher::generate_key;
use crate::cipher::seal_in_place;
use crate::error::EncryptedFileError;
use crate::format::header_bytes;
use crate::format::nonce_bytes;
use crate::format::payload_nonce;
use crate::format::Header;
use crate::format::PAYLOAD_SIZE;
use crate::format::VARIANT_ARGON_CHACHA20_POLY;
use crate::format::VERSION_0;

verus! {

/// `n` zero bytes.
pub open spec fn zeros(n: nat) -> Seq<u8> {
    Seq::new(n, |i: int| 0u8)
}

/// `data` filled up with zero bytes to the next multiple of the payload size.
pub open spec fn padded(data: Seq<u8>) -> Seq<u8> {
    data + zeros(((512 - data.len() % 512) % 512) as nat)
}

/// The 544 bytes of the block that carries `payload` as number `counter` of
/// the sub-stream with this key and salt.
pub open spec fn block_bytes(key: Seq<u8>, salt: Seq<u8>, counter: u32, payload: Seq<u8>) -> Seq<
    u8,
> {
    let sealed = chacha20poly1305_seal(key, nonce_bytes(salt, counter), payload);
    header_bytes(VERSION_0, VARIANT_ARGON_CHACHA20_POLY, counter, salt) + sealed.0 + sealed.1
}

/// The cipher's output for this block has the sizes of the format, and the
/// cipher opens it to `payload` again.
pub open spec fn seals(key: Seq<u8>, salt: Seq<u8>, counter: u32, payload: Seq<u8>) -> bool {
    let nonce = nonce_bytes(salt, counter);
    let sealed = chacha20poly1305_seal(key, nonce, payload);
    &&& sealed.0.len() == 512
    &&& sealed.1.len() == 16
    &&& chacha20poly1305_open(key, nonce, sealed.0, sealed.1) == Some(payload)
}

/// What a writer is, as far as its output depends on it.
pub struct WriterModel {
    pub key: Seq<u8>,
    pub salt: Seq<u8>,
    /// Counter of the next block.
    pub counter: u32,
    /// Plaintext taken in and not yet emitted.
    pub pending: Seq<u8>,
}

/// One call on a writer: the writer after it, the bytes it emitted, and
/// whether the block counter ran out.
pub struct WriterStep {
    pub model: WriterModel,
    pub emitted: Seq<u8>,
    pub exhausted: bool,
}

impl WriterModel {
    pub open spec fn wf(self) -> bool {
        &&& self.key.len() == 32
        &&& self.salt.len() == 10
        &&& self.pending.len() <= 512
    }

    /// How many bytes of `buf` one call of `write` takes.
    pub open spec fn accepts(self, buf: Seq<u8>) -> nat {
        if buf.len() <= 512 - self.pending.len() {
            buf.len()
        } else {
            (512 - self.pending.len()) as nat
        }
    }

    /// Emits the pending bytes, zero-padded, as one block. The counter moves
    /// on unless it is at its maximum.
    pub open spec fn spec_write_chunk(self) -> WriterStep {
        let emitted = block_bytes(self.key, self.salt, self.counter, padded(self.pending));
        if self.counter < u32::MAX {
            WriterStep {
                model: WriterModel { counter: (self.counter + 1) as u32, ..self },
                emitted,
                exhausted: false,
            }
        } else {
            WriterStep { model: self, emitted, exhausted: true }
        }
    }

    pub open spec fn spec_write(self, buf: Seq<u8>) -> WriterStep {
        let filled = WriterModel {
            pending: self.pending + buf.subrange(0, self.accepts(buf) as int),
            ..self
        };
        if filled.pending.len() == 512 {
            let step = filled.spec_write_chunk();
            if step.exhausted {
                step
            } else {
                WriterStep {
                    model: WriterModel { pending: Seq::empty(), ..step.model },
                    ..step
                }
            }
        } else {
            WriterStep { model: filled, emitted: Seq::empty(), exhausted: false }
        }
    }

    pub open spec fn spec_finish(self) -> WriterStep {
        if self.pending.len() > 0 {
            let step = self.spec_write_chunk();
            WriterStep { model: WriterModel { pending: Seq::empty(), ..step.model }, ..step }
        } else {
            WriterStep { model: self, emitted: Seq::empty(), exhausted: false }
        }
    }
}

/// Calling `finish` a second time emits nothing and leaves the writer as the
/// first call left it.
pub proof fn lemma_finish_idempotent(w: WriterModel)
    ensures
        w.spec_finish().model.spec_finish().emitted == Seq::<u8>::empty(),
        w.spec_finish().model.spec_finish().model == w.spec_finish().model,
        !w.spec_finish().model.spec_finish().exhausted,
{
}

/// Turns a stream of plaintext into blocks of one sub-stream. It owns no
/// sink: each call appends the blocks that became complete to `out`.
pub struct EncryptedWriter {
    key: [u8; 32],
    current_header: Header,
    current_chunk_position: usize,
    current_chunk: [u8; PAYLOAD_SIZE],
}

impl View for EncryptedWriter {
    type V = WriterModel;

    closed spec fn view(&self) -> WriterModel {
        WriterModel {
            key: self.key@,
            salt: self.current_header.salt@,
            counter: self.current_header.blockcounter,
            pending: self.current_chunk@.subrange(0, self.current_chunk_position as int),
        }
    }
}

impl EncryptedWriter {
    #[verifier::type_invariant]
    spec fn inv(self) -> bool {
        &&& self.current_chunk_position <= 512
        &&& self.current_header.version == VERSION_0
        &&& self.current_header.variant == VARIANT_ARGON_CHACHA20_POLY
    }

    /// A writer for a new sub-stream: a fresh random salt, the key that the
    /// passphrase gives under it, counter 0, nothing pending.
    pub fn new(passphrase: &[u8]) -> (w: Self)
        requires
            passphrase@.len() <= 0xFFFF_FFFF,
        ensures
            w@.wf(),
            w@.key == derived_key(passphrase@, w@.salt),
            w@.counter == 0,
            w@.pending == Seq::<u8>::empty(),
    {
        let mut salt: [u8; 10] = [0u8; 10];
        let mut rng = entropy_rng();
        fill_salt(&mut rng, &mut salt);
        let header = Header {
            magic: 0,
            version: VERSION_0,
            variant: VARIANT_ARGON_CHACHA20_POLY,
            blockcounter: 0,
            salt,
        };
        let key = generate_key(passphrase, &header);
        let w = Self {
            key,
            current_header: header,
            current_chunk_position: 0,
            current_chunk: [0u8; PAYLOAD_SIZE],
        };
        assert(w@.pending =~= Seq::<u8>::empty());
        w
    }

    /// A writer that continues the sub-stream with this salt and key at the
    /// given block counter.
    pub fn new_from_salt_and_key(salt: [u8; 10], key: [u8; 32], blockcounter: u32) -> (w: Self)
        ensures
            w@ == (WriterModel {
                key: key@,
                salt: salt@,
                counter: blockcounter,
                pending: Seq::<u8>::empty(),
            }),
    {
        let header = Header {
            magic: 0,
            version: VERSION_0,
            variant: VARIANT_ARGON_CHACHA20_POLY,
            blockcounter,
            salt,
        };
        let w = Self {
            key,
            current_header: header,
            current_chunk_position: 0,
            current_chunk: [0u8; PAYLOAD_SIZE],
        };
        assert(w@.pending =~= Seq::<u8>::empty());
        w
    }

    /// Emits the pending bytes, zero-padded, as one block at the end of
    /// `out`, and moves the counter on. At the maximum counter the block is
    /// still emitted, the counter stays, and the call reports `Exhausted`.
    fn write_chunk(&mut self, out: &mut Vec<u8>) -> (r: Result<(), EncryptedFileError>)
        requires
            old(self).current_chunk_position > 0,
        ensures
            final(self)@ == old(self)@.spec_write_chunk().model,
            final(out)@ == old(out)@ + old(self)@.spec_write_chunk().emitted,
            r == if old(self)@.spec_write_chunk().exhausted {
                Err::<(), EncryptedFileError>(EncryptedFileError::Exhausted)
            } else {
                Ok::<(), EncryptedFileError>(())
            },
            seals(old(self)@.key, old(self)@.salt, old(self)@.counter, padded(old(self)@.pending)),
            final(out)@.len() == old(out)@.len() + 544,
            final(self).current_chunk_position == old(self).current_chunk_position,
    {
        proof {
            use_type_invariant(&*self);
        }
        let header = self.current_header.to_bytes();
        let mut block: [u8; PAYLOAD_SIZE] = self.current_chunk;
        let mut i: usize = self.current_chunk_position;
        while i < PAYLOAD_SIZE
            invariant
                self.current_chunk_position <= i <= 512,
                forall|j: int| 0 <= j < self.current_chunk_position ==> block@[j] == self.current_chunk@[j],
                forall|j: int| self.current_chunk_position <= j < i ==> block@[j] == 0u8,
            decreases 512 - i,
        {
            block[i] = 0;
            i += 1;
        }
        proof {
            let pending = self@.pending;
            let fill = ((512 - pending.len() % 512) % 512) as nat;
            assert(pending.len() + fill == 512) by {
                if pending.len() == 512 {
                    assert(fill == 0);
                } else {
                    assert(fill == 512 - pending.len());
                }
            }
            assert(block@ =~= padded(pending));
        }
        let nonce = payload_nonce(&self.current_header);
        let ghost before = out@;
        match seal_in_place(&self.key, &nonce, &mut block) {
            Ok(tag) => {
                push_block(out, &header, &block, &tag);
                assert(out@ =~= before + self@.spec_write_chunk().emitted);
            },
            Err(_) => {
                assert(false);
            },
        }
        if self.current_header.blockcounter < u32::MAX {
            self.current_header.blockcounter = self.current_header.blockcounter + 1;
            Ok(())
        } else {
            Err(EncryptedFileError::Exhausted)
        }
    }

    /// Takes bytes from the front of `buf`, as many as fit into the current
    /// block, and returns how many. When that completes the block, the block
    /// is appended to `out`: 544 bytes. A caller with more to write calls
    /// again. A writer that reported `Exhausted` has emitted the last block
    /// of its sub-stream and must not be used further.
    pub fn write(&mut self, buf: &[u8], out: &mut Vec<u8>) -> (r: Result<
        usize,
        EncryptedFileError,
    >)
        ensures
            final(self)@ == old(self)@.spec_write(buf@).model,
            final(self)@.wf(),
            final(out)@ == old(out)@ + old(self)@.spec_write(buf@).emitted,
            r == if old(self)@.spec_write(buf@).exhausted {
                Err::<usize, EncryptedFileError>(EncryptedFileError::Exhausted)
            } else {
                Ok::<usize, EncryptedFileError>(old(self)@.accepts(buf@) as usize)
            },
            old(self)@.spec_write(buf@).emitted.len() > 0 ==> seals(
                old(self)@.key,
                old(self)@.salt,
                old(self)@.counter,
                old(self)@.pending + buf@.subrange(0, old(self)@.accepts(buf@) as int),
            ),
            final(out)@.len() == old(out)@.len() || final(out)@.len() == old(out)@.len() + 544,
    {
        proof {
            use_type_invariant(&*self);
        }
        let left = PAYLOAD_SIZE - self.current_chunk_position;
        let to_write = if buf.len() < left {
            buf.len()
        } else {
            left
        };
        let ghost start = self.current_chunk_position;
        let ghost held = self.current_chunk@;
        let mut i: usize = 0;
        while i < to_write
            invariant
                i <= to_write <= buf@.len(),
                start + to_write <= 512,
                self.current_chunk_position == start,
                self.key == old(self).key,
                self.current_header == old(self).current_header,
                self.current_header.version == VERSION_0,
                self.current_header.variant == VARIANT_ARGON_CHACHA20_POLY,
                held.len() == 512,
                forall|j: int| 0 <= j < start ==> self.current_chunk@[j] == held[j],
                forall|j: int| 0 <= j < i ==> self.current_chunk@[start + j] == buf@[j],
            decreases to_write - i,
        {
            self.current_chunk[self.current_chunk_position + i] = buf[i];
            i += 1;
        }
        self.current_chunk_position = self.current_chunk_position + to_write;
        assert(self@.pending =~= old(self)@.pending + buf@.subrange(0, to_write as int));
        if self.current_chunk_position == PAYLOAD_SIZE {
            assert(padded(self@.pending) =~= self@.pending);
            self.write_chunk(out)?;
            proof {
                use_type_invariant(&*self);
            }
            self.current_chunk_position = 0;
            assert(self@.pending =~= Seq::<u8>::empty());
        } else {
            assert(out@ =~= old(out)@ + Seq::<u8>::empty());
        }
        Ok(to_write)
    }

    /// Closes the sub-stream: pending bytes, if any, go out as a last block,
    /// zero-padded; with nothing pending nothing is emitted. Afterwards
    /// nothing is pending, so a second call does nothing. At the maximum
    /// counter the block is emitted and the call reports `Exhausted`.
    pub fn finish(&mut self, out: &mut Vec<u8>) -> (r: Result<(), EncryptedFileError>)
        ensures
            final(self)@ == old(self)@.spec_finish().model,
            final(self)@.wf(),
            final(out)@ == old(out)@ + old(self)@.spec_finish().emitted,
            r == if old(self)@.spec_finish().exhausted {
                Err::<(), EncryptedFileError>(EncryptedFileError::Exhausted)
            } else {
                Ok::<(), EncryptedFileError>(())
            },
            old(self)@.pending.len() > 0 ==> seals(
                old(self)@.key,
                old(self)@.salt,
                old(self)@.counter,
                padded(old(self)@.pending),
            ),
            final(out)@.len() == old(out)@.len() + (if old(self)@.pending.len() > 0 {
                544int
            } else {
                0int
            }),
    {
        proof {
            use_type_invariant(&*self);
        }
        if self.current_chunk_position > 0 {
            let r = self.write_chunk(out);
            proof {
                use_type_invariant(&*self);
            }
            self.current_chunk_position = 0;
            assert(self@.pending =~= Seq::<u8>::empty());
            r
        } else {
            assert(out@ =~= old(out)@ + Seq::<u8>::empty());
            assert(self@.pending =~= Seq::<u8>::empty());
            Ok(())
        }
    }
}

/// Appends a block to `out`: its header, its ciphertext, its tag.
pub fn push_block(out: &mut Vec<u8>, header: &[u8; 16], ciphertext: &[u8; 512], tag: &[u8; 16])
    ensures
        final(out)@ == old(out)@ + header@ + ciphertext@ + tag@,
{
    append(out, header.as_slice());
    append(out, ciphertext.as_slice());
    append(out, tag.as_slice());
}

/// Appends the bytes of `bytes` to `out`.
pub fn append(out: &mut Vec<u8>, bytes: &[u8])
    ensures
        final(out)@ == old(out)@ + bytes@,
{
    let mut i: usize = 0;
    while i < bytes.len()
        invariant
            i <= bytes@.len(),
            out@ == old(out)@ + bytes@.subrange(0, i as int),
        decreases bytes@.len() - i,
    {
        out.push(bytes[i]);
        i += 1;
        assert(out@ =~= old(out)@ + bytes@.subrange(0, i as int));
    }
    assert(bytes@.subrange(0, bytes@.len() as int) =~= bytes@);
}

} // verus!
