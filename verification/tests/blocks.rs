use chacha20poly1305::aead::generic_array::GenericArray;
use chacha20poly1305::AeadInPlace;
use chacha20poly1305::ChaCha20Poly1305;
use chacha20poly1305::KeyInit;
use toc::cipher::generate_key;
use toc::error::EncryptedFileError;
use toc::format::payload_nonce;
use toc::format::Header;
use toc::format::BLOCK_SIZE;
use toc::format::HEADER_SIZE;
use toc::format::MAGIC;
use toc::format::PAYLOAD_SIZE;
use toc::format::POLY_TAG_SIZE;
use toc::reader::key_of_salt;
use toc::reader::EncryptedReader;
use toc::reader::SeekFrom;
use toc::writer::EncryptedWriter;

const SALT: [u8; 10] = [1, 2, 3, 4, 5, 6, 7, 8, 9, 10];

fn header(counter: u32) -> Header {
    Header { magic: 0, version: 0, variant: 1, blockcounter: counter, salt: SALT }
}

#[test]
fn sizes_add_up() {
    assert_eq!(HEADER_SIZE + PAYLOAD_SIZE + POLY_TAG_SIZE, BLOCK_SIZE);
    assert_eq!(BLOCK_SIZE, 544);
    assert_eq!(&MAGIC[..16], b"#toc#stream_____");
    assert_eq!(MAGIC[16], b'\n');
    assert_eq!(&MAGIC[17..21], b"key=");
}

#[test]
fn header_bytes_are_as_laid_out() {
    let bytes = header(0).to_bytes();
    assert_eq!(bytes[0], b'#');
    assert_eq!(bytes[1], 0x01);
    assert_eq!(&bytes[2..6], b"544b");
    assert_eq!(&bytes[6..], &SALT);
    let bytes = header(1).to_bytes();
    assert_eq!(bytes[0], b't');
    assert_eq!(&bytes[2..6], &[0x35, 0x34, 0x34, 0x63]);
    let bytes = header(0x0102_0304).to_bytes();
    assert_eq!(bytes[0], MAGIC[4]);
    assert_eq!(&bytes[2..6], &[0x35 ^ 1, 0x34 ^ 2, 0x34 ^ 3, 0x62 ^ 4]);
    let bytes = header(256 + 17).to_bytes();
    assert_eq!(bytes[0], b'k');
}

#[test]
fn header_reads_back() {
    for counter in [0u32, 1, 15, 16, 255, 256, 70_000, u32::MAX] {
        let parsed = Header::from_bytes(&header(counter).to_bytes());
        assert_eq!(parsed.blockcounter, counter);
        assert_eq!(parsed.version, 0);
        assert_eq!(parsed.variant, 1);
        assert_eq!(parsed.salt, SALT);
        assert_eq!(parsed.magic, MAGIC[counter as usize % 256]);
        assert!(parsed.magic_ok());
    }
    let parsed = Header::from_bytes(&[b'x', 0xA7, 0x35, 0x34, 0x34, 0x62, 0, 0, 0, 0, 0, 0, 0, 0, 0, 9]);
    assert_eq!(parsed.version, 10);
    assert_eq!(parsed.variant, 7);
    assert_eq!(parsed.blockcounter, 0);
    assert_eq!(parsed.salt[9], 9);
    assert!(!parsed.magic_ok());
}

#[test]
fn magic_binds_the_first_sixteen_counters_only() {
    let mut h = header(15);
    h.magic = b'_';
    assert!(h.magic_ok());
    h.magic = b'#';
    assert!(!h.magic_ok());
    let mut h = header(16);
    h.magic = 0;
    assert!(h.magic_ok());
}

#[test]
fn nonce_is_salt_then_counter() {
    assert_eq!(payload_nonce(&header(0x0A0B_0C0D)), [1, 2, 3, 4, 5, 6, 7, 8, 0x0A, 0x0B, 0x0C, 0x0D]);
}

#[test]
fn key_is_argon2i_of_passphrase_and_marked_salt() {
    let config = argon2::Config {
        variant: argon2::Variant::Argon2i,
        version: argon2::Version::Version13,
        mem_cost: 65536,
        time_cost: 3,
        lanes: 1,
        thread_mode: argon2::ThreadMode::Sequential,
        secret: &[],
        ad: &[],
        hash_length: 32,
    };
    let mut salt = SALT.to_vec();
    salt.extend_from_slice(b"#toc");
    let expected = argon2::hash_raw(b"test", &salt, &config).unwrap();
    let key = generate_key(b"test", &header(5));
    assert_eq!(&key[..], &expected[..]);
    assert_ne!(&key[..4], b"test");
}

#[test]
fn block_is_header_ciphertext_tag() {
    let key = [7u8; 32];
    let mut writer = EncryptedWriter::new_from_salt_and_key(SALT, key, 3);
    let mut out = Vec::new();
    let data: Vec<u8> = (0..512u32).map(|i| i as u8).collect();
    assert_eq!(writer.write(&data, &mut out), Ok(512));
    assert_eq!(out.len(), 544);
    assert_eq!(&out[..16], &header(3).to_bytes());
    let cipher = ChaCha20Poly1305::new(GenericArray::from_slice(&key));
    let mut expected = data.clone();
    let nonce = payload_nonce(&header(3));
    let tag = cipher
        .encrypt_in_place_detached(GenericArray::from_slice(&nonce), &[], &mut expected)
        .unwrap();
    assert_eq!(&out[16..528], &expected[..]);
    assert_eq!(&out[528..], &tag[..]);
    assert_ne!(&out[16..528], &data[..]);
}

#[test]
fn write_takes_what_fits_the_block() {
    let mut writer = EncryptedWriter::new_from_salt_and_key(SALT, [7u8; 32], 0);
    let mut out = Vec::new();
    assert_eq!(writer.write(&[1u8; 500], &mut out), Ok(500));
    assert!(out.is_empty());
    assert_eq!(writer.write(&[2u8; 500], &mut out), Ok(12));
    assert_eq!(out.len(), 544);
    assert_eq!(writer.write(&[], &mut out), Ok(0));
    assert_eq!(writer.write(&[3u8; 2000], &mut out), Ok(512));
    assert_eq!(out.len(), 1088);
    assert_eq!(&out[544..560], &header(1).to_bytes());
}

#[test]
fn finish_pads_once() {
    let mut writer = EncryptedWriter::new_from_salt_and_key(SALT, [7u8; 32], 0);
    let mut out = Vec::new();
    assert_eq!(writer.finish(&mut out), Ok(()));
    assert!(out.is_empty());
    assert_eq!(writer.write(b"tail", &mut out), Ok(4));
    assert_eq!(writer.finish(&mut out), Ok(()));
    assert_eq!(out.len(), 544);
    let once = out.clone();
    assert_eq!(writer.finish(&mut out), Ok(()));
    assert_eq!(out, once);
    let mut reader = EncryptedReader::new(b"unused");
    assert_eq!(reader.read_chunk(&out), Err(EncryptedFileError::KeyError));
}

#[test]
fn counter_runs_out_at_its_maximum() {
    let mut writer = EncryptedWriter::new_from_salt_and_key(SALT, [7u8; 32], u32::MAX - 1);
    let mut out = Vec::new();
    assert_eq!(writer.write(&[1u8; 512], &mut out), Ok(512));
    assert_eq!(out.len(), 544);
    assert_eq!(writer.write(&[1u8; 512], &mut out), Err(EncryptedFileError::Exhausted));
    assert_eq!(out.len(), 1088);
    assert_eq!(&out[544..560], &header(u32::MAX).to_bytes());
    let mut writer = EncryptedWriter::new_from_salt_and_key(SALT, [7u8; 32], u32::MAX);
    let mut out = Vec::new();
    assert_eq!(writer.write(&[1u8; 5], &mut out), Ok(5));
    assert_eq!(writer.finish(&mut out), Err(EncryptedFileError::Exhausted));
    assert_eq!(out.len(), 544);
    assert_eq!(writer.finish(&mut out), Ok(()));
    assert_eq!(out.len(), 544);
}

#[test]
fn reader_reads_in_pieces() {
    let cipher = toc::stream::encrypt_all(b"hello world", b"test").unwrap();
    let mut reader = EncryptedReader::new(b"test");
    assert_eq!(reader.available(), 0);
    let mut buf = [9u8; 8];
    assert_eq!(reader.read(&mut buf), 0);
    assert_eq!(reader.read_chunk(&cipher), Ok(true));
    assert_eq!(reader.available(), 512);
    assert_eq!(reader.read(&mut buf[..5]), 5);
    assert_eq!(&buf, b"hello\x09\x09\x09");
    assert_eq!(reader.position(), 5);
    assert_eq!(reader.read(&mut []), 0);
    let mut rest = [1u8; 600];
    assert_eq!(reader.read(&mut rest), 507);
    assert_eq!(&rest[..6], b" world");
    assert_eq!(rest[599], 1);
    assert_eq!(reader.position(), 512);
    assert_eq!(reader.read_chunk(&[]), Ok(false));
    assert_eq!(reader.available(), 0);
}

#[test]
fn block_before_the_start_is_out_of_place() {
    let mut writer = EncryptedWriter::new_from_salt_and_key(SALT, [7u8; 32], 1);
    let mut out = Vec::new();
    writer.write(&[0u8; 512], &mut out).unwrap();
    let mut reader = EncryptedReader::new(b"test");
    assert_eq!(reader.read_chunk(&out), Err(EncryptedFileError::InvalidBlockCounter));
}

#[test]
fn seek_targets() {
    let cipher = toc::stream::encrypt_all(&[0u8; 1024], b"test").unwrap();
    let mut reader = EncryptedReader::new(b"test");
    assert_eq!(reader.seek_target(SeekFrom::Start(77), 0), Ok(77));
    assert_eq!(reader.seek_target(SeekFrom::Current(-1), 0), Err(EncryptedFileError::InvalidInput));
    assert_eq!(reader.seek_target(SeekFrom::End(0), 1088), Ok(1024));
    assert_eq!(reader.seek_target(SeekFrom::End(-24), 1088 + 100), Ok(1000));
    assert_eq!(reader.seek_target(SeekFrom::End(-1025), 1088), Err(EncryptedFileError::InvalidInput));
    assert_eq!(reader.seek_target(SeekFrom::End(i64::MAX), u64::MAX), Err(EncryptedFileError::InvalidInput));
    assert_eq!(reader.seek(600, &cipher[544..]), Ok(600));
    assert_eq!(reader.position(), 600);
    assert_eq!(reader.available(), 424);
    assert_eq!(reader.seek_target(SeekFrom::Current(-100), 0), Ok(500));
    assert_eq!(reader.seek_target(SeekFrom::Current(100), 0), Ok(700));
    assert_eq!(reader.seek(5000, &[]), Ok(5000));
    assert_eq!(reader.position(), 4608);
    assert_eq!(reader.available(), 0);
    assert_eq!(reader.seek(u64::MAX, &[]), Err(EncryptedFileError::InvalidInput));
}

#[test]
fn salts_are_filed_under_their_number() {
    assert_eq!(key_of_salt(&[0; 10]), 0);
    assert_eq!(key_of_salt(&[0, 0, 0, 0, 0, 0, 0, 0, 1, 2]), 258);
    assert_eq!(key_of_salt(&[255; 10]), (1u128 << 80) - 1);
    assert_ne!(key_of_salt(&[1, 0, 0, 0, 0, 0, 0, 0, 0, 0]), key_of_salt(&[0, 1, 0, 0, 0, 0, 0, 0, 0, 0]));
}

#[test]
fn errors_name_themselves() {
    assert_eq!(EncryptedFileError::InvalidHeader.message(), "Invalid Header");
    assert_eq!(EncryptedFileError::InvalidChunk.message(), "Invalid Chunk");
    assert_eq!(EncryptedFileError::UnsupportedVariant.message(), "Unsupported Variant");
    assert_eq!(EncryptedFileError::InvalidBlockCounter.message(), "Invalid Block Counter");
    assert_eq!(EncryptedFileError::KeyError.message(), "Key Error");
    assert_eq!(EncryptedFileError::Exhausted.message(), "Reached maximum bytes in stream");
    assert_eq!(EncryptedFileError::InvalidInput.message(), "Seek before start of file");
}

#[test]
fn blocks_are_placed_by_salt_and_counter() {
    let other = Header { salt: [9; 10], ..header(0) };
    let mut reader = EncryptedReader::new(b"test");
    assert_eq!(reader.find_place(&header(1)).map(|s| s.is_some()), Err(EncryptedFileError::InvalidBlockCounter));
    assert_eq!(reader.find_place(&header(0)).map(|s| s.is_some()), Ok(false));
    let state = reader.enter_stream(&header(0), [4; 32]).unwrap();
    assert_eq!((state.key, state.first_stream_chunk, state.next_stream_block), ([4; 32], 0, None));
    assert_eq!(reader.find_place(&header(0)).unwrap().unwrap().key, [4; 32]);
    assert_eq!(reader.accept_payload(Some([5; 512])), Ok(true));
    let mut buf = [0u8; 512];
    assert_eq!(reader.read(&mut buf), 512);
    assert_eq!(buf, [5; 512]);
    assert_eq!(reader.find_place(&header(0)).map(|s| s.is_some()), Err(EncryptedFileError::InvalidBlockCounter));
    assert_eq!(reader.find_place(&header(2)).map(|s| s.is_some()), Err(EncryptedFileError::InvalidBlockCounter));
    assert_eq!(reader.find_place(&header(1)).map(|s| s.is_some()), Ok(true));
    assert_eq!(reader.accept_payload(None), Err(EncryptedFileError::KeyError));
    assert_eq!(reader.available(), 0);
    assert_eq!(reader.find_place(&Header { blockcounter: 2, ..other }).map(|s| s.is_some()), Err(EncryptedFileError::InvalidBlockCounter));
    assert_eq!(reader.find_place(&other).map(|s| s.is_some()), Ok(false));
    let state = reader.enter_stream(&other, [6; 32]).unwrap();
    assert_eq!(state.first_stream_chunk, 1);
    assert_eq!(reader.find_place(&header(1)).map(|s| s.is_some()), Err(EncryptedFileError::InvalidBlockCounter));
    assert_eq!(
        reader.enter_stream(&Header { blockcounter: 2, ..other }, [6; 32]).map(|s| s.first_stream_chunk),
        Err(EncryptedFileError::InvalidBlockCounter)
    );
}

#[test]
fn hash_of_the_right_length_is_a_key() {
    assert_eq!(toc::cipher::key_from_hash(&[8; 32]), Some([8; 32]));
    assert_eq!(toc::cipher::key_from_hash(&[8; 31]), None);
    assert_eq!(toc::cipher::key_from_hash(&[8; 33]), None);
    assert_eq!(toc::cipher::key_from_hash(&[]), None);
}

#[test]
fn block_parts_in_a_row() {
    let mut out = vec![1u8];
    toc::writer::push_block(&mut out, &[2; 16], &[3; 512], &[4; 16]);
    assert_eq!(out.len(), 545);
    assert_eq!(&out[..2], &[1, 2]);
    assert_eq!(&out[16..18], &[2, 3]);
    assert_eq!(&out[528..530], &[3, 4]);
    assert_eq!(out[544], 4);
}
