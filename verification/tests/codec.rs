use rand::Rng;
use rand::RngCore;
use toc::error::EncryptedFileError;
use toc::reader::EncryptedReader;
use toc::stream::decrypt_all;
use toc::stream::encrypt_all;
use toc::stream::read_at;

const TWO_MB: usize = 2 * 1024 * 1024;

fn generate_data(len: usize) -> Vec<u8> {
    let mut data = vec![0u8; len];
    rand::thread_rng().fill_bytes(&mut data);
    data
}

fn encrypt(buffer: &[u8], passphrase: &str) -> Vec<u8> {
    encrypt_all(buffer, passphrase.as_bytes()).unwrap()
}

fn decrypt(buffer: &[u8], passphrase: &str) -> Result<Vec<u8>, EncryptedFileError> {
    decrypt_all(buffer, passphrase.as_bytes())
}

#[test]
fn test_write_and_read() {
    let original = generate_data(TWO_MB);

    let decoded = decrypt(&encrypt(&original, "test"), "test").unwrap();

    assert_eq!(original.len(), decoded.len());
    assert_eq!(original, decoded);
}

#[test]
fn test_error_on_wrong_passphrase() {
    let original = generate_data(TWO_MB);

    let encoded = encrypt(&original, "test");
    assert!(decrypt(&encoded, "wrong").is_err());

    assert_eq!(original, decrypt(&encoded, "test").unwrap());
}

#[test]
fn test_encryption_is_salted() {
    let original = generate_data(TWO_MB);

    let encoded1 = encrypt(&original, "test");
    let encoded2 = encrypt(&original, "test");

    assert_ne!(encoded1, encoded2);
}

#[test]
fn test_concat() {
    let original = generate_data(TWO_MB);

    let chunk_a = encrypt(&original[0..1024], "test");
    let chunk_b = encrypt(&original[1024..1024 * 1024], "test");
    let chunk_c = encrypt(&original[1024 * 1024..], "test");

    let all_chunks = [&chunk_a[..], &chunk_b[..], &chunk_c[..]].concat();

    let decoded = decrypt(&all_chunks, "test").unwrap();

    assert_eq!(original.len(), decoded.len());
    assert_eq!(original, decoded);
}

#[test]
fn fail_on_ordering_has_been_changed() {
    let original = generate_data(TWO_MB);
    let encryped = encrypt(&original, "test");
    let mut modified_enrypted = encryped.clone();

    modified_enrypted[1024..(1024 + 512)].copy_from_slice(&encryped[1024 + 512..(1024 + 1024)]);
    modified_enrypted[1024 + 512..(1024 + 1024)].copy_from_slice(&encryped[1024..(1024 + 512)]);

    assert!(decrypt(&modified_enrypted, "test").is_err());
}

#[test]
fn fail_on_write_in_between() {
    let original = generate_data(TWO_MB);
    let mut encryped = encrypt(&original, "test");

    encryped[(544 * 3)..(544 * 4)].copy_from_slice(&encrypt(&original[0..512], "test")[..]);

    assert!(decrypt(&encryped, "test").is_err());
}

#[test]
fn test_seek() {
    let mut data = vec![0u8; TWO_MB];
    let mut rng = rand::thread_rng();
    rng.fill_bytes(&mut data);

    let encrypted = encrypt(&data, "test");
    let mut reader = EncryptedReader::new(b"test");

    for _ in 0..1024 {
        let length = rng.gen_range(0..4000);
        let offset = rng.gen_range(0..TWO_MB - length);

        let decrypted = data[offset..offset + length].to_vec();
        let encrypted = read_at(&mut reader, &encrypted, offset as u64, length).unwrap();

        assert_eq!(decrypted, encrypted);
    }
}

#[test]
fn small_payload_round_trip() {
    let cipher = encrypt(b"hello", "test");
    assert_eq!(cipher.len(), 544);
    let plain = decrypt(&cipher, "test").unwrap();
    assert_eq!(plain.len(), 512);
    assert_eq!(&plain[..5], b"hello");
    assert!(plain[5..].iter().all(|b| *b == 0));
}

#[test]
fn exactly_one_block() {
    let data = vec![0xAAu8; 512];
    let cipher = encrypt(&data, "test");
    assert_eq!(cipher.len(), 544);
    assert_eq!(decrypt(&cipher, "test").unwrap(), data);
}

#[test]
fn two_blocks_and_a_part() {
    let data: Vec<u8> = (0..1025u32).map(|i| (i * 7 + 3) as u8).collect();
    let cipher = encrypt(&data, "test");
    assert_eq!(cipher.len(), 3 * 544);
    let plain = decrypt(&cipher, "test").unwrap();
    assert_eq!(plain.len(), 3 * 512);
    assert_eq!(&plain[..1025], &data[..]);
    assert!(plain[1025..].iter().all(|b| *b == 0));
}

#[test]
fn nothing_encrypts_to_nothing() {
    let cipher = encrypt(b"", "test");
    assert!(cipher.is_empty());
    assert_eq!(decrypt(&cipher, "anything").unwrap(), Vec::<u8>::new());
}

#[test]
fn wrong_passphrase_is_a_key_error() {
    let cipher = encrypt(b"hello", "test");
    assert_eq!(decrypt(&cipher, "wrong"), Err(EncryptedFileError::KeyError));
}

#[test]
fn altered_payload_is_a_key_error() {
    let mut cipher = encrypt(b"hello", "test");
    cipher[100] ^= 1;
    assert_eq!(decrypt(&cipher, "test"), Err(EncryptedFileError::KeyError));
}

#[test]
fn swapped_blocks_are_out_of_place() {
    let data = generate_data(4 * 512);
    let cipher = encrypt(&data, "test");
    let mut swapped = cipher.clone();
    swapped[544..1088].copy_from_slice(&cipher[1088..1632]);
    swapped[1088..1632].copy_from_slice(&cipher[544..1088]);
    assert_eq!(decrypt(&swapped, "test"), Err(EncryptedFileError::InvalidBlockCounter));
    let mut swapped = cipher.clone();
    swapped[0..544].copy_from_slice(&cipher[1632..2176]);
    swapped[1632..2176].copy_from_slice(&cipher[0..544]);
    assert_eq!(decrypt(&swapped, "test"), Err(EncryptedFileError::InvalidBlockCounter));
}

#[test]
fn spliced_block_is_rejected_in_the_middle() {
    let data = generate_data(4 * 512);
    let cipher = encrypt(&data, "test");
    let other = encrypt(&data[..512], "test");
    let mut spliced = cipher.clone();
    spliced[544..1088].copy_from_slice(&other);
    assert_eq!(decrypt(&spliced, "test"), Err(EncryptedFileError::InvalidBlockCounter));
}

#[test]
fn spliced_last_block_is_a_concatenation() {
    let data = generate_data(4 * 512);
    let cipher = encrypt(&data, "test");
    let other = encrypt(&data[..512], "test");
    let mut spliced = cipher.clone();
    spliced[1632..2176].copy_from_slice(&other);
    let plain = decrypt(&spliced, "test").unwrap();
    assert_eq!(&plain[..1536], &data[..1536]);
    assert_eq!(&plain[1536..], &data[..512]);
}

#[test]
fn spliced_first_block_is_a_concatenation() {
    let data = generate_data(4 * 512);
    let cipher = encrypt(&data, "test");
    let other = encrypt(&data[..512], "test");
    let mut spliced = cipher.clone();
    spliced[0..544].copy_from_slice(&other);
    assert_eq!(decrypt(&spliced, "test").unwrap(), data);
}

#[test]
fn duplicated_block_is_out_of_place() {
    let data = generate_data(2 * 512);
    let cipher = encrypt(&data, "test");
    let mut doubled = cipher.clone();
    doubled.extend_from_slice(&cipher[544..]);
    assert_eq!(decrypt(&doubled, "test"), Err(EncryptedFileError::InvalidBlockCounter));
}

#[test]
fn returning_sub_stream_is_rejected() {
    let a = encrypt(&generate_data(1024), "test");
    let b = encrypt(&generate_data(512), "test");
    let mixed = [&a[..544], &b[..], &a[544..]].concat();
    assert_eq!(decrypt(&mixed, "test"), Err(EncryptedFileError::InvalidBlockCounter));
}

#[test]
fn short_tail_is_an_invalid_chunk() {
    let cipher = encrypt(&generate_data(1024), "test");
    assert_eq!(decrypt(&cipher[..1000], "test"), Err(EncryptedFileError::InvalidChunk));
    assert_eq!(decrypt(&cipher[..1], "test"), Err(EncryptedFileError::InvalidChunk));
}

#[test]
fn wrong_magic_is_an_invalid_header() {
    let mut cipher = encrypt(b"hello", "test");
    cipher[0] = b'x';
    assert_eq!(decrypt(&cipher, "test"), Err(EncryptedFileError::InvalidHeader));
}

#[test]
fn other_version_or_variant_is_unsupported() {
    let cipher = encrypt(b"hello", "test");
    let mut other = cipher.clone();
    other[1] = 0x11;
    assert_eq!(decrypt(&other, "test"), Err(EncryptedFileError::UnsupportedVariant));
    let mut other = cipher.clone();
    other[1] = 0x02;
    assert_eq!(decrypt(&other, "test"), Err(EncryptedFileError::UnsupportedVariant));
}

#[test]
fn seek_then_read_across_blocks() {
    let data = generate_data(5 * 512);
    let cipher = encrypt(&data, "test");
    let mut reader = EncryptedReader::new(b"test");
    assert_eq!(read_at(&mut reader, &cipher, 700, 1000).unwrap(), &data[700..1700]);
    assert_eq!(reader.position(), 1700);
    assert_eq!(read_at(&mut reader, &cipher, 0, 10).unwrap(), &data[..10]);
    assert_eq!(read_at(&mut reader, &cipher, 2559, 1).unwrap(), &data[2559..]);
    assert_eq!(read_at(&mut reader, &cipher, 2500, 1000).unwrap(), &data[2500..]);
    assert_eq!(read_at(&mut reader, &cipher, 2560, 10).unwrap(), Vec::<u8>::new());
    assert_eq!(reader.position(), 2560);
    assert_eq!(read_at(&mut reader, &cipher, 100_000, 10).unwrap(), Vec::<u8>::new());
    assert_eq!(reader.position(), 99_840);
    assert_eq!(read_at(&mut reader, &cipher, 512, 512).unwrap(), &data[512..1024]);
}

#[test]
fn seek_keeps_guarding_ended_sub_streams() {
    let a = encrypt(&generate_data(1024), "test");
    let b = encrypt(&generate_data(1024), "test");
    let both = [&a[..], &b[..]].concat();
    let mut reader = EncryptedReader::new(b"test");
    assert_eq!(read_at(&mut reader, &both, 0, 2048).unwrap().len(), 2048);
    assert_eq!(read_at(&mut reader, &both, 1024, 512).unwrap().len(), 512);
    let replay = [&a[..], &b[..], &a[..]].concat();
    assert_eq!(
        read_at(&mut reader, &replay, 2048, 10),
        Err(EncryptedFileError::InvalidBlockCounter)
    );
}

#[test]
fn seek_beyond_any_source_position_is_refused() {
    let mut reader = EncryptedReader::new(b"test");
    assert_eq!(read_at(&mut reader, &[], u64::MAX, 1), Err(EncryptedFileError::InvalidInput));
    assert_eq!(EncryptedReader::source_offset(u64::MAX), None);
    assert_eq!(EncryptedReader::source_offset(0), Some(0));
    assert_eq!(EncryptedReader::source_offset(511), Some(0));
    assert_eq!(EncryptedReader::source_offset(512), Some(544));
    assert_eq!(EncryptedReader::source_offset(1025), Some(1088));
}
