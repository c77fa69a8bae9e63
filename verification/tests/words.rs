use toc::bip39::packed_word;
use toc::bip39::word;
use toc::bip39::words;
use toc::tar_hash::TarHash;
use toc::tar_password::pick_unique;
use toc::tar_password::TarId;
use toc::tar_password::TarPassword;

#[test]
fn tar_password_bip39_are_sorted() {
    let mut sorted = words();
    sorted.sort();
    assert_eq!(words(), sorted);
}

#[test]
fn tar_id_bip39_are_sorted() {
    let mut sorted = words();
    sorted.sort();
    assert_eq!(words(), sorted);
}

#[test]
fn word_list_is_the_english_list() {
    let list = bip39::Language::English.word_list();
    assert_eq!(words().len(), 2048);
    for i in 0..2048 {
        assert_eq!(word(i), list[i]);
    }
    assert_eq!(word(0), "abandon");
    assert_eq!(word(3), "about");
    assert_eq!(word(2047), "zoo");
    assert_eq!(packed_word(2047), 0x7a6f_6f00_0000_0000);
}

#[test]
fn packed_words_grow() {
    for i in 1..2048 {
        assert!(packed_word(i - 1) < packed_word(i));
    }
}

#[test]
fn tar_password_test_parse() {
    let id = TarPassword::parse("0005-abandon-ability-able-about").unwrap();
    assert_eq!(id.prefix(), 5);
    assert_eq!(id.words(), [0, 1, 2, 3]);

    assert_eq!(id.to_string(), "0005-abandon-ability-able-about")
}

#[test]
fn tar_password_test_parse_err() {
    let id = TarPassword::parse("0005-abondon-abilty-able-abou").unwrap();
    assert_eq!(id.prefix(), 5);
    assert_eq!(id.words(), [0, 1, 2, 3]);
}

#[test]
fn tar_id_test_parse() {
    let id = TarId::parse("0005-abandon-ability-able-about").unwrap();
    assert_eq!(id.prefix(), 5);
    assert_eq!(id.words(), [0, 1, 2, 3]);

    assert_eq!(id.to_string(), "0005-abandon-ability-able-about")
}

#[test]
fn tar_id_test_parse_err() {
    let id = TarId::parse("0005-abondon-abilty-able-abou").unwrap();
    assert_eq!(id.prefix(), 5);
    assert_eq!(id.words(), [0, 1, 2, 3]);
}

#[test]
fn codes_are_written_with_four_digits_at_least() {
    assert_eq!(TarPassword::from_parts(0, [2047, 0, 2047, 0]).unwrap().to_string(), "0000-zoo-abandon-zoo-abandon");
    assert_eq!(TarPassword::from_parts(42, [1, 1, 1, 1]).unwrap().to_string(), "0042-ability-ability-ability-ability");
    assert_eq!(TarPassword::from_parts(9999, [0, 1, 2, 3]).unwrap().to_string(), "9999-abandon-ability-able-about");
    assert_eq!(TarPassword::from_parts(65535, [0, 1, 2, 3]).unwrap().to_string(), "65535-abandon-ability-able-about");
    assert!(TarPassword::from_parts(1, [0, 1, 2, 2048]).is_none());
}

#[test]
fn codes_read_back() {
    for text in ["0000-zoo-abandon-zoo-abandon", "65535-zone-zero-zebra-youth", "1234-legal-winner-thank-year"] {
        assert_eq!(TarPassword::parse(text).unwrap().to_string(), text);
        assert_eq!(TarPassword::from_str(text).unwrap().to_string(), text);
    }
    let code = TarPassword::parse("+7-zoo-zoo-zoo-zoo").unwrap();
    assert_eq!(code.prefix(), 7);
    assert_eq!(code.clone().words(), [2047; 4]);
    assert_eq!(TarPassword::parse("000000000000000000012-zoo-zoo-zoo-zoo").unwrap().prefix(), 12);
}

#[test]
fn codes_that_are_none() {
    for text in [
        "",
        "0005",
        "0005-abandon-ability-able",
        "0005-abandon-ability-able-about-above",
        "0005-abandon-ability-able-about-",
        "-abandon-ability-able-about",
        "65536-abandon-ability-able-about",
        "5x-abandon-ability-able-about",
        "+-abandon-ability-able-about",
        "0005-abandon-ability-able-",
        "0005-abandon-ability-able-a",
        "0005-abandon-ability-able-qqqqqq",
        "0005-abandon-ability-able-abandonment",
        "0005-abandon-ability-able-bat",
        "0005 abandon ability able about",
    ] {
        assert!(TarPassword::parse(text).is_none(), "{}", text);
        assert!(TarPassword::from_str(text).is_err(), "{}", text);
    }
}

#[test]
fn misspelt_words_are_read_in_lower_case() {
    let code = TarPassword::parse("0005-ABANDON-Ability-ABOUT-Abandon").unwrap();
    assert_eq!(code.words(), [0, 1, 3, 0]);
    assert!(TarPassword::parse("0005-abandon-ability-aBle-about").is_none());
}

#[test]
fn generated_codes_are_in_range() {
    for _ in 0..200 {
        let code = TarPassword::generate();
        assert!(code.prefix() < 10000);
        assert!(code.words().iter().all(|w| *w < 2048));
        assert_eq!(TarPassword::parse(&code.to_string()).unwrap().to_string(), code.to_string());
    }
    let a = TarPassword::generate().to_string();
    let b = TarPassword::generate().to_string();
    let c = TarPassword::generate().to_string();
    assert!(a != b || b != c);
}

#[test]
fn hash_is_written_in_hex() {
    let mut bytes = [0u8; 32];
    for i in 0..32 {
        bytes[i] = (i * 8 + 1) as u8;
    }
    let hash = TarHash { hash: bytes };
    let text = hash.to_string();
    assert_eq!(text, "0109111921293139414951596169717981899199a1a9b1b9c1c9d1d9e1e9f1f9");
    assert_eq!(TarHash::from_str(&text), Ok(hash.clone()));
    assert_eq!(TarHash::from_str(&text.to_uppercase()), Ok(hash.clone()));
    assert_eq!(TarHash::from_hex(text.as_bytes()), Ok(hash));
    assert_eq!(TarHash { hash: [0xff; 32] }.to_string(), "f".repeat(64));
}

#[test]
fn hash_is_not_read_from_anything_else() {
    assert_eq!(TarHash::from_str(""), Err(()));
    assert_eq!(TarHash::from_str(&"0".repeat(63)), Err(()));
    assert_eq!(TarHash::from_str(&"0".repeat(65)), Err(()));
    assert_eq!(TarHash::from_str(&("g".to_string() + &"0".repeat(63))), Err(()));
    assert_eq!(TarHash::from_str(&("0".repeat(63) + "G")), Err(()));
    assert_eq!(TarHash::from_str(&("0".repeat(62) + "é")), Err(()));
    assert_eq!(TarHash::from_str(&("0".repeat(63) + "/")), Err(()));
    assert_eq!(TarHash::from_str(&("0".repeat(63) + ":")), Err(()));
    assert_eq!(TarHash::from_str(&("0".repeat(63) + "`")), Err(()));
    assert_eq!(TarHash::from_str(&("0".repeat(63) + "@")), Err(()));
}

#[test]
fn hash_of_a_code_is_argon2i_of_its_text() {
    let config = argon2::Config {
        variant: argon2::Variant::Argon2i,
        version: argon2::Version::Version13,
        mem_cost: 65536,
        time_cost: 3,
        lanes: 1,
        thread_mode: argon2::ThreadMode::Sequential,
        secret: &[],
        ad: &[],
        hash_length: 32,
    };
    let code = TarPassword::parse("0005-abandon-ability-able-about").unwrap();
    let expected = argon2::hash_raw(b"0005-abandon-ability-able-about", b"localhost", &config).unwrap();
    let hash = TarHash::from_tarid(&code, "localhost");
    assert_eq!(&hash.hash[..], &expected[..]);
    assert_ne!(hash, TarHash::from_tarid(&code, "localhost2"));
}

#[test]
fn one_near_word_or_none() {
    assert_eq!(pick_unique(&vec![3, 1, 2]), Some(1));
    assert_eq!(pick_unique(&vec![0]), Some(0));
    assert_eq!(pick_unique(&vec![2, 2, 0]), Some(2));
    assert_eq!(pick_unique(&vec![1, 0]), None);
    assert_eq!(pick_unique(&vec![2, 3]), None);
    assert_eq!(pick_unique(&vec![]), None);
}
