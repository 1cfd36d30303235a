use begin_wallet::errors::WalletError;
use begin_wallet::mnemonic::Mnemonic;

const PHRASE_12: &str = "abandon abandon abandon abandon abandon abandon abandon abandon abandon abandon abandon about";
const PHRASE_24: &str = "abandon abandon abandon abandon abandon abandon abandon abandon abandon abandon abandon abandon abandon abandon abandon abandon abandon abandon abandon abandon abandon abandon abandon art";

#[test]
fn test_valid_12_word_phrase_parses() {
    let m = Mnemonic::validate_and_parse(PHRASE_12).unwrap();
    assert_eq!(m.word_count(), 12);
    assert_eq!(m.phrase(), PHRASE_12);
}

#[test]
fn test_valid_24_word_phrase_parses() {
    let m = Mnemonic::validate_and_parse(PHRASE_24).unwrap();
    assert_eq!(m.word_count(), 24);
}

#[test]
fn test_valid_15_word_phrase_parses() {
    // A 15-word phrase built from 160 bits of entropy by the same scheme.
    let phrase = bip39::Mnemonic::from_entropy(&[0u8; 20]).unwrap().to_string();
    assert_eq!(phrase.split_whitespace().count(), 15);
    let m = Mnemonic::validate_and_parse(&phrase).unwrap();
    assert_eq!(m.word_count(), 15);
}

#[test]
fn test_wrong_word_count_rejected() {
    // 13 words.
    let thirteen = format!("{} abandon", PHRASE_12);
    match Mnemonic::validate_and_parse(&thirteen) {
        Err(WalletError::InvalidWordCount { count }) => assert_eq!(count, 13),
        _ => panic!("expected InvalidWordCount"),
    }
    // 18 words: the underlying scheme would allow it, the codec does not.
    let eighteen = vec!["abandon"; 18].join(" ");
    match Mnemonic::validate_and_parse(&eighteen) {
        Err(WalletError::InvalidWordCount { count }) => assert_eq!(count, 18),
        _ => panic!("expected InvalidWordCount"),
    }
    // Empty phrase.
    match Mnemonic::validate_and_parse("") {
        Err(WalletError::InvalidWordCount { count }) => assert_eq!(count, 0),
        _ => panic!("expected InvalidWordCount"),
    }
}

#[test]
fn test_unknown_word_rejected() {
    let phrase = "abandon abandon abandon abandon abandon abandon abandon abandon abandon abandon abandon zzzzzz";
    match Mnemonic::validate_and_parse(phrase) {
        Err(WalletError::InvalidWord { index }) => assert_eq!(index, 11),
        _ => panic!("expected InvalidWord"),
    }
}

#[test]
fn test_checksum_mismatch_rejected() {
    let phrase = vec!["abandon"; 12].join(" ");
    assert!(matches!(
        Mnemonic::validate_and_parse(&phrase),
        Err(WalletError::ChecksumMismatch)
    ));
}

#[test]
fn test_to_seed_matches_the_scheme_and_is_deterministic() {
    let m = Mnemonic::validate_and_parse(PHRASE_12).unwrap();
    let seed = m.to_seed("");
    assert_eq!(seed.len(), 64);
    // The stretching must agree with the scheme's own, not be a cosmetic hash.
    let reference = bip39::Mnemonic::parse(PHRASE_12).unwrap().to_seed("");
    assert_eq!(seed, reference.to_vec());
    // Deterministic; and the passphrase changes the seed.
    assert_eq!(seed, m.to_seed(""));
    assert_ne!(seed, m.to_seed("TREZOR"));
    // A different phrase gives a different seed.
    let other = Mnemonic::validate_and_parse(PHRASE_24).unwrap();
    assert_ne!(seed, other.to_seed(""));
}

#[test]
fn test_generate_yields_valid_24_word_phrase() {
    let m = Mnemonic::generate().unwrap();
    assert_eq!(m.word_count(), 24);
    let phrase = m.phrase();
    // The generated phrase round-trips through validation.
    let again = Mnemonic::validate_and_parse(&phrase).unwrap();
    assert_eq!(again.phrase(), phrase);
    // Two generated wallets almost surely differ.
    let m2 = Mnemonic::generate().unwrap();
    assert_ne!(m2.phrase(), phrase);
}
