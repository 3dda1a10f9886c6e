use rcli::text::{
    blake3_key_set, ed25519_key_set, process_generate, process_text_sign, process_text_verify,
};
use rcli::{
    decode_signature, encode_signature, Blake3, Ed25519Signer, Ed25519Verifier, KeyGenerator,
    KeyLoader, TextError, TextSign, TextSignFormat, TextVerify,
};

fn hex(s: &str) -> Vec<u8> {
    (0..s.len() / 2)
        .map(|i| u8::from_str_radix(&s[2 * i..2 * i + 2], 16).unwrap())
        .collect()
}

const SEED: &str = "833fe62409237b9d62ec77587520911e9a759cec1d19755b7da901b96dca3d42";
const PUBLIC: &str = "ec172b93ad5e563bf4932c70e1245034c35467ef2efd4d64ebf819683467e2bf";

fn blake3_key() -> Vec<u8> {
    b"0123456789abcdefghijklmnopqrstuv".to_vec()
}

#[test]
fn test_blake3_sign_verify() {
    let blake3 = Blake3::load(&blake3_key()).unwrap();
    let data = b"hello world";
    let sig = blake3.sign(&data[..]);
    println!("sig:{}", encode_signature(&sig));
    assert!(blake3.verify(&data[..], &sig).unwrap());
}

#[test]
fn blake3_round_trip_empty_and_nonempty() {
    let key = Blake3::load(&blake3_key()).unwrap();
    for data in [&b""[..], &b"x"[..], &b"some longer text\n"[..]] {
        let sig = key.sign(data);
        assert_eq!(sig.len(), 32);
        assert!(key.verify(data, &sig).unwrap());
    }
}

#[test]
fn ed25519_round_trip_empty_and_nonempty() {
    let signer = Ed25519Signer::load(&hex(SEED)).unwrap();
    let verifier = Ed25519Verifier::load(&hex(PUBLIC)).unwrap();
    for data in [&b""[..], &b"abc"[..], &b"hello world"[..]] {
        let sig = signer.sign(data);
        assert_eq!(sig.len(), 64);
        assert!(verifier.verify(data, &sig).unwrap());
    }
}

#[test]
fn flipped_bit_fails_both_variants() {
    let data = b"hello world".to_vec();
    let key = Blake3::load(&blake3_key()).unwrap();
    let sig = key.sign(&data);
    let signer = Ed25519Signer::load(&hex(SEED)).unwrap();
    let verifier = Ed25519Verifier::load(&hex(PUBLIC)).unwrap();
    let esig = signer.sign(&data);
    for byte in [0usize, 5, 10] {
        for bit in [0u8, 3, 7] {
            let mut mutated = data.clone();
            mutated[byte] ^= 1 << bit;
            assert!(!key.verify(&mutated, &sig).unwrap());
            assert!(!verifier.verify(&mutated, &esig).unwrap());
        }
    }
}

#[test]
fn other_key_fails_both_variants() {
    let data = b"hello world";
    let key = Blake3::load(&blake3_key()).unwrap();
    let other = Blake3::load(b"vutsrqponmlkjihgfedcba9876543210").unwrap();
    assert!(!key.verify(data, &other.sign(data)).unwrap());

    let keys = process_generate(TextSignFormat::Ed25519);
    let other_signer = Ed25519Signer::load(&keys[0]).unwrap();
    let verifier = Ed25519Verifier::load(&hex(PUBLIC)).unwrap();
    assert!(!verifier.verify(data, &other_signer.sign(data)).unwrap());
}

#[test]
fn generate_blake3_one_blob() {
    let keys = process_generate(TextSignFormat::Blake3);
    assert_eq!(keys.len(), 1);
    assert_eq!(keys[0].len(), 32);
    assert!(keys[0].iter().all(|b| b.is_ascii_graphic()));
    let key = Blake3::load(&keys[0]).unwrap();
    let sig = key.sign(b"data");
    assert!(key.verify(b"data", &sig).unwrap());
}

#[test]
fn generate_ed25519_two_blobs_round_trip() {
    let keys = Ed25519Signer::generate();
    assert_eq!(keys.len(), 2);
    assert_eq!(keys[0].len(), 32);
    assert_eq!(keys[1].len(), 32);
    assert_ne!(keys[0], keys[1]);
    let signer = Ed25519Signer::load(&keys[0]).unwrap();
    let verifier = Ed25519Verifier::load(&keys[1]).unwrap();
    let sig = signer.sign(b"hello world");
    assert!(verifier.verify(b"hello world", &sig).unwrap());
    let text = process_text_sign(b"hello world", &keys[0], TextSignFormat::Ed25519).unwrap();
    assert_eq!(
        process_text_verify(b"hello world", &keys[1], TextSignFormat::Ed25519, &text),
        Ok(true)
    );
}

#[test]
fn generated_keys_differ_between_calls() {
    assert_ne!(process_generate(TextSignFormat::Ed25519)[0], process_generate(TextSignFormat::Ed25519)[0]);
    assert_ne!(process_generate(TextSignFormat::Blake3)[0], process_generate(TextSignFormat::Blake3)[0]);
}

#[test]
fn codec_round_trip_and_no_padding() {
    let samples: Vec<Vec<u8>> = vec![
        vec![],
        vec![0],
        vec![0xfb, 0xff],
        vec![1, 2, 3],
        (0..=255u8).collect(),
        vec![0xff; 64],
    ];
    for b in samples {
        let text = encode_signature(&b);
        assert!(!text.contains('='));
        assert_eq!(decode_signature(&text), Ok(b));
    }
}

#[test]
fn codec_exact_values() {
    assert_eq!(encode_signature(&[0xfb, 0xff]), "-_8");
    assert_eq!(encode_signature(b"hello"), "aGVsbG8");
    assert_eq!(decode_signature("aGVsbG8"), Ok(b"hello".to_vec()));
    assert_eq!(encode_signature(&[]), "");
}

#[test]
fn codec_rejects_bad_text() {
    assert_eq!(decode_signature("ab+c"), Err(TextError::Encoding));
    assert_eq!(decode_signature("aGVsbG8="), Err(TextError::Encoding));
    assert_eq!(decode_signature("a"), Err(TextError::Encoding));
    assert_eq!(decode_signature("!!"), Err(TextError::Encoding));
}

#[test]
fn forty_byte_key_uses_first_thirty_two() {
    let mut file = blake3_key();
    file.extend_from_slice(b"12345678");
    assert_eq!(file.len(), 40);
    let a = process_text_sign(b"hello world", &file, TextSignFormat::Blake3).unwrap();
    let b = process_text_sign(b"hello world", &file, TextSignFormat::Blake3).unwrap();
    assert_eq!(a, b);
    let c = process_text_sign(b"hello world", &blake3_key(), TextSignFormat::Blake3).unwrap();
    assert_eq!(a, c);
    assert_eq!(decode_signature(&a).unwrap().len(), 32);
    assert_eq!(
        process_text_verify(b"hello world", &file, TextSignFormat::Blake3, &a),
        Ok(true)
    );
}

#[test]
fn ed25519_ten_byte_signature_is_malformed() {
    let text = encode_signature(&[7u8; 10]);
    assert_eq!(
        process_text_verify(b"hello world", &hex(PUBLIC), TextSignFormat::Ed25519, &text),
        Err(TextError::MalformedSignature)
    );
}

#[test]
fn blake3_wrong_length_signature_is_false() {
    let text = encode_signature(&[7u8; 10]);
    assert_eq!(
        process_text_verify(b"hello world", &blake3_key(), TextSignFormat::Blake3, &text),
        Ok(false)
    );
}

#[test]
fn short_keys_are_refused() {
    let short = vec![1u8; 31];
    assert!(matches!(Blake3::try_new(&short), Err(TextError::KeyLoad)));
    assert!(matches!(Ed25519Signer::try_new(&short), Err(TextError::KeyLoad)));
    assert!(matches!(Ed25519Verifier::try_new(&short), Err(TextError::KeyLoad)));
    assert_eq!(
        process_text_sign(b"x", &short, TextSignFormat::Blake3),
        Err(TextError::KeyLoad)
    );
    assert_eq!(
        process_text_verify(b"x", &short, TextSignFormat::Ed25519, "AAAA"),
        Err(TextError::KeyLoad)
    );
}

#[test]
fn invalid_public_key_point_is_refused() {
    let mut refused = 0;
    for y in 2u8..40 {
        let mut key = [0u8; 32];
        key[0] = y;
        if let Err(e) = Ed25519Verifier::load(&key) {
            assert_eq!(e, TextError::KeyLoad);
            refused += 1;
        }
    }
    assert!(refused > 0);
}

#[test]
fn verify_reports_encoding_error_after_key_loads() {
    assert_eq!(
        process_text_verify(b"x", &blake3_key(), TextSignFormat::Blake3, "not base64!"),
        Err(TextError::Encoding)
    );
    assert_eq!(
        process_text_verify(b"x", &[1u8; 8], TextSignFormat::Blake3, "not base64!"),
        Err(TextError::KeyLoad)
    );
}

#[test]
fn blake3_signature_is_not_the_input() {
    let data = blake3_key();
    let key = Blake3::new([0u8; 32]);
    let sig = key.sign(&data);
    assert_ne!(sig, data);
    assert_ne!(sig, Blake3::new([1u8; 32]).sign(&data));
}

#[test]
fn ed25519_signature_is_deterministic_and_keyed() {
    let a = process_text_sign(b"abc", &hex(SEED), TextSignFormat::Ed25519).unwrap();
    let b = process_text_sign(b"abc", &hex(SEED), TextSignFormat::Ed25519).unwrap();
    assert_eq!(a, b);
    assert_eq!(decode_signature(&a).unwrap().len(), 64);
    assert_eq!(process_text_verify(b"abc", &hex(PUBLIC), TextSignFormat::Ed25519, &a), Ok(true));
    assert_eq!(process_text_verify(b"abd", &hex(PUBLIC), TextSignFormat::Ed25519, &a), Ok(false));
    // the secret seed is no verifying key for its own signatures
    assert_ne!(process_text_verify(b"abc", &hex(SEED), TextSignFormat::Ed25519, &a), Ok(true));
}

#[test]
fn blake3_key_set_holds_the_password_bytes() {
    let keys = blake3_key_set(b"Ab3!Ab3!Ab3!Ab3!Ab3!Ab3!Ab3!Ab3!".to_vec());
    assert_eq!(keys, vec![b"Ab3!Ab3!Ab3!Ab3!Ab3!Ab3!Ab3!Ab3!".to_vec()]);
}

#[test]
fn ed25519_key_set_is_seed_then_public_key() {
    let mut seed = [0u8; 32];
    seed.copy_from_slice(&hex(SEED));
    let keys = ed25519_key_set(&seed);
    assert_eq!(keys, vec![hex(SEED), hex(PUBLIC)]);
    assert!(Ed25519Verifier::try_new(&keys[1]).is_ok());
}

#[test]
fn signature_text_lengths_and_alphabet() {
    let a = process_text_sign(b"hello world", &blake3_key(), TextSignFormat::Blake3).unwrap();
    assert_eq!(a.len(), 43);
    let b = process_text_sign(b"hello world", &hex(SEED), TextSignFormat::Ed25519).unwrap();
    assert_eq!(b.len(), 86);
    for t in [&a, &b] {
        assert!(t.chars().all(|c| c.is_ascii_alphanumeric() || c == '-' || c == '_'));
    }
    assert_eq!(encode_signature(&[1, 2, 3, 4]).len(), 6);
}

#[test]
fn blake3_verify_wrong_lengths_are_false() {
    let key = Blake3::load(&blake3_key()).unwrap();
    let sig = key.sign(b"hello world");
    assert_eq!(key.verify(b"hello world", &sig[..16]), Ok(false));
    assert_eq!(key.verify(b"hello world", &[]), Ok(false));
    let mut long = sig.clone();
    long.extend_from_slice(&sig);
    assert_eq!(key.verify(b"hello world", &long), Ok(false));
}

#[test]
fn ed25519_verify_checks_length_first() {
    let verifier = Ed25519Verifier::load(&hex(PUBLIC)).unwrap();
    assert_eq!(verifier.verify(b"x", &[0u8; 10]), Err(TextError::MalformedSignature));
    assert_eq!(verifier.verify(b"x", &[0u8; 65]), Err(TextError::MalformedSignature));
    assert_eq!(verifier.verify(b"x", &[0u8; 64]), Ok(false));
}
