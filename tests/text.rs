use base64::engine::general_purpose::URL_SAFE_NO_PAD;
use base64::Engine;
use rcli::{
    key_bundle_from_seed, process_text_generate, process_text_sign, process_text_verify, Blake3,
    Ed25519Signer, Ed25519Verifier, KeyArtifact, KeyFormatError, TextError, TextSignFormat,
    TextSigner, TextVerifier,
};

const KEY: &[u8] = b"rcli-blake3-test-key-0123456789!\n";

fn artifact<'a>(bundle: &'a [KeyArtifact], name: &str) -> &'a [u8] {
    &bundle.iter().find(|a| a.name == name).expect("artifact present").bytes
}

#[test]
fn test_process_text_sign() {
    let format = TextSignFormat::Blake3;
    let sig = process_text_sign("hello".as_bytes(), KEY, format).unwrap();
    let ret = process_text_verify("hello".as_bytes(), KEY, &sig, format).unwrap();
    assert!(ret);
}

#[test]
fn test_process_text_verify() {
    let format = TextSignFormat::Blake3;
    let sig = "dtkfDqkEwyVxLxs1vlQBqCML8FxgTu77bBTnNaw_yb8";
    let sig = URL_SAFE_NO_PAD.decode(sig).unwrap();
    let ret = process_text_verify("hello".as_bytes(), KEY, &sig, format).unwrap();
    assert!(ret);
}

#[test]
fn keyed_hash_round_trip_on_several_inputs() {
    for data in [&b""[..], b"a", b"hello world", &[0u8; 2000][..]] {
        let sig = process_text_sign(data, KEY, TextSignFormat::Blake3).unwrap();
        assert_eq!(sig.len(), 32);
        assert_eq!(process_text_verify(data, KEY, &sig, TextSignFormat::Blake3), Ok(true));
    }
}

#[test]
fn keyed_hash_known_answer() {
    let key = [0u8; 32];
    let data = b"hello world";
    let sig = process_text_sign(data, &key, TextSignFormat::Blake3).unwrap();
    assert_eq!(sig, blake3::keyed_hash(&key, data).as_bytes().to_vec());
    let expected: Vec<u8> = (0..32)
        .map(|i| {
            u8::from_str_radix(
                &"f70d67530338246a6522eae9daad92c0dfd4bcf4e511602d96e9afd1d2210479"[2 * i..2 * i + 2],
                16,
            )
            .unwrap()
        })
        .collect();
    assert_eq!(sig, expected);
    assert_eq!(process_text_verify(data, &key, &sig, TextSignFormat::Blake3), Ok(true));
    let mut tampered = sig.clone();
    tampered[31] = tampered[31].wrapping_add(1);
    assert_eq!(process_text_verify(data, &key, &tampered, TextSignFormat::Blake3), Ok(false));
}

#[test]
fn keyed_hash_is_deterministic() {
    let a = process_text_sign(b"same data", KEY, TextSignFormat::Blake3).unwrap();
    let b = process_text_sign(b"same data", KEY, TextSignFormat::Blake3).unwrap();
    assert_eq!(a, b);
}

#[test]
fn different_data_gives_different_signatures() {
    let seed = [7u8; 32];
    for format in [TextSignFormat::Blake3, TextSignFormat::Ed25519] {
        let a = process_text_sign(b"data one", &seed, format).unwrap();
        let b = process_text_sign(b"data two", &seed, format).unwrap();
        assert_ne!(a, b);
    }
}

#[test]
fn keyed_hash_rejects_every_flipped_bit() {
    let sig = process_text_sign(b"payload", KEY, TextSignFormat::Blake3).unwrap();
    for i in 0..32 {
        for bit in 0..8 {
            let mut tampered = sig.clone();
            tampered[i] ^= 1 << bit;
            assert_eq!(
                process_text_verify(b"payload", KEY, &tampered, TextSignFormat::Blake3),
                Ok(false)
            );
        }
    }
}

#[test]
fn ed25519_rejects_flipped_bits() {
    let seed = [42u8; 32];
    let signer = Ed25519Signer::new(seed);
    let public = signer.public_bytes();
    let sig = process_text_sign(b"payload", &seed, TextSignFormat::Ed25519).unwrap();
    assert_eq!(sig.len(), 64);
    assert_eq!(process_text_verify(b"payload", &public, &sig, TextSignFormat::Ed25519), Ok(true));
    for i in 0..64 {
        for bit in 0..8 {
            let mut tampered = sig.clone();
            tampered[i] ^= 1 << bit;
            assert_eq!(
                process_text_verify(b"payload", &public, &tampered, TextSignFormat::Ed25519),
                Ok(false)
            );
        }
    }
}

#[test]
fn ed25519_round_trip_and_determinism() {
    let seed = [1u8; 32];
    let public = Ed25519Signer::new(seed).public_bytes();
    assert_ne!(public, seed);
    for data in [&b""[..], b"hello", &[9u8; 5000][..]] {
        let a = process_text_sign(data, &seed, TextSignFormat::Ed25519).unwrap();
        let b = process_text_sign(data, &seed, TextSignFormat::Ed25519).unwrap();
        assert_eq!(a, b);
        assert_eq!(process_text_verify(data, &public, &a, TextSignFormat::Ed25519), Ok(true));
        assert_eq!(process_text_verify(b"other", &public, &a, TextSignFormat::Ed25519), Ok(false));
    }
}

#[test]
fn key_length_validation() {
    let short = [0u8; 31];
    assert_eq!(Ed25519Signer::try_new(&short).err(), Some(KeyFormatError::InvalidLength));
    assert_eq!(Ed25519Verifier::try_new(&short).err(), Some(KeyFormatError::InvalidLength));
    assert_eq!(Ed25519Signer::try_new(&[0u8; 33]).err(), Some(KeyFormatError::InvalidLength));
    assert_eq!(
        process_text_sign(b"x", &short, TextSignFormat::Ed25519),
        Err(TextError::KeyFormat(KeyFormatError::InvalidLength))
    );
    assert_eq!(Blake3::try_new(&short).err(), Some(KeyFormatError::TooShort));
    assert_eq!(
        process_text_verify(b"x", &short, &[0u8; 32], TextSignFormat::Blake3),
        Err(TextError::KeyFormat(KeyFormatError::TooShort))
    );
    let mut long = [5u8; 33];
    long[32] = b'\n';
    let from_long = process_text_sign(b"x", &long, TextSignFormat::Blake3).unwrap();
    let from_exact = process_text_sign(b"x", &long[..32], TextSignFormat::Blake3).unwrap();
    assert_eq!(from_long, from_exact);
    assert!(Blake3::try_new(&long).is_ok());
}

#[test]
fn ed25519_public_key_must_be_a_point() {
    let mut not_a_point = [0u8; 32];
    not_a_point[0] = 2;
    assert_eq!(Ed25519Verifier::try_new(&not_a_point).err(), Some(KeyFormatError::InvalidEncoding));
    assert_eq!(
        process_text_verify(b"x", &not_a_point, &[0u8; 64], TextSignFormat::Ed25519),
        Err(TextError::KeyFormat(KeyFormatError::InvalidEncoding))
    );
}

#[test]
fn signature_length_is_checked_before_comparing() {
    assert_eq!(
        process_text_verify(b"x", KEY, &[0u8; 31], TextSignFormat::Blake3),
        Err(TextError::SignatureFormat)
    );
    assert_eq!(
        process_text_verify(b"x", KEY, &[0u8; 64], TextSignFormat::Blake3),
        Err(TextError::SignatureFormat)
    );
    let public = Ed25519Signer::new([3u8; 32]).public_bytes();
    assert_eq!(
        process_text_verify(b"x", &public, &[0u8; 32], TextSignFormat::Ed25519),
        Err(TextError::SignatureFormat)
    );
}

#[test]
fn signer_and_verifier_traits() {
    let blake = Blake3::new([8u8; 32]);
    let sig = blake.sign(b"abc");
    assert_eq!(sig, blake3::keyed_hash(&[8u8; 32], b"abc").as_bytes().to_vec());
    assert_eq!(blake.verify(b"abc", &sig), Ok(true));
    assert_eq!(blake.verify(b"abd", &sig), Ok(false));
    let signer = Ed25519Signer::new([4u8; 32]);
    let verifier = Ed25519Verifier::try_new(&signer.public_bytes()).unwrap();
    let sig = signer.sign(b"abc");
    assert_eq!(verifier.verify(b"abc", &sig), Ok(true));
    assert_eq!(verifier.verify(b"abd", &sig), Ok(false));
    assert_eq!(verifier.verify(b"abc", &sig[..63]), Err(TextError::SignatureFormat));
}

#[test]
fn bundle_from_seed() {
    let seed = [11u8; 32];
    let bundle = key_bundle_from_seed(TextSignFormat::Blake3, seed);
    assert_eq!(bundle.len(), 1);
    assert_eq!(bundle[0].name, "blake3.txt");
    assert_eq!(bundle[0].bytes, seed.to_vec());
    let bundle = key_bundle_from_seed(TextSignFormat::Ed25519, seed);
    assert_eq!(bundle.len(), 2);
    assert_eq!(bundle[0].name, "ed25519.sk");
    assert_eq!(bundle[0].bytes, seed.to_vec());
    assert_eq!(bundle[1].name, "ed25519.pk");
    assert_eq!(bundle[1].bytes, Ed25519Signer::new(seed).public_bytes().to_vec());
}

#[test]
fn generated_keyed_hash_key_signs() {
    let a = process_text_generate(TextSignFormat::Blake3).unwrap();
    let b = process_text_generate(TextSignFormat::Blake3).unwrap();
    let key = artifact(&a, "blake3.txt");
    assert_eq!(key.len(), 32);
    assert_ne!(key, artifact(&b, "blake3.txt"));
    let sig = process_text_sign(b"data", key, TextSignFormat::Blake3).unwrap();
    assert_eq!(process_text_verify(b"data", key, &sig, TextSignFormat::Blake3), Ok(true));
}

#[test]
fn generated_ed25519_bundles_pair_up() {
    let a = process_text_generate(TextSignFormat::Ed25519).unwrap();
    let b = process_text_generate(TextSignFormat::Ed25519).unwrap();
    let (sk_a, pk_a) = (artifact(&a, "ed25519.sk"), artifact(&a, "ed25519.pk"));
    let (sk_b, pk_b) = (artifact(&b, "ed25519.sk"), artifact(&b, "ed25519.pk"));
    assert_ne!(sk_a, sk_b);
    assert_eq!(sk_a.len(), 32);
    assert_eq!(pk_a.len(), 32);
    assert!(Ed25519Verifier::try_new(pk_a).is_ok());
    assert!(Ed25519Verifier::try_new(pk_b).is_ok());
    let data = b"generated keys";
    let sig_a = process_text_sign(data, sk_a, TextSignFormat::Ed25519).unwrap();
    let sig_b = process_text_sign(data, sk_b, TextSignFormat::Ed25519).unwrap();
    assert_eq!(process_text_verify(data, pk_a, &sig_a, TextSignFormat::Ed25519), Ok(true));
    assert_eq!(process_text_verify(data, pk_b, &sig_b, TextSignFormat::Ed25519), Ok(true));
    assert_eq!(process_text_verify(data, pk_a, &sig_b, TextSignFormat::Ed25519), Ok(false));
    assert_eq!(process_text_verify(data, pk_b, &sig_a, TextSignFormat::Ed25519), Ok(false));
}

#[test]
fn scheme_generators_name_their_files() {
    let blake = Blake3::generate().unwrap();
    assert_eq!(blake.len(), 1);
    assert_eq!(blake[0].name, "blake3.txt");
    assert_eq!(blake[0].bytes.len(), 32);
    let ed = Ed25519Signer::generate().unwrap();
    assert_eq!(ed.len(), 2);
    assert_eq!(ed[0].name, "ed25519.sk");
    assert_eq!(ed[1].name, "ed25519.pk");
    let seed: [u8; 32] = ed[0].bytes.clone().try_into().unwrap();
    assert_eq!(ed[1].bytes, Ed25519Signer::new(seed).public_bytes().to_vec());
}
