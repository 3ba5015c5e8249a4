//! The signing engine: key material, the two schemes, and the dispatch on
//! the algorithm tag.
use vstd::prelude::*;
use crate::crypto::{
    blake3_keyed, digests_equal, ed25519_accepts, ed25519_decodes, ed25519_point_valid,
    ed25519_public_key, ed25519_public_of, ed25519_sign, ed25519_signature_of, ed25519_verify,
    keyed_hash, os_random_32,
};

verus! {

/// The algorithm a signature is made or checked with.
#[derive(Clone, Copy, Debug, PartialEq, Eq, Structural)]
pub enum TextSignFormat {
    Blake3,
    Ed25519,
}

/// Key bytes that cannot serve as a key for the chosen algorithm.
#[derive(Clone, Copy, Debug, PartialEq, Eq, Structural)]
pub enum KeyFormatError {
    /// A keyed-hash key shorter than 32 bytes.
    TooShort,
    /// An Ed25519 key that is not exactly 32 bytes long.
    InvalidLength,
    /// An Ed25519 public key whose bytes are no curve point.
    InvalidEncoding,
}

/// Why a sign, verify or generate call failed.
#[derive(Clone, Copy, Debug, PartialEq, Eq, Structural)]
pub enum TextError {
    KeyFormat(KeyFormatError),
    /// A signature of the wrong length for the algorithm.
    SignatureFormat,
    /// The system's random source failed.
    Entropy,
}

/// The key a keyed-hash scheme uses: the first 32 of the raw bytes.
pub open spec fn keyed_hash_key(raw: Seq<u8>) -> Seq<u8> {
    raw.take(32)
}

/// Copies the first 32 bytes of `raw`.
fn first_32(raw: &[u8]) -> (r: [u8; 32])
    requires
        raw@.len() >= 32,
    ensures
        r@ == raw@.take(32),
{
    let mut r = [0u8; 32];
    let mut i: usize = 0;
    while i < 32
        invariant
            raw@.len() >= 32,
            i <= 32,
            forall|j: int| 0 <= j < i ==> r@[j] == raw@[j],
        decreases 32 - i,
    {
        r[i] = raw[i];
        i = i + 1;
    }
    assert(r@ =~= raw@.take(32));
    r
}

/// Something that signs bytes.
pub trait TextSigner {
    /// The signature `sign` gives for `data`.
    spec fn signature_of(&self, data: Seq<u8>) -> Seq<u8>;

    /// Signs the whole of `data`.
    fn sign(&self, data: &[u8]) -> (r: Vec<u8>)
        ensures
            r@ == self.signature_of(data@),
    ;
}

/// Something that checks a signature over bytes.
pub trait TextVerifier {
    /// The only signature length this verifier reads.
    spec fn signature_len(&self) -> nat;

    /// Whether `sig`, of the right length, is a valid signature of `data`.
    spec fn accepts(&self, data: Seq<u8>, sig: Seq<u8>) -> bool;

    /// Checks `sig` against the whole of `data`. A signature of the wrong
    /// length is an error; a mismatch is `Ok(false)`.
    fn verify(&self, data: &[u8], sig: &[u8]) -> (r: Result<bool, TextError>)
        ensures
            sig@.len() != self.signature_len() ==> r == Err::<bool, TextError>(
                TextError::SignatureFormat,
            ),
            sig@.len() == self.signature_len() ==> r == Ok::<bool, TextError>(
                self.accepts(data@, sig@),
            ),
    ;
}

/// The keyed-hash scheme: a 32-byte BLAKE3 key.
pub struct Blake3 {
    key: [u8; 32],
}

impl View for Blake3 {
    type V = Seq<u8>;

    closed spec fn view(&self) -> Seq<u8> {
        self.key@
    }
}

impl Blake3 {
    pub fn new(key: [u8; 32]) -> (r: Blake3)
        ensures
            r@ == key@,
    {
        Blake3 { key }
    }

    /// Takes the first 32 bytes of `key`; longer input is accepted so that
    /// a trailing newline in a key file does no harm.
    pub fn try_new(key: &[u8]) -> (r: Result<Blake3, KeyFormatError>)
        ensures
            key@.len() < 32 ==> r == Err::<Blake3, KeyFormatError>(KeyFormatError::TooShort),
            key@.len() >= 32 ==> r is Ok && r->Ok_0@ == keyed_hash_key(key@),
    {
        if key.len() < 32 {
            Err(KeyFormatError::TooShort)
        } else {
            Ok(Blake3::new(first_32(key)))
        }
    }
}

impl TextSigner for Blake3 {
    open spec fn signature_of(&self, data: Seq<u8>) -> Seq<u8> {
        blake3_keyed(self@, data)
    }

    fn sign(&self, data: &[u8]) -> (r: Vec<u8>)
        ensures
            r@.len() == 32,
    {
        let digest = keyed_hash(&self.key, data);
        vstd::slice::slice_to_vec(digest.as_slice())
    }
}

impl TextVerifier for Blake3 {
    open spec fn signature_len(&self) -> nat {
        32
    }

    open spec fn accepts(&self, data: Seq<u8>, sig: Seq<u8>) -> bool {
        blake3_keyed(self@, data) == sig
    }

    fn verify(&self, data: &[u8], sig: &[u8]) -> (r: Result<bool, TextError>) {
        if sig.len() != 32 {
            return Err(TextError::SignatureFormat);
        }
        let expected = first_32(sig);
        assert(expected@ =~= sig@);
        let digest = keyed_hash(&self.key, data);
        Ok(digests_equal(&digest, &expected))
    }
}

/// The signing side of Ed25519: a 32-byte secret seed, and the public key
/// it expands to.
pub struct Ed25519Signer {
    key: [u8; 32],
    public: [u8; 32],
}

impl View for Ed25519Signer {
    type V = Seq<u8>;

    closed spec fn view(&self) -> Seq<u8> {
        self.key@
    }
}

impl Ed25519Signer {
    /// The public key that belongs to this signer's seed.
    pub closed spec fn public_key(&self) -> Seq<u8> {
        self.public@
    }

    /// Holds the public key for the seed, as computed from it.
    pub closed spec fn wf(&self) -> bool {
        &&& self.public@ == ed25519_public_of(self.key@)
        &&& ed25519_point_valid(self.public@)
    }

    pub fn new(key: [u8; 32]) -> (r: Ed25519Signer)
        ensures
            r@ == key@,
            r.wf(),
            r.public_key() == ed25519_public_of(key@),
    {
        let public = ed25519_public_key(&key);
        Ed25519Signer { key, public }
    }

    /// The seed must be exactly 32 bytes.
    pub fn try_new(key: &[u8]) -> (r: Result<Ed25519Signer, KeyFormatError>)
        ensures
            key@.len() != 32 ==> r == Err::<Ed25519Signer, KeyFormatError>(
                KeyFormatError::InvalidLength,
            ),
            key@.len() == 32 ==> r is Ok && r->Ok_0@ == key@ && r->Ok_0.wf()
                && r->Ok_0.public_key() == ed25519_public_of(key@),
    {
        if key.len() != 32 {
            Err(KeyFormatError::InvalidLength)
        } else {
            let seed = first_32(key);
            assert(seed@ =~= key@);
            Ok(Ed25519Signer::new(seed))
        }
    }

    /// The public key, as bytes.
    pub fn public_bytes(&self) -> (r: [u8; 32])
        ensures
            r@ == self.public_key(),
    {
        self.public
    }
}

impl TextSigner for Ed25519Signer {
    open spec fn signature_of(&self, data: Seq<u8>) -> Seq<u8> {
        ed25519_signature_of(self@, data)
    }

    fn sign(&self, data: &[u8]) -> (r: Vec<u8>)
        ensures
            r@.len() == 64,
            ed25519_accepts(ed25519_public_of(self@), data@, r@),
    {
        let sig = ed25519_sign(&self.key, data);
        vstd::slice::slice_to_vec(sig.as_slice())
    }
}

/// The verifying side of Ed25519: a 32-byte public key that is a curve point.
pub struct Ed25519Verifier {
    key: [u8; 32],
}

impl View for Ed25519Verifier {
    type V = Seq<u8>;

    closed spec fn view(&self) -> Seq<u8> {
        self.key@
    }
}

impl Ed25519Verifier {
    #[verifier::type_invariant]
    closed spec fn inv(&self) -> bool {
        ed25519_point_valid(self.key@)
    }

    pub fn new(key: [u8; 32]) -> (r: Ed25519Verifier)
        requires
            ed25519_point_valid(key@),
        ensures
            r@ == key@,
    {
        Ed25519Verifier { key }
    }

    /// The key must be exactly 32 bytes and decode to a curve point.
    pub fn try_new(key: &[u8]) -> (r: Result<Ed25519Verifier, KeyFormatError>)
        ensures
            key@.len() != 32 ==> r == Err::<Ed25519Verifier, KeyFormatError>(
                KeyFormatError::InvalidLength,
            ),
            key@.len() == 32 && !ed25519_point_valid(key@) ==> r == Err::<
                Ed25519Verifier,
                KeyFormatError,
            >(KeyFormatError::InvalidEncoding),
            key@.len() == 32 && ed25519_point_valid(key@) ==> r is Ok && r->Ok_0@ == key@,
    {
        if key.len() != 32 {
            return Err(KeyFormatError::InvalidLength);
        }
        let public = first_32(key);
        assert(public@ =~= key@);
        if !ed25519_decodes(&public) {
            return Err(KeyFormatError::InvalidEncoding);
        }
        Ok(Ed25519Verifier::new(public))
    }
}

impl TextVerifier for Ed25519Verifier {
    open spec fn signature_len(&self) -> nat {
        64
    }

    open spec fn accepts(&self, data: Seq<u8>, sig: Seq<u8>) -> bool {
        ed25519_accepts(self@, data, sig)
    }

    fn verify(&self, data: &[u8], sig: &[u8]) -> (r: Result<bool, TextError>) {
        if sig.len() != 64 {
            return Err(TextError::SignatureFormat);
        }
        let mut bytes = [0u8; 64];
        let mut i: usize = 0;
        while i < 64
            invariant
                sig@.len() == 64,
                i <= 64,
                forall|j: int| 0 <= j < i ==> bytes@[j] == sig@[j],
            decreases 64 - i,
        {
            bytes[i] = sig[i];
            i = i + 1;
        }
        assert(bytes@ =~= sig@);
        proof {
            use_type_invariant(self);
        }
        Ok(ed25519_verify(&self.key, data, &bytes))
    }
}

/// What signing `data` with the raw key bytes `key` gives.
pub open spec fn sign_spec(data: Seq<u8>, key: Seq<u8>, format: TextSignFormat) -> Result<
    Seq<u8>,
    TextError,
> {
    match format {
        TextSignFormat::Blake3 => if key.len() < 32 {
            Err(TextError::KeyFormat(KeyFormatError::TooShort))
        } else {
            Ok(blake3_keyed(keyed_hash_key(key), data))
        },
        TextSignFormat::Ed25519 => if key.len() != 32 {
            Err(TextError::KeyFormat(KeyFormatError::InvalidLength))
        } else {
            Ok(ed25519_signature_of(key, data))
        },
    }
}

/// What checking `sig` over `data` with the raw key bytes `key` gives: the
/// key is read first, then the signature's length, then the signature itself.
pub open spec fn verify_spec(
    data: Seq<u8>,
    key: Seq<u8>,
    sig: Seq<u8>,
    format: TextSignFormat,
) -> Result<bool, TextError> {
    match format {
        TextSignFormat::Blake3 => if key.len() < 32 {
            Err(TextError::KeyFormat(KeyFormatError::TooShort))
        } else if sig.len() != 32 {
            Err(TextError::SignatureFormat)
        } else {
            Ok(blake3_keyed(keyed_hash_key(key), data) == sig)
        },
        TextSignFormat::Ed25519 => if key.len() != 32 {
            Err(TextError::KeyFormat(KeyFormatError::InvalidLength))
        } else if !ed25519_point_valid(key) {
            Err(TextError::KeyFormat(KeyFormatError::InvalidEncoding))
        } else if sig.len() != 64 {
            Err(TextError::SignatureFormat)
        } else {
            Ok(ed25519_accepts(key, data, sig))
        },
    }
}

/// A signing result, with the signature as a sequence.
pub open spec fn bytes_result(r: Result<Vec<u8>, TextError>) -> Result<Seq<u8>, TextError> {
    match r {
        Ok(v) => Ok(v@),
        Err(e) => Err(e),
    }
}

/// Signs the whole of `data` with `key` under `format`. A signature that
/// comes back is accepted by the matching verification: under the same key
/// for the keyed hash, under the seed's public key for Ed25519.
pub fn process_text_sign(data: &[u8], key: &[u8], format: TextSignFormat) -> (r: Result<
    Vec<u8>,
    TextError,
>)
    ensures
        bytes_result(r) == sign_spec(data@, key@, format),
        r is Ok && format == TextSignFormat::Blake3 ==> verify_spec(
            data@,
            key@,
            r->Ok_0@,
            format,
        ) == Ok::<bool, TextError>(true),
        r is Ok && format == TextSignFormat::Ed25519 ==> verify_spec(
            data@,
            ed25519_public_of(key@),
            r->Ok_0@,
            format,
        ) == Ok::<bool, TextError>(true),
{
    match format {
        TextSignFormat::Blake3 => match Blake3::try_new(key) {
            Ok(signer) => Ok(signer.sign(data)),
            Err(e) => Err(TextError::KeyFormat(e)),
        },
        TextSignFormat::Ed25519 => match Ed25519Signer::try_new(key) {
            Ok(signer) => {
                let sig = signer.sign(data);
                proof {
                    assert(signer.public_key().len() == 32);
                }
                Ok(sig)
            },
            Err(e) => Err(TextError::KeyFormat(e)),
        },
    }
}

/// Checks `sig` over the whole of `data` with `key` under `format`. A key
/// or a signature that is malformed is an error; a mismatch is `Ok(false)`.
pub fn process_text_verify(
    data: &[u8],
    key: &[u8],
    sig: &[u8],
    format: TextSignFormat,
) -> (r: Result<bool, TextError>)
    ensures
        r == verify_spec(data@, key@, sig@, format),
{
    match format {
        TextSignFormat::Blake3 => match Blake3::try_new(key) {
            Ok(verifier) => verifier.verify(data, sig),
            Err(e) => Err(TextError::KeyFormat(e)),
        },
        TextSignFormat::Ed25519 => match Ed25519Verifier::try_new(key) {
            Ok(verifier) => verifier.verify(data, sig),
            Err(e) => Err(TextError::KeyFormat(e)),
        },
    }
}

/// One generated key file: the name it is stored under, and its bytes.
pub struct KeyArtifact {
    pub name: &'static str,
    pub bytes: Vec<u8>,
}

/// Whether `bundle` is the key material `format` derives from the 32-byte
/// random `seed`: the key itself for the keyed hash; the seed and its public
/// key for Ed25519.
pub open spec fn bundle_for_seed(
    format: TextSignFormat,
    seed: Seq<u8>,
    bundle: Seq<KeyArtifact>,
) -> bool {
    match format {
        TextSignFormat::Blake3 => {
            &&& bundle.len() == 1
            &&& bundle[0].name@ == "blake3.txt"@
            &&& bundle[0].bytes@ == seed
        },
        TextSignFormat::Ed25519 => {
            &&& bundle.len() == 2
            &&& bundle[0].name@ == "ed25519.sk"@
            &&& bundle[0].bytes@ == seed
            &&& bundle[1].name@ == "ed25519.pk"@
            &&& bundle[1].bytes@ == ed25519_public_of(seed)
            &&& bundle[1].bytes@.len() == 32
            &&& ed25519_point_valid(bundle[1].bytes@)
        },
    }
}

/// The key material for `format` made from the random bytes `seed`.
pub fn key_bundle_from_seed(format: TextSignFormat, seed: [u8; 32]) -> (r: Vec<KeyArtifact>)
    ensures
        bundle_for_seed(format, seed@, r@),
{
    let mut bundle: Vec<KeyArtifact> = Vec::new();
    match format {
        TextSignFormat::Blake3 => {
            bundle.push(
                KeyArtifact { name: "blake3.txt", bytes: vstd::slice::slice_to_vec(seed.as_slice()) },
            );
        },
        TextSignFormat::Ed25519 => {
            let signer = Ed25519Signer::new(seed);
            let public = signer.public_bytes();
            bundle.push(
                KeyArtifact { name: "ed25519.sk", bytes: vstd::slice::slice_to_vec(seed.as_slice()) },
            );
            bundle.push(
                KeyArtifact {
                    name: "ed25519.pk",
                    bytes: vstd::slice::slice_to_vec(public.as_slice()),
                },
            );
        },
    }
    bundle
}

/// Whether `r` is a possible outcome of generating key material for
/// `format`: the key material made from some 32 random bytes, or the error
/// of a failed random source.
pub open spec fn generated(format: TextSignFormat, r: Result<Vec<KeyArtifact>, TextError>) -> bool {
    match r {
        Ok(bundle) => exists|seed: Seq<u8>|
            seed.len() == 32 && #[trigger] bundle_for_seed(format, seed, bundle@),
        Err(e) => e == TextError::Entropy,
    }
}

/// Draws 32 bytes from the operating system's random source and makes the
/// key material for `format` from them.
fn generate_for(format: TextSignFormat) -> (r: Result<Vec<KeyArtifact>, TextError>)
    ensures
        generated(format, r),
{
    match os_random_32() {
        Ok(seed) => {
            let bundle = key_bundle_from_seed(format, seed);
            let r: Result<Vec<KeyArtifact>, TextError> = Ok(bundle);
            assert(seed@.len() == 32 && bundle_for_seed(format, seed@, r->Ok_0@));
            r
        },
        Err(_) => Err(TextError::Entropy),
    }
}

impl Blake3 {
    /// A fresh random 32-byte key, as the file `blake3.txt`.
    pub fn generate() -> (r: Result<Vec<KeyArtifact>, TextError>)
        ensures
            generated(TextSignFormat::Blake3, r),
    {
        generate_for(TextSignFormat::Blake3)
    }
}

impl Ed25519Signer {
    /// A fresh random seed and its public key, as the files `ed25519.sk`
    /// and `ed25519.pk`.
    pub fn generate() -> (r: Result<Vec<KeyArtifact>, TextError>)
        ensures
            generated(TextSignFormat::Ed25519, r),
    {
        generate_for(TextSignFormat::Ed25519)
    }
}

/// Generates fresh key material for `format` from 32 bytes of the
/// operating system's random source; fails only when that source does.
pub fn process_text_generate(format: TextSignFormat) -> (r: Result<Vec<KeyArtifact>, TextError>)
    ensures
        generated(format, r),
{
    match format {
        TextSignFormat::Blake3 => Blake3::generate(),
        TextSignFormat::Ed25519 => Ed25519Signer::generate(),
    }
}

/// Signing is deterministic: two signing calls on the same data and key,
/// under the same algorithm, give the same result.
pub proof fn lemma_sign_deterministic(
    data: Seq<u8>,
    key: Seq<u8>,
    format: TextSignFormat,
    first: Result<Vec<u8>, TextError>,
    second: Result<Vec<u8>, TextError>,
)
    requires
        bytes_result(first) == sign_spec(data, key, format),
        bytes_result(second) == sign_spec(data, key, format),
    ensures
        bytes_result(first) == bytes_result(second),
{
}

/// A keyed-hash signature, of its 32 bytes, made with a key of at least 32
/// bytes, is accepted when checked over the same data with the same key.
pub proof fn lemma_keyed_hash_round_trip(data: Seq<u8>, key: Seq<u8>, sig: Seq<u8>)
    requires
        key.len() >= 32,
        sign_spec(data, key, TextSignFormat::Blake3) == Ok::<Seq<u8>, TextError>(sig),
        sig.len() == 32,
    ensures
        verify_spec(data, key, sig, TextSignFormat::Blake3) == Ok::<bool, TextError>(true),
{
}

/// A keyed-hash key is its first 32 bytes: bytes after them change neither
/// the signature nor the outcome of a verification.
pub proof fn lemma_keyed_hash_ignores_trailing_bytes(
    data: Seq<u8>,
    key: Seq<u8>,
    extra: Seq<u8>,
    sig: Seq<u8>,
)
    requires
        key.len() == 32,
    ensures
        sign_spec(data, key + extra, TextSignFormat::Blake3) == sign_spec(
            data,
            key,
            TextSignFormat::Blake3,
        ),
        verify_spec(data, key + extra, sig, TextSignFormat::Blake3) == verify_spec(
            data,
            key,
            sig,
            TextSignFormat::Blake3,
        ),
{
    assert((key + extra).take(32) =~= key.take(32));
}

/// Flipping any one bit of a keyed-hash signature makes verification
/// return `Ok(false)`, not an error.
pub proof fn lemma_keyed_hash_rejects_flipped_bit(
    data: Seq<u8>,
    key: Seq<u8>,
    sig: Seq<u8>,
    index: int,
    bit: u8,
)
    requires
        sign_spec(data, key, TextSignFormat::Blake3) == Ok::<Seq<u8>, TextError>(sig),
        sig.len() == 32,
        0 <= index < 32,
        bit < 8,
    ensures
        verify_spec(
            data,
            key,
            sig.update(index, sig[index] ^ (1u8 << bit)),
            TextSignFormat::Blake3,
        ) == Ok::<bool, TextError>(false),
{
    let byte = sig[index];
    assert(byte ^ (1u8 << bit) != byte) by (bit_vector)
        requires
            bit < 8,
    ;
    let tampered = sig.update(index, byte ^ (1u8 << bit));
    assert(tampered[index] != sig[index]);
}

} // verus!
