use vstd::prelude::*;

use crate::tx::text_is;

verus! {

/// What the backend answered to a `sethdseed` call.
#[derive(Debug)]
pub enum BackendOutcome {
    /// An ordinary result.
    Success,
    /// The response carried neither a result nor an error, a known client quirk.
    NoErrorOrResult,
    /// The backend refused the call with an RPC error.
    Rpc { code: i64, message: String },
    /// Any other failure of the call, described.
    Other { message: String },
}

/// Why a mnemonic could not be registered.
#[derive(Debug)]
pub enum RegisterError {
    /// The phrase is not a valid English mnemonic.
    InvalidMnemonic,
    /// The first 32 bytes of the derived seed are not a valid secret key.
    InvalidSeedKey,
    /// The backend refused the seed, with this RPC error.
    Rpc { code: i64, message: String },
    /// The call to the backend failed otherwise.
    Backend { message: String },
}

/// Error code the backend gives, with `DUPLICATE_KEY_MESSAGE`, for a seed it already holds.
pub const DUPLICATE_KEY_CODE: i64 = -5;

pub open spec fn duplicate_key_message() -> Seq<char> {
    "Already have this key (either as an HD seed or as a loose private key)"@
}

/// Whether `phrase` is a valid English mnemonic.
pub uninterp spec fn is_english_phrase(phrase: Seq<char>) -> bool;

/// The 64-byte seed of a valid mnemonic, with an empty passphrase.
pub uninterp spec fn phrase_seed(phrase: Seq<char>) -> Seq<u8>;

/// The order of the secp256k1 group, from its high and low 128-bit halves.
pub open spec fn curve_order() -> nat {
    let two_64: nat = 18446744073709551616;
    340282366920938463463374607431768211454nat * two_64 * two_64
        + 248144347276217270074328348468568277313nat
}

/// The bytes read as one big-endian number.
pub open spec fn big_endian_value(b: Seq<u8>) -> nat
    decreases b.len(),
{
    if b.len() == 0 {
        0
    } else {
        big_endian_value(b.drop_last()) * 256 + b.last() as nat
    }
}

/// Whether 32 bytes form a valid secp256k1 secret key: read big-endian, the value is
/// nonzero and below the group order.
pub open spec fn is_secret_key(secret: Seq<u8>) -> bool {
    secret.len() == 32 && 0 < big_endian_value(secret) < curve_order()
}

/// Wallet-import-format text of a secret key, uncompressed, for a test network.
pub uninterp spec fn testnet_wif(secret: Seq<u8>) -> Seq<char>;

/// Relies on bip39's Mnemonic::parse_in (English wordlist) to validate the phrase, and
/// on Mnemonic::to_seed with an empty passphrase for its 64-byte seed.
#[verifier::external_body]
fn mnemonic_seed(phrase: &str) -> (r: Option<Vec<u8>>)
    ensures
        r.is_some() == is_english_phrase(phrase@),
        r matches Some(s) ==> s@ == phrase_seed(phrase@) && s@.len() == 64,
{
    match bip39::Mnemonic::parse_in(bip39::Language::English, phrase) {
        Ok(m) => Some(m.to_seed("").to_vec()),
        Err(_) => None,
    }
}

/// Relies on secp256k1's SecretKey::from_slice, which accepts exactly the valid secret keys, and on bitcoin's
/// PrivateKey::to_wif for its uncompressed test-network encoding.
#[verifier::external_body]
fn secret_wif(secret: &[u8]) -> (r: Option<String>)
    requires
        secret@.len() == 32,
    ensures
        r.is_some() == is_secret_key(secret@),
        r matches Some(w) ==> w@ == testnet_wif(secret@),
{
    match secp256k1::SecretKey::from_slice(secret) {
        Ok(inner) => Some(
            bitcoin::PrivateKey { compressed: false, network: bitcoin::NetworkKind::Test, inner }.to_wif(),
        ),
        Err(_) => None,
    }
}

/// The key material registered for a seed: its first 32 bytes.
pub open spec fn seed_secret_spec(seed: Seq<u8>) -> Seq<u8> {
    seed.subrange(0, 32)
}

/// The key to submit for a phrase, or why there is none.
pub open spec fn request_spec(phrase: Seq<char>) -> Result<Seq<char>, RegisterError> {
    if !is_english_phrase(phrase) {
        Err(RegisterError::InvalidMnemonic)
    } else if !is_secret_key(seed_secret_spec(phrase_seed(phrase))) {
        Err(RegisterError::InvalidSeedKey)
    } else {
        Ok(testnet_wif(seed_secret_spec(phrase_seed(phrase))))
    }
}

/// The first 32 bytes of a seed.
pub fn seed_secret(seed: &Vec<u8>) -> (r: Vec<u8>)
    requires
        seed.len() >= 32,
    ensures
        r@ == seed_secret_spec(seed@),
{
    let mut r: Vec<u8> = Vec::new();
    let mut i: usize = 0;
    while i < 32
        invariant
            i <= 32 <= seed.len(),
            r@ == seed@.subrange(0, i as int),
        decreases 32 - i,
    {
        r.push(seed[i]);
        i = i + 1;
    }
    r
}

/// The wallet-import-format key that registering `mnemonic` submits to the backend as
/// its HD seed.
pub fn register_request(mnemonic: &String) -> (r: Result<String, RegisterError>)
    ensures
        r matches Ok(w) ==> request_spec(mnemonic@) == Ok::<Seq<char>, RegisterError>(w@),
        r matches Err(e) ==> request_spec(mnemonic@) == Err::<Seq<char>, RegisterError>(e),
{
    match mnemonic_seed(mnemonic.as_str()) {
        None => Err(RegisterError::InvalidMnemonic),
        Some(seed) => {
            let secret = seed_secret(&seed);
            match secret_wif(secret.as_slice()) {
                None => Err(RegisterError::InvalidSeedKey),
                Some(w) => Ok(w),
            }
        },
    }
}

/// Whether the backend's answer counts as a registered seed: a plain success, the
/// empty response, or the report that it already holds this key.
pub open spec fn accepted(o: BackendOutcome) -> bool {
    match o {
        BackendOutcome::Success => true,
        BackendOutcome::NoErrorOrResult => true,
        BackendOutcome::Rpc { code, message } => code == DUPLICATE_KEY_CODE && message@
            == duplicate_key_message(),
        BackendOutcome::Other { .. } => false,
    }
}

/// Interprets the backend's answer to `sethdseed`: success when `accepted`, otherwise
/// the backend's error, carried over unchanged.
pub fn register_outcome(outcome: BackendOutcome) -> (r: Result<(), RegisterError>)
    ensures
        r.is_ok() == accepted(outcome),
        r matches Err(e) ==> match outcome {
            BackendOutcome::Rpc { code, message } => e == RegisterError::Rpc { code, message },
            BackendOutcome::Other { message } => e == RegisterError::Backend { message },
            _ => false,
        },
{
    match outcome {
        BackendOutcome::Success => Ok(()),
        BackendOutcome::NoErrorOrResult => Ok(()),
        BackendOutcome::Rpc { code, message } => {
            if code == DUPLICATE_KEY_CODE && text_is(
                &message,
                "Already have this key (either as an HD seed or as a loose private key)",
            ) {
                Ok(())
            } else {
                Err(RegisterError::Rpc { code, message })
            }
        },
        BackendOutcome::Other { message } => Err(RegisterError::Backend { message }),
    }
}

/// Registering is idempotent: for a valid phrase whose seed yields a valid secret key,
/// every registration submits the same key, and the backend's answers to a first and a
/// repeated submission (a plain success, the empty response, or its duplicate-key error)
/// all count as registered.
pub proof fn lemma_register_idempotent(phrase: Seq<char>, duplicate: String)
    requires
        is_english_phrase(phrase),
        is_secret_key(seed_secret_spec(phrase_seed(phrase))),
        duplicate@ == duplicate_key_message(),
    ensures
        request_spec(phrase) == Ok::<Seq<char>, RegisterError>(
            testnet_wif(seed_secret_spec(phrase_seed(phrase))),
        ),
        accepted(BackendOutcome::Success),
        accepted(BackendOutcome::NoErrorOrResult),
        accepted(BackendOutcome::Rpc { code: DUPLICATE_KEY_CODE, message: duplicate }),
{
}

} // verus!
