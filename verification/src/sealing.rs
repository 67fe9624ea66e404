//! Sealing the master key under a recovery phrase, and its text forms.
//!
//! The phrase is stretched with Argon2id into an AES-256 key, under which the
//! master key is encrypted with AES-GCM. Salt, nonce and ciphertext are kept as
//! Base64.
use crate::pinerror::{PinError, PinResult};
use crate::secret::KeyBytes;
use crate::text;
use aes_gcm::aead::Aead;
use aes_gcm::KeyInit;
use base64::Engine;
use rand::RngCore;
use vstd::prelude::*;
use walletd_bip39::prelude::{Mnemonic, MnemonicBuilder};

verus! {

/// What `argon2::Argon2::hash_password_into` produces with Argon2id in version
/// 0x13: the hash, or the text of the error.
pub uninterp spec fn argon2id_hash(
    password: Seq<u8>,
    salt: Seq<u8>,
    memory_kib: u32,
    passes: u32,
    lanes: u32,
    length: usize,
) -> Result<Seq<u8>, Seq<char>>;

/// `argon2::Argon2::hash_password_into` with Argon2id in version 0x13, and with
/// the given cost parameters and output length. It succeeds unless the salt has
/// fewer than 8 bytes, or the salt or the password has more than 2^32 - 1, and
/// then produces as many bytes as were asked for.
#[verifier::external_body]
fn argon2id(
    password: &[u8],
    salt: &[u8],
    memory_kib: u32,
    passes: u32,
    lanes: u32,
    length: usize,
) -> (r: Result<Vec<u8>, String>)
    requires
        1 <= lanes <= 0xFF,
        8 * lanes <= memory_kib <= 0x10_0000,
        1 <= passes,
        4 <= length <= 0x400,
    ensures
        match r {
            Ok(hash) => argon2id_hash(password@, salt@, memory_kib, passes, lanes, length) == Ok::<
                Seq<u8>,
                Seq<char>,
            >(hash@) && hash@.len() == length,
            Err(e) => argon2id_hash(password@, salt@, memory_kib, passes, lanes, length) == Err::<
                Seq<u8>,
                Seq<char>,
            >(e@),
        },
        r is Ok == (8 <= salt@.len() <= 0xFFFF_FFFF && password@.len() <= 0xFFFF_FFFF),
{
    let params = match argon2::Params::new(memory_kib, passes, lanes, Some(length)) {
        Ok(params) => params,
        Err(e) => return Err(e.to_string()),
    };
    let mut out = vec![0u8; length];
    match argon2::Argon2::new(argon2::Algorithm::Argon2id, argon2::Version::V0x13, params)
        .hash_password_into(password, salt, &mut out) {
        Ok(()) => Ok(out),
        Err(e) => Err(e.to_string()),
    }
}

/// What AES-256-GCM encryption produces: the ciphertext with its tag, or the
/// text of the error.
pub uninterp spec fn gcm_encrypted(key: Seq<u8>, nonce: Seq<u8>, plaintext: Seq<u8>) -> Result<
    Seq<u8>,
    Seq<char>,
>;

/// What AES-256-GCM decryption produces: the plaintext, or the text of the
/// error.
pub uninterp spec fn gcm_decrypted(key: Seq<u8>, nonce: Seq<u8>, ciphertext: Seq<u8>) -> Result<
    Seq<u8>,
    Seq<char>,
>;

/// `encrypt` of `aes_gcm::Aes256Gcm` without associated data. The ciphertext is
/// as long as the plaintext and the tag of 16 bytes together, and decrypting it
/// under the same key and nonce gives the plaintext back.
#[verifier::external_body]
fn gcm_encrypt(key: &[u8], nonce: &[u8], plaintext: &[u8]) -> (r: Result<Vec<u8>, String>)
    requires
        nonce@.len() == 12,
    ensures
        match r {
            Ok(c) => gcm_encrypted(key@, nonce@, plaintext@) == Ok::<Seq<u8>, Seq<char>>(c@)
                && c@.len() == plaintext@.len() + 16 && gcm_decrypted(key@, nonce@, c@) == Ok::<
                Seq<u8>,
                Seq<char>,
            >(plaintext@),
            Err(e) => gcm_encrypted(key@, nonce@, plaintext@) == Err::<Seq<u8>, Seq<char>>(e@),
        },
        r is Ok == (key@.len() == 32 && plaintext@.len() <= 0x10_0000_0000),
{
    let cipher = match aes_gcm::Aes256Gcm::new_from_slice(key) {
        Ok(cipher) => cipher,
        Err(e) => return Err(e.to_string()),
    };
    match cipher.encrypt(aes_gcm::Nonce::from_slice(nonce), plaintext) {
        Ok(ciphertext) => Ok(ciphertext),
        Err(e) => Err(e.to_string()),
    }
}

/// `decrypt` of `aes_gcm::Aes256Gcm` without associated data.
#[verifier::external_body]
fn gcm_decrypt(key: &[u8], nonce: &[u8], ciphertext: &[u8]) -> (r: Result<Vec<u8>, String>)
    requires
        nonce@.len() == 12,
    ensures
        match r {
            Ok(p) => gcm_decrypted(key@, nonce@, ciphertext@) == Ok::<Seq<u8>, Seq<char>>(p@),
            Err(e) => gcm_decrypted(key@, nonce@, ciphertext@) == Err::<Seq<u8>, Seq<char>>(e@),
        },
{
    let cipher = match aes_gcm::Aes256Gcm::new_from_slice(key) {
        Ok(cipher) => cipher,
        Err(e) => return Err(e.to_string()),
    };
    match cipher.decrypt(aes_gcm::Nonce::from_slice(nonce), ciphertext) {
        Ok(plaintext) => Ok(plaintext),
        Err(e) => Err(e.to_string()),
    }
}

/// The Base64 form of some bytes, with the standard alphabet and padding.
pub uninterp spec fn base64_encoded(data: Seq<u8>) -> Seq<char>;

/// What a text in Base64 stands for, or the text of the error.
pub uninterp spec fn base64_decoded(t: Seq<char>) -> Result<Seq<u8>, Seq<char>>;

/// `encode` of the engine `base64::engine::general_purpose::STANDARD`. Decoding
/// the text gives the bytes back.
#[verifier::external_body]
fn base64_encode(data: &[u8]) -> (r: String)
    requires
        data@.len() <= 0x1000_0000,
    ensures
        r@ == base64_encoded(data@),
        base64_decoded(r@) is Ok && base64_decoded(r@)->Ok_0 == data@,
{
    base64::engine::general_purpose::STANDARD.encode(data)
}

/// `decode` of the engine `base64::engine::general_purpose::STANDARD`.
#[verifier::external_body]
fn base64_decode(t: &str) -> (r: Result<Vec<u8>, String>)
    ensures
        match r {
            Ok(data) => base64_decoded(t@) == Ok::<Seq<u8>, Seq<char>>(data@),
            Err(e) => base64_decoded(t@) == Err::<Seq<u8>, Seq<char>>(e@),
        },
{
    match base64::engine::general_purpose::STANDARD.decode(t.as_bytes()) {
        Ok(data) => Ok(data),
        Err(e) => Err(e.to_string()),
    }
}

/// `rand::rngs::OsRng::try_fill_bytes` fills a buffer from the random number
/// generator of the operating system, which can fail.
#[verifier::external_body]
fn random_bytes(n: usize) -> (r: Result<Vec<u8>, String>)
    ensures
        r matches Ok(bytes) ==> bytes@.len() == n,
{
    let mut bytes = vec![0u8; n];
    match rand::rngs::OsRng.try_fill_bytes(&mut bytes) {
        Ok(()) => Ok(bytes),
        Err(e) => Err(e.to_string()),
    }
}

/// `build` of the builder of `walletd_bip39::Bip39Mnemonic`, for a new English
/// mnemonic of 24 words. The words are chosen at random.
#[verifier::external_body]
fn random_phrase() -> (r: Result<String, String>)
    ensures
        r matches Ok(phrase) ==> text::words(phrase@).len() == 24,
{
    match walletd_bip39::Bip39Mnemonic::builder()
        .language(walletd_bip39::Bip39Language::English)
        .mnemonic_type(walletd_bip39::Bip39MnemonicType::Words24)
        .build() {
        Ok(mnemonic) => Ok(mnemonic.phrase()),
        Err(e) => Err(e.to_string()),
    }
}

/// True of what a draw of `n` bytes from the random number generator of the
/// operating system can have returned.
pub closed spec fn drawn(n: usize, bytes: Result<Seq<u8>, Seq<char>>) -> bool {
    exists|r: Result<Vec<u8>, String>| #[trigger]
        call_ensures(random_bytes, (n,), r) && bytes == bytes_result(r)
}

/// True of what a draw of a mnemonic can have returned.
pub closed spec fn drawn_phrase(phrase: Result<Seq<char>, Seq<char>>) -> bool {
    exists|r: Result<String, String>| #[trigger]
        call_ensures(random_phrase, (), r) && phrase == (match r {
            Ok(p) => Ok::<Seq<char>, Seq<char>>(p@),
            Err(e) => Err(e@),
        })
}

/// The hexadecimal digit of value `d`, in lower case.
pub open spec fn hex_digit(d: u8) -> char {
    if d < 10 {
        ('0' as u32 + d) as char
    } else {
        ('a' as u32 + d - 10) as char
    }
}

/// The hexadecimal form of some bytes: two lower-case digits for each.
pub open spec fn hex_text(data: Seq<u8>) -> Seq<char> {
    Seq::new(
        2 * data.len(),
        |i: int|
            if i % 2 == 0 {
                hex_digit((data[i / 2] / 16) as u8)
            } else {
                hex_digit((data[i / 2] % 16) as u8)
            },
    )
}

/// `hex::encode` writes each byte as two lower-case hexadecimal digits, the
/// higher first.
#[verifier::external_body]
pub(crate) fn hex_encode(data: &[u8]) -> (r: String)
    requires
        data@.len() <= 0x1000_0000,
    ensures
        r@ == hex_text(data@),
{
    hex::encode(data)
}

/// True of a hexadecimal digit in lower case.
pub open spec fn lower_hex(c: char) -> bool {
    '0' <= c <= '9' || 'a' <= c <= 'f'
}

/// The hexadecimal form has two characters for each byte, and all of them are
/// lower-case digits.
pub proof fn law_hex_text(data: Seq<u8>)
    ensures
        hex_text(data).len() == 2 * data.len(),
        forall|i: int| 0 <= i < hex_text(data).len() ==> lower_hex(#[trigger] hex_text(data)[i]),
{
    assert forall|i: int| 0 <= i < hex_text(data).len() implies lower_hex(
        #[trigger] hex_text(data)[i],
    ) by {
        let b = data[i / 2];
        assert(b / 16 < 16 && b % 16 < 16);
    }
}

/// The version of the sealed file.
pub const SEALED_FILE_VERSION: u32 = 1;

/// Number of bytes in the master key.
pub const HMAC_KEY_LEN: usize = 32;

/// Number of bytes in the salt.
pub const SALT_LEN: usize = 16;

/// Number of bytes in the nonce.
pub const NONCE_LEN: usize = 12;

/// Memory that stretching the phrase takes, in KiB.
pub const ARGON2_MEMORY_KIB: u32 = 32768;

/// Passes over that memory.
pub const ARGON2_PASSES: u32 = 3;

/// Lanes in that memory.
pub const ARGON2_LANES: u32 = 1;

/// Why an operation on the master key is refused.
#[derive(Debug, Clone, Copy, PartialEq, Eq, Structural)]
pub enum Refusal {
    SealedFileExists,
    ParentPresent,
    KeyPresent,
    NoSealedFile,
    UnexpectedLength,
    KeyExists,
    UnsupportedVersion,
    InvalidNonceLength,
}

/// The key of the localised message for a refusal.
pub open spec fn refusal_key(r: Refusal) -> Seq<char> {
    match r {
        Refusal::SealedFileExists => "mk_sealed_file_already_exists"@,
        Refusal::ParentPresent => "mk_rsa_parent_already_present_refuse_import"@,
        Refusal::KeyPresent => "mk_hmac_handle_already_present_refuse_import"@,
        Refusal::NoSealedFile => "mk_sealed_file_not_present"@,
        Refusal::UnexpectedLength => "mk_sealed_data_unexpected_length"@,
        Refusal::KeyExists => "mk_hmac_handle_already_exists"@,
        Refusal::UnsupportedVersion => "mk_unsupported_sealed_file_version"@,
        Refusal::InvalidNonceLength => "mk_invalid_nonce_length"@,
    }
}

impl Refusal {
    /// The key of the localised message.
    pub fn key(&self) -> (r: &'static str)
        ensures
            r@ == refusal_key(*self),
    {
        match self {
            Refusal::SealedFileExists => "mk_sealed_file_already_exists",
            Refusal::ParentPresent => "mk_rsa_parent_already_present_refuse_import",
            Refusal::KeyPresent => "mk_hmac_handle_already_present_refuse_import",
            Refusal::NoSealedFile => "mk_sealed_file_not_present",
            Refusal::UnexpectedLength => "mk_sealed_data_unexpected_length",
            Refusal::KeyExists => "mk_hmac_handle_already_exists",
            Refusal::UnsupportedVersion => "mk_unsupported_sealed_file_version",
            Refusal::InvalidNonceLength => "mk_invalid_nonce_length",
        }
    }

    /// True if the refusal counts as a TPM error; it counts as an I/O error
    /// otherwise.
    pub fn is_tpm_error(&self) -> (b: bool)
        ensures
            b == (*self == Refusal::ParentPresent || *self == Refusal::KeyPresent || *self
                == Refusal::KeyExists),
    {
        *self == Refusal::ParentPresent || *self == Refusal::KeyPresent || *self
            == Refusal::KeyExists
    }
}

/// What can go wrong with the master key. A refusal counts as a TPM or an I/O
/// error with its localised message as text.
#[derive(Debug)]
pub enum MasterKeyError<S = String> {
    Pin(PinError<S>),
    Refused(Refusal),
}

impl View for MasterKeyError<String> {
    type V = MasterKeyError<Seq<char>>;

    open spec fn view(&self) -> MasterKeyError<Seq<char>> {
        match *self {
            MasterKeyError::Pin(e) => MasterKeyError::Pin(e@),
            MasterKeyError::Refused(r) => MasterKeyError::Refused(r),
        }
    }
}

pub type KeyFailure = MasterKeyError<Seq<char>>;

/// The file that holds the master key sealed under the recovery phrase.
#[derive(Debug)]
pub struct SealedMasterKeyFile<S = String> {
    pub version: u32,
    pub created_unix_ms: u64,
    pub salt_b64: S,
    pub nonce_b64: S,
    pub ciphertext_b64: S,
}

impl View for SealedMasterKeyFile<String> {
    type V = SealedMasterKeyFile<Seq<char>>;

    open spec fn view(&self) -> SealedMasterKeyFile<Seq<char>> {
        SealedMasterKeyFile {
            version: self.version,
            created_unix_ms: self.created_unix_ms,
            salt_b64: self.salt_b64@,
            nonce_b64: self.nonce_b64@,
            ciphertext_b64: self.ciphertext_b64@,
        }
    }
}

/// An I/O error with the given text.
pub open spec fn io_failure(e: Seq<char>) -> KeyFailure {
    MasterKeyError::Pin(PinError::IoError(e))
}

fn io_error(e: String) -> (r: MasterKeyError)
    ensures
        r@ == io_failure(e@),
{
    MasterKeyError::Pin(PinError::IoError(e))
}

/// The AES key for a phrase and a salt.
pub open spec fn aes_key(phrase: Seq<char>, salt: Seq<u8>) -> Result<Seq<u8>, Seq<char>> {
    argon2id_hash(
        vstd::utf8::encode_utf8(phrase),
        salt,
        ARGON2_MEMORY_KIB,
        ARGON2_PASSES,
        ARGON2_LANES,
        HMAC_KEY_LEN,
    )
}

/// The file that seals a key under a phrase, with the given salt and nonce.
pub open spec fn sealed(
    key: Seq<u8>,
    phrase: Seq<char>,
    created_unix_ms: u64,
    salt: Seq<u8>,
    nonce: Seq<u8>,
) -> Result<SealedMasterKeyFile<Seq<char>>, KeyFailure> {
    match aes_key(phrase, salt) {
        Err(e) => Err(io_failure(e)),
        Ok(k) => match gcm_encrypted(k, nonce, key) {
            Err(e) => Err(io_failure(e)),
            Ok(c) => Ok(
                SealedMasterKeyFile {
                    version: SEALED_FILE_VERSION,
                    created_unix_ms,
                    salt_b64: base64_encoded(salt),
                    nonce_b64: base64_encoded(nonce),
                    ciphertext_b64: base64_encoded(c),
                },
            ),
        },
    }
}

/// Salt, nonce and ciphertext of a file, given what their texts decode to.
pub open spec fn parts_of(
    version: u32,
    salt: Result<Seq<u8>, Seq<char>>,
    nonce: Result<Seq<u8>, Seq<char>>,
    ciphertext: Result<Seq<u8>, Seq<char>>,
) -> Result<(Seq<u8>, Seq<u8>, Seq<u8>), KeyFailure> {
    if version != SEALED_FILE_VERSION {
        Err(MasterKeyError::Refused(Refusal::UnsupportedVersion))
    } else {
        match (salt, nonce, ciphertext) {
            (Err(e), _, _) => Err(io_failure(e)),
            (_, Err(e), _) => Err(io_failure(e)),
            (_, _, Err(e)) => Err(io_failure(e)),
            (Ok(s), Ok(n), Ok(c)) => if n.len() != NONCE_LEN {
                Err(MasterKeyError::Refused(Refusal::InvalidNonceLength))
            } else {
                Ok((s, n, c))
            },
        }
    }
}

/// The key that a file holds, as far as the phrase reveals it.
pub open spec fn unsealed(phrase: Seq<char>, file: SealedMasterKeyFile<Seq<char>>) -> Result<
    Seq<u8>,
    KeyFailure,
> {
    match parts_of(
        file.version,
        base64_decoded(file.salt_b64),
        base64_decoded(file.nonce_b64),
        base64_decoded(file.ciphertext_b64),
    ) {
        Err(e) => Err(e),
        Ok((salt, nonce, ciphertext)) => match aes_key(phrase, salt) {
            Err(e) => Err(io_failure(e)),
            Ok(k) => match gcm_decrypted(k, nonce, ciphertext) {
                Err(e) => Err(io_failure(e)),
                Ok(key) => Ok(key),
            },
        },
    }
}

/// Stretches a phrase into an AES key.
pub fn derive_aes_key_from_phrase(phrase: &str, salt: &[u8]) -> (r: Result<KeyBytes, String>)
    ensures
        match r {
            Ok(k) => aes_key(phrase@, salt@) == Ok::<Seq<u8>, Seq<char>>(k@) && k@.len() == 32,
            Err(e) => aes_key(phrase@, salt@) == Err::<Seq<u8>, Seq<char>>(e@),
        },
        r is Ok == (8 <= salt@.len() <= 0xFFFF_FFFF && vstd::utf8::encode_utf8(phrase@).len()
            <= 0xFFFF_FFFF),
{
    match argon2id(
        phrase.as_bytes(),
        salt,
        ARGON2_MEMORY_KIB,
        ARGON2_PASSES,
        ARGON2_LANES,
        HMAC_KEY_LEN,
    ) {
        Ok(k) => Ok(KeyBytes::new(k)),
        Err(e) => Err(e),
    }
}

/// Seals the master key under a recovery phrase. Unsealing the file with the
/// same phrase gives the key back.
pub fn seal_key_bytes(
    key: &[u8],
    phrase: &str,
    created_unix_ms: u64,
    salt: &[u8],
    nonce: &[u8],
) -> (r: Result<SealedMasterKeyFile, MasterKeyError>)
    requires
        key@.len() == HMAC_KEY_LEN,
        salt@.len() == SALT_LEN,
        nonce@.len() == NONCE_LEN,
    ensures
        match r {
            Ok(file) => sealed(key@, phrase@, created_unix_ms, salt@, nonce@) == Ok::<
                SealedMasterKeyFile<Seq<char>>,
                KeyFailure,
            >(file@) && unsealed(phrase@, file@) == Ok::<Seq<u8>, KeyFailure>(key@),
            Err(e) => sealed(key@, phrase@, created_unix_ms, salt@, nonce@) == Err::<
                SealedMasterKeyFile<Seq<char>>,
                KeyFailure,
            >(e@),
        },
        r is Ok == (vstd::utf8::encode_utf8(phrase@).len() <= 0xFFFF_FFFF),
{
    let k = match derive_aes_key_from_phrase(phrase, salt) {
        Ok(k) => k,
        Err(e) => return Err(io_error(e)),
    };
    let ciphertext = match gcm_encrypt(k.as_slice(), nonce, key) {
        Ok(c) => c,
        Err(e) => return Err(io_error(e)),
    };
    Ok(
        SealedMasterKeyFile {
            version: SEALED_FILE_VERSION,
            created_unix_ms,
            salt_b64: base64_encode(salt),
            nonce_b64: base64_encode(nonce),
            ciphertext_b64: base64_encode(ciphertext.as_slice()),
        },
    )
}

pub open spec fn bytes_result(r: Result<Vec<u8>, String>) -> Result<Seq<u8>, Seq<char>> {
    match r {
        Ok(b) => Ok(b@),
        Err(e) => Err(e@),
    }
}

/// Salt, nonce and ciphertext of a file, given what their texts decode to.
pub fn sealed_parts(
    version: u32,
    salt: Result<Vec<u8>, String>,
    nonce: Result<Vec<u8>, String>,
    ciphertext: Result<Vec<u8>, String>,
) -> (r: Result<(Vec<u8>, Vec<u8>, Vec<u8>), MasterKeyError>)
    ensures
        ({
            let parts = parts_of(
                version,
                bytes_result(salt),
                bytes_result(nonce),
                bytes_result(ciphertext),
            );
            match r {
                Ok((s, n, c)) => parts == Ok::<(Seq<u8>, Seq<u8>, Seq<u8>), KeyFailure>(
                    (s@, n@, c@),
                ) && n@.len() == NONCE_LEN,
                Err(e) => parts == Err::<(Seq<u8>, Seq<u8>, Seq<u8>), KeyFailure>(e@),
            }
        }),
{
    if version != SEALED_FILE_VERSION {
        return Err(MasterKeyError::Refused(Refusal::UnsupportedVersion));
    }
    let salt = match salt {
        Ok(s) => s,
        Err(e) => return Err(io_error(e)),
    };
    let nonce = match nonce {
        Ok(n) => n,
        Err(e) => return Err(io_error(e)),
    };
    let ciphertext = match ciphertext {
        Ok(c) => c,
        Err(e) => return Err(io_error(e)),
    };
    if nonce.len() != NONCE_LEN {
        return Err(MasterKeyError::Refused(Refusal::InvalidNonceLength));
    }
    Ok((salt, nonce, ciphertext))
}

/// Recovers the master key from a file with the recovery phrase.
pub fn unseal_key_bytes(phrase: &str, file: &SealedMasterKeyFile) -> (r: Result<
    KeyBytes,
    MasterKeyError,
>)
    ensures
        match r {
            Ok(key) => unsealed(phrase@, file@) == Ok::<Seq<u8>, KeyFailure>(key@),
            Err(e) => unsealed(phrase@, file@) == Err::<Seq<u8>, KeyFailure>(e@),
        },
{
    let salt = base64_decode(file.salt_b64.as_str());
    let nonce = base64_decode(file.nonce_b64.as_str());
    let ciphertext = base64_decode(file.ciphertext_b64.as_str());
    let (salt, nonce, ciphertext) = match sealed_parts(file.version, salt, nonce, ciphertext) {
        Ok(parts) => parts,
        Err(e) => return Err(e),
    };
    let k = match derive_aes_key_from_phrase(phrase, salt.as_slice()) {
        Ok(k) => k,
        Err(e) => return Err(io_error(e)),
    };
    match gcm_decrypt(k.as_slice(), nonce.as_slice(), ciphertext.as_slice()) {
        Ok(key) => Ok(KeyBytes::new(key)),
        Err(e) => Err(io_error(e)),
    }
}

/// A new recovery phrase: the words that were drawn. It fails only if the draw does.
pub fn generate_recovery_phrase() -> (r: PinResult<String>)
    ensures
        match r {
            Ok(phrase) => drawn_phrase(Ok(phrase@)) && text::words(phrase@).len() == 24,
            Err(e) => e@ matches PinError::IoError(why) && drawn_phrase(Err(why)),
        },
{
    match random_phrase() {
        Ok(phrase) => Ok(phrase),
        Err(e) => Err(PinError::IoError(e)),
    }
}

/// What a new master key is made of: the key, the phrase that recovers it, and
/// the salt and the nonce under which it is sealed.
pub struct MasterSecrets {
    pub key: KeyBytes,
    pub phrase: String,
    pub salt: Vec<u8>,
    pub nonce: Vec<u8>,
}

/// Secrets as the specifications speak of them.
pub struct Secrets {
    pub key: Seq<u8>,
    pub phrase: Seq<char>,
    pub salt: Seq<u8>,
    pub nonce: Seq<u8>,
}

impl View for MasterSecrets {
    type V = Secrets;

    open spec fn view(&self) -> Secrets {
        Secrets {
            key: self.key@,
            phrase: self.phrase@,
            salt: self.salt@,
            nonce: self.nonce@,
        }
    }
}

impl Secrets {
    /// True if everything has the length that it is to have.
    pub open spec fn well_formed(self) -> bool {
        &&& self.key.len() == HMAC_KEY_LEN
        &&& self.salt.len() == SALT_LEN
        &&& self.nonce.len() == NONCE_LEN
    }
}

impl MasterSecrets {
    /// Draws new secrets: the key, the phrase, the salt and the nonce each by a draw
    /// of its own. It fails only if one of the draws does.
    pub fn draw() -> (r: PinResult<MasterSecrets>)
        ensures
            match r {
                Ok(s) => {
                    &&& s@.well_formed()
                    &&& text::words(s@.phrase).len() == 24
                    &&& drawn(HMAC_KEY_LEN, Ok(s@.key))
                    &&& drawn_phrase(Ok(s@.phrase))
                    &&& drawn(SALT_LEN, Ok(s@.salt))
                    &&& drawn(NONCE_LEN, Ok(s@.nonce))
                },
                Err(e) => e@ matches PinError::IoError(why) && {
                    ||| drawn(HMAC_KEY_LEN, Err(why))
                    ||| drawn_phrase(Err(why))
                    ||| drawn(SALT_LEN, Err(why))
                    ||| drawn(NONCE_LEN, Err(why))
                },
            },
    {
        let key = match random_bytes(HMAC_KEY_LEN) {
            Ok(key) => KeyBytes::new(key),
            Err(e) => return Err(PinError::IoError(e)),
        };
        let phrase = match generate_recovery_phrase() {
            Ok(phrase) => phrase,
            Err(e) => return Err(e),
        };
        let salt = match random_bytes(SALT_LEN) {
            Ok(salt) => salt,
            Err(e) => return Err(PinError::IoError(e)),
        };
        let nonce = match random_bytes(NONCE_LEN) {
            Ok(nonce) => nonce,
            Err(e) => return Err(PinError::IoError(e)),
        };
        Ok(MasterSecrets { key, phrase, salt, nonce })
    }

    /// True if everything has the length that it is to have.
    pub fn is_well_formed(&self) -> (b: bool)
        ensures
            b == self@.well_formed(),
    {
        self.key.as_slice().len() == HMAC_KEY_LEN && self.salt.len() == SALT_LEN
            && self.nonce.len() == NONCE_LEN
    }
}

/// What was drawn can be used if the key has 32 bytes, the salt 16 and the nonce 12.
pub proof fn law_lengths(s: Secrets)
    ensures
        s.well_formed() <==> s.key.len() == 32 && s.salt.len() == 16 && s.nonce.len() == 12,
{
}

/// A sealed file is of the first version, bears the time, holds the salt and the nonce as
/// they were given, and holds the key encrypted under what the phrase and that salt are
/// stretched into.
pub proof fn law_sealed_file(
    key: Seq<u8>,
    phrase: Seq<char>,
    created_unix_ms: u64,
    salt: Seq<u8>,
    nonce: Seq<u8>,
    file: SealedMasterKeyFile<Seq<char>>,
)
    requires
        sealed(key, phrase, created_unix_ms, salt, nonce) == Ok::<
            SealedMasterKeyFile<Seq<char>>,
            KeyFailure,
        >(file),
    ensures
        file.version == 1,
        file.created_unix_ms == created_unix_ms,
        file.salt_b64 == base64_encoded(salt),
        file.nonce_b64 == base64_encoded(nonce),
        argon2id_hash(vstd::utf8::encode_utf8(phrase), salt, 32768, 3, 1, 32) matches Ok(k) && (
        gcm_encrypted(k, nonce, key) matches Ok(c) && file.ciphertext_b64 == base64_encoded(c)),
{
}

/// A file of the first version whose three parts can be decoded and whose nonce has 12
/// bytes holds what its ciphertext decrypts to, under what the phrase and the salt are
/// stretched into. Any other file holds nothing.
pub proof fn law_unsealing(phrase: Seq<char>, file: SealedMasterKeyFile<Seq<char>>)
    ensures
        match unsealed(phrase, file) {
            Ok(key) => {
                &&& file.version == 1
                &&& base64_decoded(file.salt_b64) matches Ok(salt) && {
                    &&& argon2id_hash(vstd::utf8::encode_utf8(phrase), salt, 32768, 3, 1, 32) matches Ok(k) && {
                        &&& base64_decoded(file.nonce_b64) matches Ok(nonce) && nonce.len() == 12 && {
                            &&& base64_decoded(file.ciphertext_b64) matches Ok(c) && gcm_decrypted(
                                k,
                                nonce,
                                c,
                            ) == Ok::<Seq<u8>, Seq<char>>(key)
                        }
                    }
                }
            },
            Err(MasterKeyError::Refused(Refusal::UnsupportedVersion)) => file.version != 1,
            Err(MasterKeyError::Refused(Refusal::InvalidNonceLength)) => file.version == 1
                && base64_decoded(file.salt_b64) is Ok && base64_decoded(file.ciphertext_b64) is Ok
                && (base64_decoded(file.nonce_b64) matches Ok(nonce) && nonce.len() != 12),
            Err(MasterKeyError::Refused(_)) => false,
            Err(MasterKeyError::Pin(e)) => {
                &&& file.version == 1
                &&& e matches PinError::IoError(why) && match base64_decoded(file.salt_b64) {
                    Err(x) => why == x,
                    Ok(salt) => match base64_decoded(file.nonce_b64) {
                        Err(x) => why == x,
                        Ok(nonce) => match base64_decoded(file.ciphertext_b64) {
                            Err(x) => why == x,
                            Ok(c) => nonce.len() == 12 && match argon2id_hash(
                                vstd::utf8::encode_utf8(phrase),
                                salt,
                                32768,
                                3,
                                1,
                                32,
                            ) {
                                Err(x) => why == x,
                                Ok(k) => gcm_decrypted(k, nonce, c) == Err::<Seq<u8>, Seq<char>>(
                                    why,
                                ),
                            },
                        },
                    },
                }
            },
        },
{
}

/// Each refusal has a message of its own.
pub proof fn law_refusal_messages(r: Refusal)
    ensures
        match r {
            Refusal::SealedFileExists => refusal_key(r) == "mk_sealed_file_already_exists"@,
            Refusal::ParentPresent => refusal_key(r)
                == "mk_rsa_parent_already_present_refuse_import"@,
            Refusal::KeyPresent => refusal_key(r)
                == "mk_hmac_handle_already_present_refuse_import"@,
            Refusal::NoSealedFile => refusal_key(r) == "mk_sealed_file_not_present"@,
            Refusal::UnexpectedLength => refusal_key(r) == "mk_sealed_data_unexpected_length"@,
            Refusal::KeyExists => refusal_key(r) == "mk_hmac_handle_already_exists"@,
            Refusal::UnsupportedVersion => refusal_key(r)
                == "mk_unsupported_sealed_file_version"@,
            Refusal::InvalidNonceLength => refusal_key(r) == "mk_invalid_nonce_length"@,
        },
{
}

} // verus!
