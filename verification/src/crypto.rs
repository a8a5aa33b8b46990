//! Password-protected account files: key derivation, AES-256-GCM sealing and
//! opening, and the base64 text that carries the bytes.
use vstd::prelude::*;
use aes_gcm::aead::{Aead, KeyInit};
use base64::Engine;
use rand::RngCore;

verus! {

/// PBKDF2 rounds used to turn a password into a key.
pub const PBKDF2_ITERS: u32 = 100_000;

/// Bytes of random salt in a new file.
pub const SALT_LEN: usize = 16;

/// Bytes of nonce that AES-256-GCM takes.
pub const NONCE_LEN: usize = 12;

/// Bytes of an AES-256 key.
pub const KEY_LEN: usize = 32;

/// Bytes of the authentication tag that AES-GCM appends.
pub const TAG_LEN: usize = 16;

/// The format version written into new files.
pub const FORMAT_VERSION: u32 = 2;

/// The longest plaintext that AES-GCM encrypts (2^36 bytes).
pub const AES_GCM_MAX_PLAINTEXT: u64 = 68719476736u64;

#[verifier::external_type_specification]
#[verifier::external_body]
pub struct ExDecodeError(base64::DecodeError);

#[verifier::external_type_specification]
#[verifier::external_body]
pub struct ExAeadError(aes_gcm::aead::Error);

#[verifier::external_type_specification]
#[verifier::external_body]
pub struct ExRandError(rand::Error);

/// The symbol of the standard base64 alphabet for a 6-bit value:
/// `A`-`Z`, `a`-`z`, `0`-`9`, `+`, `/`.
pub open spec fn base64_symbol(v: int) -> char {
    if v < 26 {
        (65 + v) as char
    } else if v < 52 {
        (97 + v - 26) as char
    } else if v < 62 {
        (48 + v - 52) as char
    } else if v == 62 {
        '+'
    } else {
        '/'
    }
}

/// The standard base64 encoding with padding (RFC 4648): every three bytes
/// become four symbols of six bits each; a final one or two bytes become
/// two or three symbols followed by `=` padding to four.
pub open spec fn base64_encode(bytes: Seq<u8>) -> Seq<char>
    decreases bytes.len(),
{
    if bytes.len() == 0 {
        Seq::empty()
    } else if bytes.len() == 1 {
        let b0 = bytes[0] as int;
        seq![base64_symbol(b0 / 4), base64_symbol((b0 % 4) * 16), '=', '=']
    } else if bytes.len() == 2 {
        let b0 = bytes[0] as int;
        let b1 = bytes[1] as int;
        seq![
            base64_symbol(b0 / 4),
            base64_symbol((b0 % 4) * 16 + b1 / 16),
            base64_symbol((b1 % 16) * 4),
            '=',
        ]
    } else {
        let b0 = bytes[0] as int;
        let b1 = bytes[1] as int;
        let b2 = bytes[2] as int;
        seq![
            base64_symbol(b0 / 4),
            base64_symbol((b0 % 4) * 16 + b1 / 16),
            base64_symbol((b1 % 16) * 4 + b2 / 64),
            base64_symbol(b2 % 64),
        ] + base64_encode(bytes.skip(3))
    }
}

/// What the standard base64 engine reads from `text` (`None` on an error).
pub uninterp spec fn base64_decode(text: Seq<char>) -> Option<Seq<u8>>;

/// The error the standard base64 engine reports for `text` when it does not
/// decode.
pub uninterp spec fn base64_decode_error(text: Seq<char>) -> base64::DecodeError;

/// Calls `base64::engine::general_purpose::STANDARD.encode`, which writes
/// the standard padded encoding stated by `base64_encode`; the input length
/// bound keeps the crate's buffer size computation, which panics on
/// overflow, in range.
#[verifier::external_body]
pub(crate) fn encode_base64(bytes: &[u8]) -> (out: String)
    requires
        bytes@.len() <= usize::MAX / 2,
    ensures
        out@ == base64_encode(bytes@),
{
    base64::engine::general_purpose::STANDARD.encode(bytes)
}

/// Calls `base64::engine::general_purpose::STANDARD.decode`. The contract
/// names the result (the bytes, or the error) and states that decoding gives
/// back the bytes whose encoding `text` is, as the crate's round-trip tests
/// check.
#[verifier::external_body]
pub(crate) fn decode_base64(text: &str) -> (out: Result<Vec<u8>, base64::DecodeError>)
    ensures
        out is Ok <==> base64_decode(text@) is Some,
        out matches Ok(b) ==> base64_decode(text@) == Some(b@),
        out matches Err(e) ==> e == base64_decode_error(text@),
        forall|b: Seq<u8>| #[trigger] base64_encode(b) == text@ ==> out is Ok && out->Ok_0@ == b,
{
    base64::engine::general_purpose::STANDARD.decode(text)
}

/// What `pbkdf2::pbkdf2_hmac::<Sha256>` writes into a buffer of `len` bytes.
pub uninterp spec fn pbkdf2_hmac_sha256(password: Seq<u8>, salt: Seq<u8>, rounds: u32, len: nat) -> Seq<u8>;

/// Calls `pbkdf2::pbkdf2_hmac::<sha2::Sha256>` on a fresh buffer of `len`
/// bytes; the contract names the result (the function fills the whole
/// buffer). The crate numbers the 32-byte output blocks with a `u32` and adds
/// one to the number, which overflows past 2^32 - 1 blocks; the precondition
/// keeps `len` within PBKDF2's own output limit.
#[verifier::external_body]
pub(crate) fn pbkdf2_sha256(password: &[u8], salt: &[u8], rounds: u32, len: usize) -> (out: Vec<u8>)
    requires
        len <= 0xFFFF_FFFF * 32,
    ensures
        out@ == pbkdf2_hmac_sha256(password@, salt@, rounds, len as nat),
        out@.len() == len,
{
    let mut key = vec![0u8; len];
    pbkdf2::pbkdf2_hmac::<sha2::Sha256>(password, salt, rounds, &mut key);
    key
}

/// What AES-256-GCM (no associated data) produces for `plaintext`.
pub uninterp spec fn aes256gcm_encrypt(key: Seq<u8>, nonce: Seq<u8>, plaintext: Seq<u8>) -> Seq<u8>;

/// What AES-256-GCM decryption (no associated data) gives for `ciphertext`
/// (`None` when authentication fails).
pub uninterp spec fn aes256gcm_decrypt(key: Seq<u8>, nonce: Seq<u8>, ciphertext: Seq<u8>) -> Option<Seq<u8>>;

/// Calls `Aes256Gcm::encrypt`. `Key::from_slice` and `Nonce::from_slice`
/// panic unless the key has 32 bytes and the nonce 12, hence the
/// precondition. The source refuses only plaintexts over 2^36 bytes and
/// appends a 16-byte tag; the ciphertext itself is named.
#[verifier::external_body]
pub(crate) fn aes256gcm_seal(key: &[u8], nonce: &[u8], plaintext: &[u8]) -> (out: Result<Vec<u8>, aes_gcm::aead::Error>)
    requires
        key@.len() == KEY_LEN,
        nonce@.len() == NONCE_LEN,
    ensures
        out is Ok <==> plaintext@.len() <= AES_GCM_MAX_PLAINTEXT,
        out matches Ok(c) ==> c@ == aes256gcm_encrypt(key@, nonce@, plaintext@),
        out matches Ok(c) ==> c@.len() == plaintext@.len() + TAG_LEN,
{
    let cipher = aes_gcm::Aes256Gcm::new(aes_gcm::Key::<aes_gcm::Aes256Gcm>::from_slice(key));
    cipher.encrypt(aes_gcm::Nonce::from_slice(nonce), plaintext)
}

/// Calls `Aes256Gcm::decrypt` (same length preconditions as encryption). The
/// result is named; as the crate's documented example shows, decrypting what
/// was encrypted under the same key and nonce gives the plaintext back.
#[verifier::external_body]
pub(crate) fn aes256gcm_open(key: &[u8], nonce: &[u8], ciphertext: &[u8]) -> (out: Result<Vec<u8>, aes_gcm::aead::Error>)
    requires
        key@.len() == KEY_LEN,
        nonce@.len() == NONCE_LEN,
    ensures
        out is Ok <==> aes256gcm_decrypt(key@, nonce@, ciphertext@) is Some,
        out matches Ok(p) ==> aes256gcm_decrypt(key@, nonce@, ciphertext@) == Some(p@),
        forall|p: Seq<u8>| #[trigger] aes256gcm_encrypt(key@, nonce@, p) == ciphertext@ && p.len() <= AES_GCM_MAX_PLAINTEXT ==> out is Ok && out->Ok_0@ == p,
{
    let cipher = aes_gcm::Aes256Gcm::new(aes_gcm::Key::<aes_gcm::Aes256Gcm>::from_slice(key));
    cipher.decrypt(aes_gcm::Nonce::from_slice(nonce), ciphertext)
}

/// Fills `len` bytes from the operating system's generator
/// (`rand::rngs::OsRng::try_fill_bytes`), or reports its failure. Only the
/// length is stated: the bytes are random.
#[verifier::external_body]
pub(crate) fn random_bytes(len: usize) -> (out: Result<Vec<u8>, rand::Error>)
    ensures
        out matches Ok(b) ==> b@.len() == len,
{
    let mut bytes = vec![0u8; len];
    rand::rngs::OsRng.try_fill_bytes(&mut bytes)?;
    Ok(bytes)
}

/// The key that `password` and `salt` give.
pub open spec fn derived_key(password: Seq<char>, salt: Seq<u8>) -> Seq<u8> {
    pbkdf2_hmac_sha256(vstd::utf8::encode_utf8(password), salt, PBKDF2_ITERS, KEY_LEN as nat)
}

/// The file key is PBKDF2-HMAC-SHA256 with the password's UTF-8 bytes as
/// its password, the file's salt as its salt, 100 000 rounds and 32 bytes
/// of output; so every key used to seal or open a file is that one.
pub proof fn lemma_key_from_password_and_salt(password: Seq<char>, salt: Seq<u8>)
    ensures
        derived_key(password, salt) == pbkdf2_hmac_sha256(vstd::utf8::encode_utf8(password), salt, 100_000u32, 32),
{
}

/// Derives the 32-byte file key from a password and a salt (PBKDF2 with
/// HMAC-SHA256, 100 000 rounds, over the password's UTF-8 bytes).
pub fn derive_key(password: &str, salt: &[u8]) -> (key: Vec<u8>)
    ensures
        key@ == derived_key(password@, salt@),
        key@ == pbkdf2_hmac_sha256(vstd::utf8::encode_utf8(password@), salt@, 100_000u32, 32),
        key@.len() == KEY_LEN,
{
    pbkdf2_sha256(password.as_bytes(), salt, PBKDF2_ITERS, KEY_LEN)
}

/// An exported account file: the format version and the base64 text of the
/// salt, the nonce and the encrypted payload.
pub struct ExportFileV2 {
    pub v: u32,
    pub salt: String,
    pub nonce: String,
    pub ciphertext: String,
}

/// Why sealing or opening an account file failed.
pub enum CryptoError {
    /// AES-GCM refused to encrypt the payload (it is over its size limit).
    Encryption,
    /// The operating system's random generator failed.
    Random(rand::Error),
    /// A field of the file is not valid base64.
    InvalidBase64(base64::DecodeError),
    /// The nonce does not have the 12 bytes that AES-256-GCM takes.
    InvalidNonceLength,
    /// Authentication failed: the password is wrong or the file was altered.
    WrongPasswordOrCorrupted,
}

/// Whether the three base64 fields are what sealing `plaintext` with
/// `password`, `salt` and `nonce` writes: the encodings of the salt, the
/// nonce and the ciphertext.
pub open spec fn sealed_fields(
    salt_b64: Seq<char>,
    nonce_b64: Seq<char>,
    ct_b64: Seq<char>,
    plaintext: Seq<u8>,
    password: Seq<char>,
    salt: Seq<u8>,
    nonce: Seq<u8>,
) -> bool {
    &&& salt_b64 == base64_encode(salt)
    &&& nonce_b64 == base64_encode(nonce)
    &&& ct_b64 == base64_encode(aes256gcm_encrypt(derived_key(password, salt), nonce, plaintext))
}

/// The file that sealing `plaintext` with `password`, `salt` and `nonce`
/// writes.
pub open spec fn sealed_as(f: ExportFileV2, plaintext: Seq<u8>, password: Seq<char>, salt: Seq<u8>, nonce: Seq<u8>) -> bool {
    f.v == FORMAT_VERSION && sealed_fields(f.salt@, f.nonce@, f.ciphertext@, plaintext, password, salt, nonce)
}

/// Seals `plaintext` under `password` with the given salt and nonce.
/// Fails only when AES-GCM refuses a plaintext over its size limit.
pub fn seal_with(plaintext: &[u8], password: &str, salt: &[u8], nonce: &[u8]) -> (out: Result<ExportFileV2, CryptoError>)
    requires
        nonce@.len() == NONCE_LEN,
        salt@.len() <= usize::MAX / 2,
        plaintext@.len() + TAG_LEN <= usize::MAX / 2,
    ensures
        out is Ok <==> plaintext@.len() <= AES_GCM_MAX_PLAINTEXT,
        out matches Ok(f) ==> sealed_as(f, plaintext@, password@, salt@, nonce@),
        out is Ok ==> aes256gcm_encrypt(derived_key(password@, salt@), nonce@, plaintext@).len()
            == plaintext@.len() + TAG_LEN,
        out matches Err(e) ==> e is Encryption,
{
    let key = derive_key(password, salt);
    match aes256gcm_seal(&key, nonce, plaintext) {
        Ok(ct) => Ok(ExportFileV2 {
            v: FORMAT_VERSION,
            salt: encode_base64(salt),
            nonce: encode_base64(nonce),
            ciphertext: encode_base64(&ct),
        }),
        Err(_) => Err(CryptoError::Encryption),
    }
}

/// Seals `plaintext` under `password` with a fresh random salt (16 bytes)
/// and nonce (12 bytes). Unless the random generator fails, it fails only
/// when AES-GCM refuses a plaintext over its size limit.
pub fn seal(plaintext: &[u8], password: &str) -> (out: Result<ExportFileV2, CryptoError>)
    requires
        plaintext@.len() + TAG_LEN <= usize::MAX / 2,
    ensures
        !(out matches Err(CryptoError::Random(_))) ==> (out is Ok <==> plaintext@.len() <= AES_GCM_MAX_PLAINTEXT),
        out matches Ok(f) ==> exists|salt: Seq<u8>, nonce: Seq<u8>|
            salt.len() == SALT_LEN && nonce.len() == NONCE_LEN
                && #[trigger] sealed_as(f, plaintext@, password@, salt, nonce)
                && aes256gcm_encrypt(derived_key(password@, salt), nonce, plaintext@).len()
                    == plaintext@.len() + TAG_LEN,
        out matches Err(e) ==> e is Encryption || e is Random,
{
    let salt = match random_bytes(SALT_LEN) {
        Ok(b) => b,
        Err(e) => return Err(CryptoError::Random(e)),
    };
    let nonce = match random_bytes(NONCE_LEN) {
        Ok(b) => b,
        Err(e) => return Err(CryptoError::Random(e)),
    };
    seal_with(plaintext, password, &salt, &nonce)
}


/// What opening the three base64 fields with `password` gives when the nonce
/// has the right length: the plaintext, or the failure.
pub open spec fn opened_as(
    out: Result<Vec<u8>, CryptoError>,
    salt_b64: Seq<char>,
    nonce_b64: Seq<char>,
    ct_b64: Seq<char>,
    password: Seq<char>,
) -> bool {
    match (base64_decode(salt_b64), base64_decode(nonce_b64), base64_decode(ct_b64)) {
        (Some(salt), Some(nonce), Some(ct)) => match aes256gcm_decrypt(derived_key(password, salt), nonce, ct) {
            Some(p) => out matches Ok(q) && q@ == p,
            None => out matches Err(CryptoError::WrongPasswordOrCorrupted),
        },
        (None, _, _) => out matches Err(CryptoError::InvalidBase64(e)) && e == base64_decode_error(salt_b64),
        (Some(_), None, _) => out matches Err(CryptoError::InvalidBase64(e)) && e == base64_decode_error(
            nonce_b64,
        ),
        (Some(_), Some(_), None) => out matches Err(CryptoError::InvalidBase64(e)) && e
            == base64_decode_error(ct_b64),
    }
}

/// Decodes the salt, nonce and ciphertext of a file and decrypts the
/// ciphertext with the key derived from `password`. The nonce, when it
/// decodes, must have 12 bytes (AES-GCM's nonce type cannot be built
/// otherwise); `open` checks that first.
///
/// Opening with the password a file was sealed with gives back the sealed
/// plaintext.
pub fn decrypt_bytes(salt_b64: &str, nonce_b64: &str, ct_b64: &str, password: &str) -> (out: Result<Vec<u8>, CryptoError>)
    requires
        base64_decode(nonce_b64@) matches Some(n) ==> n.len() == NONCE_LEN,
    ensures
        opened_as(out, salt_b64@, nonce_b64@, ct_b64@, password@),
        forall|plaintext: Seq<u8>, salt: Seq<u8>, nonce: Seq<u8>|
            plaintext.len() <= AES_GCM_MAX_PLAINTEXT && #[trigger] sealed_fields(
                salt_b64@,
                nonce_b64@,
                ct_b64@,
                plaintext,
                password@,
                salt,
                nonce,
            ) ==> (out matches Ok(q) && q@ == plaintext),
{
    let salt = match decode_base64(salt_b64) {
        Ok(b) => b,
        Err(e) => return Err(CryptoError::InvalidBase64(e)),
    };
    let nonce = match decode_base64(nonce_b64) {
        Ok(b) => b,
        Err(e) => return Err(CryptoError::InvalidBase64(e)),
    };
    let ct = match decode_base64(ct_b64) {
        Ok(b) => b,
        Err(e) => return Err(CryptoError::InvalidBase64(e)),
    };
    let key = derive_key(password, &salt);
    match aes256gcm_open(&key, &nonce, &ct) {
        Ok(p) => Ok(p),
        Err(_) => Err(CryptoError::WrongPasswordOrCorrupted),
    }
}


/// Whether the nonce field decodes to bytes of a length AES-GCM cannot take.
pub open spec fn bad_nonce(nonce_b64: Seq<char>) -> bool {
    base64_decode(nonce_b64) matches Some(n) && n.len() != NONCE_LEN
}

/// Opens an account file with `password` and returns the sealed payload.
/// A nonce of the wrong length is reported as `InvalidNonceLength` once the
/// salt and ciphertext have decoded; otherwise the result is that of
/// `decrypt_bytes` (the format version is not checked).
///
/// Opening a file with the password it was sealed with gives back the
/// sealed plaintext.
pub fn open(file: &ExportFileV2, password: &str) -> (out: Result<Vec<u8>, CryptoError>)
    ensures
        !bad_nonce(file.nonce@) ==> opened_as(out, file.salt@, file.nonce@, file.ciphertext@, password@),
        bad_nonce(file.nonce@) ==> (if base64_decode(file.salt@) is None {
            out matches Err(CryptoError::InvalidBase64(e)) && e == base64_decode_error(file.salt@)
        } else if base64_decode(file.ciphertext@) is None {
            out matches Err(CryptoError::InvalidBase64(e)) && e == base64_decode_error(file.ciphertext@)
        } else {
            out matches Err(CryptoError::InvalidNonceLength)
        }),
        forall|plaintext: Seq<u8>, salt: Seq<u8>, nonce: Seq<u8>|
            nonce.len() == NONCE_LEN && plaintext.len() <= AES_GCM_MAX_PLAINTEXT && #[trigger] sealed_fields(
                file.salt@,
                file.nonce@,
                file.ciphertext@,
                plaintext,
                password@,
                salt,
                nonce,
            ) ==> (out matches Ok(q) && q@ == plaintext),
{
    match decode_base64(file.nonce.as_str()) {
        Ok(n) => {
            if n.len() != NONCE_LEN {
                if let Err(e) = decode_base64(file.salt.as_str()) {
                    return Err(CryptoError::InvalidBase64(e));
                }
                if let Err(e) = decode_base64(file.ciphertext.as_str()) {
                    return Err(CryptoError::InvalidBase64(e));
                }
                return Err(CryptoError::InvalidNonceLength);
            }
        },
        Err(_) => {},
    }
    decrypt_bytes(file.salt.as_str(), file.nonce.as_str(), file.ciphertext.as_str(), password)
}


/// A character as it may stand in a file name: letters, digits, `-` and `_`
/// are kept, anything else becomes `_`.
pub open spec fn safe_char(c: char) -> char {
    safe_char_given(c, crate::text::is_alnum(c))
}

/// The file-name character for `c`, given whether `c` is alphanumeric.
pub open spec fn safe_char_given(c: char, alnum: bool) -> char {
    if alnum || c == '-' || c == '_' {
        c
    } else {
        '_'
    }
}

/// The file-name character for `c`, given whether `c` is alphanumeric.
pub fn safe_name_char(c: char, alnum: bool) -> (out: char)
    ensures
        out == safe_char_given(c, alnum),
{
    if alnum || c == '-' || c == '_' {
        c
    } else {
        '_'
    }
}

/// The name of the file an account is exported to: the account name with
/// every other character replaced by `_`, then `.riotacc`.
pub open spec fn export_file_name_of(name: Seq<char>) -> Seq<char> {
    name.map_values(|c: char| safe_char(c)) + ".riotacc"@
}

/// The name of the file the account `name` is exported to (in the
/// program's directory).
pub fn export_file_name(name: &str) -> (out: String)
    ensures
        out@ == export_file_name_of(name@),
        forall|i: int| 0 <= i < name@.len() ==> {
            let c = #[trigger] out@[i];
            crate::text::is_alnum(c) || c == '-' || c == '_'
        },
        // The name part holds no path separator, drive colon or dot.
        forall|i: int| 0 <= i < name@.len() ==> {
            let c = #[trigger] out@[i];
            c != '/' && c != '\\' && c != ':' && c != '.'
        },
{
    let cs = crate::text::chars_of(name);
    let n = cs.len();
    let mut safe: Vec<char> = Vec::new();
    let mut i: usize = 0;
    while i < n
        invariant
            n == cs@.len(),
            cs@ == name@,
            i <= n,
            safe@ == cs@.take(i as int).map_values(|c: char| safe_char(c)),
            forall|j: int| 0 <= j < i ==> {
                let c = #[trigger] safe@[j];
                c != '/' && c != '\\' && c != ':' && c != '.'
            },
        decreases n - i,
    {
        let c = cs[i];
        let kept = safe_name_char(c, crate::text::char_is_alnum(c));
        safe.push(kept);
        assert(cs@.take(i + 1).map_values(|c: char| safe_char(c)) == cs@.take(i as int).map_values(
            |c: char| safe_char(c),
        ).push(safe_char(cs@[i as int])));
        i += 1;
    }
    assert(cs@.take(n as int) == cs@);
    let ext = crate::text::chars_of(".riotacc");
    let full = crate::text::concat(&safe, &ext);
    proof {
        assert forall|i: int| 0 <= i < name@.len() implies {
            let c = #[trigger] full@[i];
            crate::text::is_alnum(c) || c == '-' || c == '_'
        } by {
            assert(full@[i] == safe_char(name@[i]));
        }
        assert forall|i: int| 0 <= i < name@.len() implies {
            let c = #[trigger] full@[i];
            c != '/' && c != '\\' && c != ':' && c != '.'
        } by {
            assert(full@[i] == safe@[i]);
        }
    }
    crate::text::string_of(&full)
}


/// Where a file to import is read from.
pub enum ImportPathChoice {
    /// The path as the user gave it.
    AsGiven,
    /// The path taken relative to the program's directory.
    InProgramDir,
}

/// Chooses where to read an import from: an absolute path as given; a
/// relative one from the program's directory when a file of that name is
/// there (`in_program_dir_exists`), and otherwise as given.
pub fn resolve_import_path(is_absolute: bool, in_program_dir_exists: bool) -> (c: ImportPathChoice)
    ensures
        c is InProgramDir <==> !is_absolute && in_program_dir_exists,
{
    if is_absolute {
        ImportPathChoice::AsGiven
    } else if in_program_dir_exists {
        ImportPathChoice::InProgramDir
    } else {
        ImportPathChoice::AsGiven
    }
}
} // verus!
