//! The credential vault: authenticated encryption of daemon passwords
//! under a process-wide secret and a per-owner salt.

use crate::text::{decimal, push_decimal};
use aes_gcm::aead::consts::U16;
use aes_gcm::aead::Aead;
use aes_gcm::aes::Aes256;
use aes_gcm::{AesGcm, KeyInit, KeySizeUser, Nonce};
use base64::engine::general_purpose::STANDARD;
use base64::Engine;
use rand::distributions::Alphanumeric;
use rand::Rng;
use vstd::prelude::*;
use vstd::utf8::*;

verus! {

/// How many bytes the cipher's key has.
pub open spec fn key_bytes() -> nat {
    32
}

/// How many bytes the cipher's nonce has.
pub open spec fn nonce_bytes() -> nat {
    16
}

/// How many bytes of plaintext the cipher seals at most.
pub open spec fn plaintext_limit() -> nat {
    0x10_0000_0000
}

/// What AES-256-GCM with a 16-byte nonce makes of a plaintext: the
/// ciphertext with the tag behind it.
pub uninterp spec fn aes_gcm_sealed(key: Seq<u8>, nonce: Seq<u8>, plaintext: Seq<u8>) -> Seq<u8>;

/// What AES-256-GCM with a 16-byte nonce reads from a sealed message: the
/// plaintext, or nothing where the tag does not match.
pub uninterp spec fn aes_gcm_opened(key: Seq<u8>, nonce: Seq<u8>, sealed: Seq<u8>) -> Option<
    Seq<u8>,
>;

/// The standard base64 text of some bytes, with padding.
pub uninterp spec fn base64_encoded(bytes: Seq<u8>) -> Seq<char>;

/// The bytes that a standard base64 text stands for, or nothing where the
/// text is malformed.
pub uninterp spec fn base64_decoded(text: Seq<char>) -> Option<Seq<u8>>;

/// Asks `aes_gcm::AesGcm<Aes256, U16>` for its key size through
/// `KeySizeUser::key_size`, which is 32 bytes for AES-256.
#[verifier::external_body]
fn cipher_key_size() -> (out: usize)
    ensures
        out == key_bytes(),
{
    <AesGcm<Aes256, U16> as KeySizeUser>::key_size()
}

/// Takes the length of a default `aes_gcm::Nonce<U16>`, which is 16 bytes.
#[verifier::external_body]
fn cipher_nonce_size() -> (out: usize)
    ensures
        out == nonce_bytes(),
{
    Nonce::<U16>::default().len()
}

/// Builds the cipher with `AesGcm::new_from_slice` and calls
/// `Aead::encrypt`. The crate refuses a key of another size, a nonce of
/// another size and a plaintext above its limit, which `requires` leaves
/// out. Claimed of the result: it is a function of the three inputs, it is
/// 16 bytes longer than the plaintext, and opening it with the same key and
/// nonce gives the plaintext back.
#[verifier::external_body]
fn seal(key: &Vec<u8>, nonce: &Vec<u8>, plaintext: &[u8]) -> (out: Vec<u8>)
    requires
        key@.len() == key_bytes(),
        nonce@.len() == nonce_bytes(),
        plaintext@.len() <= plaintext_limit(),
    ensures
        out@ == aes_gcm_sealed(key@, nonce@, plaintext@),
        out@.len() == plaintext@.len() + 16,
        aes_gcm_opened(key@, nonce@, out@) == Some(plaintext@),
{
    let cipher = AesGcm::<Aes256, U16>::new_from_slice(key).unwrap();
    cipher.encrypt(Nonce::<U16>::from_slice(nonce), plaintext).unwrap()
}

/// Builds the cipher with `AesGcm::new_from_slice` and calls
/// `Aead::decrypt`, which fails where the message is shorter than a tag,
/// too long, or not authentic. The contract only names the outcome.
#[verifier::external_body]
fn open(key: &Vec<u8>, nonce: &Vec<u8>, sealed: &[u8]) -> (out: Option<Vec<u8>>)
    requires
        key@.len() == key_bytes(),
        nonce@.len() == nonce_bytes(),
    ensures
        out is Some <==> aes_gcm_opened(key@, nonce@, sealed@) is Some,
        out is Some ==> out->0@ == aes_gcm_opened(key@, nonce@, sealed@)->0,
{
    let cipher = AesGcm::<Aes256, U16>::new_from_slice(key).unwrap();
    cipher.decrypt(Nonce::<U16>::from_slice(nonce), sealed).ok()
}

/// Calls `encode` of `base64::engine::general_purpose::STANDARD`. Claimed
/// of the result: it is a function of the bytes, and decoding it gives the
/// bytes back.
#[verifier::external_body]
fn base64_encode(bytes: &Vec<u8>) -> (out: String)
    ensures
        out@ == base64_encoded(bytes@),
        base64_decoded(out@) == Some(bytes@),
{
    STANDARD.encode(bytes)
}

/// Calls `decode` of `base64::engine::general_purpose::STANDARD`, which
/// fails on a malformed text. The contract only names the outcome.
#[verifier::external_body]
fn base64_decode(text: &str) -> (out: Option<Vec<u8>>)
    ensures
        out is Some <==> base64_decoded(text@) is Some,
        out is Some ==> out->0@ == base64_decoded(text@)->0,
{
    STANDARD.decode(text).ok()
}

/// `String::from_utf8` gives the text that the bytes encode, and fails
/// exactly where they are not well-formed UTF-8.
#[verifier::external_body]
fn text_of_bytes(bytes: Vec<u8>) -> (out: Option<String>)
    ensures
        out is Some <==> valid_utf8(bytes@),
        out is Some ==> out->0@ == decode_utf8(bytes@),
{
    String::from_utf8(bytes).ok()
}

/// Draws `count` characters from `rand::distributions::Alphanumeric` with
/// `rand::thread_rng`. Whatever is drawn, the result has `count`
/// characters, each an ASCII letter or digit.
#[verifier::external_body]
fn sample_alphanumeric(count: usize) -> (out: String)
    ensures
        out@.len() == count,
        forall|i: int| 0 <= i < out@.len() ==> is_alphanumeric(#[trigger] out@[i]),
{
    rand::thread_rng().sample_iter(&Alphanumeric).take(count).map(char::from).collect()
}

/// Whether a character is an ASCII letter or digit.
pub open spec fn is_alphanumeric(c: char) -> bool {
    ('0' <= c && c <= '9') || ('A' <= c && c <= 'Z') || ('a' <= c && c <= 'z')
}

/// A secret of the wrong size.
#[derive(Debug)]
pub struct KeySizeError(pub String);

/// A salt of the wrong size.
#[derive(Debug)]
pub struct NonceSizeError(pub String);

/// A stored password that is not base64.
#[derive(Debug)]
pub struct Base64DecodeError(pub String);

/// What went wrong in the vault.
#[derive(Debug)]
pub enum CryptoErrorKind {
    KeySizeError(KeySizeError),
    NonceSizeError(NonceSizeError),
    Base64DecodeError(Base64DecodeError),
    /// The stored password was not sealed with this secret and salt.
    Unauthentic,
    /// The stored password is not a text.
    NotText,
}

/// A failure of the vault.
#[derive(Debug)]
pub struct CryptoError(pub CryptoErrorKind);

impl CryptoError {
    pub fn new(kind: CryptoErrorKind) -> (out: CryptoError)
        ensures
            out.0 == kind,
    {
        CryptoError(kind)
    }

    /// The text shown for each failure.
    pub open spec fn message_text(&self) -> Seq<char> {
        match self.0 {
            CryptoErrorKind::KeySizeError(e) => "KeySizeError: "@ + e.0@,
            CryptoErrorKind::NonceSizeError(e) => "NonceSizeError: "@ + e.0@,
            CryptoErrorKind::Base64DecodeError(e) => "Base64DecodeError: "@ + e.0@,
            CryptoErrorKind::Unauthentic => "Unable to decrypt"@,
            CryptoErrorKind::NotText => "Unable to write bytes to string"@,
        }
    }

    /// The message shown for this error.
    pub fn message(&self) -> (out: String)
        ensures
            out@ == self.message_text(),
    {
        match &self.0 {
            CryptoErrorKind::KeySizeError(e) => String::from_str("KeySizeError: ").concat(
                e.0.as_str(),
            ),
            CryptoErrorKind::NonceSizeError(e) => String::from_str("NonceSizeError: ").concat(
                e.0.as_str(),
            ),
            CryptoErrorKind::Base64DecodeError(e) => String::from_str(
                "Base64DecodeError: ",
            ).concat(e.0.as_str()),
            CryptoErrorKind::Unauthentic => String::from_str("Unable to decrypt"),
            CryptoErrorKind::NotText => String::from_str("Unable to write bytes to string"),
        }
    }
}

impl From<KeySizeError> for CryptoError {
    fn from(error: KeySizeError) -> (out: CryptoError) {
        CryptoError(CryptoErrorKind::KeySizeError(error))
    }
}

impl vstd::std_specs::convert::FromSpecImpl<KeySizeError> for CryptoError {
    open spec fn obeys_from_spec() -> bool {
        true
    }

    open spec fn from_spec(error: KeySizeError) -> CryptoError {
        CryptoError(CryptoErrorKind::KeySizeError(error))
    }
}

impl From<NonceSizeError> for CryptoError {
    fn from(error: NonceSizeError) -> (out: CryptoError) {
        CryptoError(CryptoErrorKind::NonceSizeError(error))
    }
}

impl vstd::std_specs::convert::FromSpecImpl<NonceSizeError> for CryptoError {
    open spec fn obeys_from_spec() -> bool {
        true
    }

    open spec fn from_spec(error: NonceSizeError) -> CryptoError {
        CryptoError(CryptoErrorKind::NonceSizeError(error))
    }
}

impl From<Base64DecodeError> for CryptoError {
    fn from(error: Base64DecodeError) -> (out: CryptoError) {
        CryptoError(CryptoErrorKind::Base64DecodeError(error))
    }
}

impl vstd::std_specs::convert::FromSpecImpl<Base64DecodeError> for CryptoError {
    open spec fn obeys_from_spec() -> bool {
        true
    }

    open spec fn from_spec(error: Base64DecodeError) -> CryptoError {
        CryptoError(CryptoErrorKind::Base64DecodeError(error))
    }
}

/// The sizes that a cipher asks of its key and nonce, in bytes.
pub trait EncSize {
    fn key_size() -> usize;

    fn nonce_size() -> usize;
}

/// The text of a size complaint: what was found and what was expected.
pub open spec fn size_complaint(what: Seq<char>, found: nat, expected: nat) -> Seq<char> {
    what + " has wrong length: "@ + decimal(found) + ". Expected: "@ + decimal(expected)
}

/// The text of the complaint about a joined key of the wrong size.
pub open spec fn joined_complaint(found: nat) -> Seq<char> {
    "Complex key has wrong length: "@ + decimal(found) + ". Expected: key("@ + decimal(
        key_bytes(),
    ) + ")+nonce("@ + decimal(nonce_bytes()) + ")"@
}

fn complain(what: &str, found: usize, expected: usize) -> (out: String)
    ensures
        out@ == size_complaint(what@, found as nat, expected as nat),
{
    let mut out = String::from_str(what);
    out.append(" has wrong length: ");
    push_decimal(&mut out, found as u64);
    out.append(". Expected: ");
    push_decimal(&mut out, expected as u64);
    out
}

/// The vault of one owner: the process-wide secret as the key, and the
/// owner's salt as the nonce of every encryption.
pub struct Crypto {
    key: Vec<u8>,
    nonce: Vec<u8>,
}

impl EncSize for Crypto {
    fn key_size() -> (out: usize)
        ensures
            out == key_bytes(),
    {
        cipher_key_size()
    }

    fn nonce_size() -> (out: usize)
        ensures
            out == nonce_bytes(),
    {
        cipher_nonce_size()
    }
}

impl Crypto {
    #[verifier::type_invariant]
    spec fn well_sized(self) -> bool {
        self.key@.len() == key_bytes() && self.nonce@.len() == nonce_bytes()
    }

    /// The key, as bytes.
    pub closed spec fn key(&self) -> Seq<u8> {
        self.key@
    }

    /// The nonce, as bytes.
    pub closed spec fn nonce(&self) -> Seq<u8> {
        self.nonce@
    }

    /// What `new` answers for a secret and a salt: a complaint about the
    /// secret unless it has the key's size, else one about the salt unless
    /// it has the nonce's size.
    pub open spec fn refusal(key: Seq<u8>, nonce: Seq<u8>) -> Option<CryptoErrorView> {
        if key.len() != key_bytes() {
            Some(CryptoErrorView::KeySize(size_complaint("Key"@, key.len(), key_bytes())))
        } else if nonce.len() != nonce_bytes() {
            Some(CryptoErrorView::NonceSize(size_complaint("Nonce"@, nonce.len(), nonce_bytes())))
        } else {
            None
        }
    }

    /// The stored form of a password: its UTF-8 bytes, sealed, in base64.
    pub open spec fn encrypted(&self, data: Seq<char>) -> Seq<char> {
        base64_encoded(aes_gcm_sealed(self.key(), self.nonce(), encode_utf8(data)))
    }

    /// The password behind a stored form, where it is base64 of a message
    /// sealed with this key and nonce that holds a text.
    pub open spec fn decrypted(&self, data: Seq<char>) -> Result<Seq<char>, CryptoErrorView> {
        match base64_decoded(data) {
            None => Err(CryptoErrorView::Base64("String was not Base64 encoded"@)),
            Some(sealed) => match aes_gcm_opened(self.key(), self.nonce(), sealed) {
                None => Err(CryptoErrorView::Unauthentic),
                Some(bytes) => if valid_utf8(bytes) {
                    Ok(decode_utf8(bytes))
                } else {
                    Err(CryptoErrorView::NotText)
                },
            },
        }
    }

    fn from_bytes(key: Vec<u8>, nonce: Vec<u8>) -> (out: Result<Self, CryptoError>)
        ensures
            out is Err <==> Self::refusal(key@, nonce@) is Some,
            out matches Err(e) ==> Self::refusal(key@, nonce@) == Some(e@),
            out matches Ok(vault) ==> vault.key() == key@ && vault.nonce() == nonce@,
    {
        let key_size = Self::key_size();
        if key.len() != key_size {
            return Err(CryptoError::from(KeySizeError(complain("Key", key.len(), key_size))));
        }
        let nonce_size = Self::nonce_size();
        if nonce.len() != nonce_size {
            return Err(
                CryptoError::from(NonceSizeError(complain("Nonce", nonce.len(), nonce_size))),
            );
        }
        Ok(Crypto { key, nonce })
    }

    /// Makes the vault of a secret and a salt that are written one behind
    /// the other, the secret first. A text of another size than the two
    /// together is refused.
    pub fn new_one(complex_key: String) -> (out: Result<Self, CryptoError>)
        ensures
            out is Err <==> encode_utf8(complex_key@).len() != key_bytes() + nonce_bytes(),
            out matches Err(e) ==> e@ == CryptoErrorView::KeySize(
                joined_complaint(encode_utf8(complex_key@).len()),
            ),
            out matches Ok(vault) ==> vault.key() == encode_utf8(complex_key@).subrange(
                0,
                key_bytes() as int,
            ) && vault.nonce() == encode_utf8(complex_key@).subrange(
                key_bytes() as int,
                key_bytes() + nonce_bytes() as int,
            ),
    {
        let key_size = Self::key_size();
        let nonce_size = Self::nonce_size();
        let mut bytes = complex_key.as_str().as_bytes_vec();
        if bytes.len() != key_size + nonce_size {
            let mut text = String::from_str("Complex key has wrong length: ");
            push_decimal(&mut text, bytes.len() as u64);
            text.append(". Expected: key(");
            push_decimal(&mut text, key_size as u64);
            text.append(")+nonce(");
            push_decimal(&mut text, nonce_size as u64);
            text.append(")");
            return Err(CryptoError::from(KeySizeError(text)));
        }
        let nonce = bytes.split_off(key_size);
        Self::from_bytes(bytes, nonce)
    }

    /// Makes the vault of a secret and a salt. Neither is cut or padded:
    /// one of another size than the cipher's is refused.
    pub fn new(key: String, nonce: String) -> (out: Result<Self, CryptoError>)
        ensures
            out is Err <==> Self::refusal(encode_utf8(key@), encode_utf8(nonce@)) is Some,
            out matches Err(e) ==> Self::refusal(encode_utf8(key@), encode_utf8(nonce@)) == Some(
                e@,
            ),
            out matches Ok(vault) ==> vault.key() == encode_utf8(key@) && vault.nonce()
                == encode_utf8(nonce@),
    {
        let b_key = key.as_str().as_bytes_vec();
        let b_nonce = nonce.as_str().as_bytes_vec();
        Self::from_bytes(b_key, b_nonce)
    }

    /// Encrypts a password for storage.
    pub fn encrypt(&self, data: &String) -> (out: String)
        requires
            encode_utf8(data@).len() <= plaintext_limit(),
        ensures
            out@ == self.encrypted(data@),
            self.decrypted(out@) == Ok::<Seq<char>, CryptoErrorView>(data@),
    {
        proof {
            use_type_invariant(self);
        }
        broadcast use {encode_utf8_valid_utf8, encode_utf8_decode_utf8};

        let sealed = seal(&self.key, &self.nonce, data.as_str().as_bytes());
        base64_encode(&sealed)
    }

    /// Decrypts a stored password that is known to be one of this vault.
    pub fn decrypt(&self, data: &String) -> (out: String)
        requires
            self.decrypted(data@) is Ok,
        ensures
            self.decrypted(data@) == Ok::<Seq<char>, CryptoErrorView>(out@),
    {
        proof {
            use_type_invariant(self);
        }
        let sealed = base64_decode(data.as_str()).unwrap();
        let bytes = open(&self.key, &self.nonce, sealed.as_slice()).unwrap();
        text_of_bytes(bytes).unwrap()
    }

    /// Decrypts a stored password, or says why it cannot be decrypted. No
    /// part of a password is ever returned for a text that is not base64,
    /// not authentic, or not a text once opened.
    pub fn try_decrypt(&self, data: &String) -> (out: Result<String, CryptoError>)
        ensures
            out matches Ok(text) ==> self.decrypted(data@) == Ok::<Seq<char>, CryptoErrorView>(
                text@,
            ),
            out matches Err(e) ==> self.decrypted(data@) == Err::<Seq<char>, CryptoErrorView>(e@),
    {
        proof {
            use_type_invariant(self);
        }
        let sealed = match base64_decode(data.as_str()) {
            Some(sealed) => sealed,
            None => {
                return Err(
                    CryptoError::from(
                        Base64DecodeError(String::from_str("String was not Base64 encoded")),
                    ),
                );
            },
        };
        let bytes = match open(&self.key, &self.nonce, sealed.as_slice()) {
            Some(bytes) => bytes,
            None => {
                return Err(CryptoError::new(CryptoErrorKind::Unauthentic));
            },
        };
        match text_of_bytes(bytes) {
            Some(_) => Ok(self.decrypt(data)),
            None => Err(CryptoError::new(CryptoErrorKind::NotText)),
        }
    }
}

/// A fresh salt: as many random ASCII letters and digits as the cipher's
/// nonce has bytes, so that it is never refused as a nonce.
pub fn random_salt() -> (out: String)
    ensures
        out@.len() == nonce_bytes(),
        forall|i: int| 0 <= i < out@.len() ==> is_alphanumeric(#[trigger] out@[i]),
        encode_utf8(out@).len() == nonce_bytes(),
{
    let out = sample_alphanumeric(Crypto::nonce_size());
    proof {
        assert(is_ascii_chars(out@)) by {
            assert forall|i: int| 0 <= i < out@.len() implies '\0' <= #[trigger] out@[i]
                <= '\u{7f}' by {
                assert(is_alphanumeric(out@[i]));
            }
        }
        is_ascii_chars_encode_utf8(out@);
    }
    out
}

/// What a vault error holds, as plain values.
pub enum CryptoErrorView {
    KeySize(Seq<char>),
    NonceSize(Seq<char>),
    Base64(Seq<char>),
    Unauthentic,
    NotText,
}

impl View for CryptoError {
    type V = CryptoErrorView;

    open spec fn view(&self) -> CryptoErrorView {
        match self.0 {
            CryptoErrorKind::KeySizeError(e) => CryptoErrorView::KeySize(e.0@),
            CryptoErrorKind::NonceSizeError(e) => CryptoErrorView::NonceSize(e.0@),
            CryptoErrorKind::Base64DecodeError(e) => CryptoErrorView::Base64(e.0@),
            CryptoErrorKind::Unauthentic => CryptoErrorView::Unauthentic,
            CryptoErrorKind::NotText => CryptoErrorView::NotText,
        }
    }
}

} // verus!
