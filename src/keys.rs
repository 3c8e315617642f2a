use vstd::prelude::*;
use k256::pkcs8::DecodePrivateKey;
use crate::error::SessionError;

verus! {

/// The secp256k1 secret scalar, as 32 big-endian bytes, that a PKCS#8 PEM
/// document holds; `None` for a document that does not decode to one.
pub uninterp spec fn pkcs8_secret_scalar(pem: Seq<char>) -> Option<Seq<u8>>;

/// Relies on k256's `SecretKey::from_pkcs8_pem`, to decode the document, and
/// `SecretKey::to_bytes`, which serializes the scalar into a 32-byte array.
#[verifier::external_body]
fn decode_pkcs8_pem(pem: &str) -> (r: Option<Vec<u8>>)
    ensures
        r is Some <==> pkcs8_secret_scalar(pem@) is Some,
        r matches Some(k) ==> pkcs8_secret_scalar(pem@) == Some(k@) && k@.len() == 32,
{
    match k256::SecretKey::from_pkcs8_pem(pem) {
        Ok(key) => Some(key.to_bytes().to_vec()),
        Err(_) => None,
    }
}

/// The notary's signing key: a secp256k1 secret scalar of 32 bytes.
pub struct NotaryKey {
    bytes: Vec<u8>,
}

impl View for NotaryKey {
    type V = Seq<u8>;

    closed spec fn view(&self) -> Seq<u8> {
        self.bytes@
    }
}

impl NotaryKey {
    /// The key's 32 bytes.
    pub fn as_bytes(&self) -> (r: &[u8])
        ensures
            r@ == self@,
    {
        self.bytes.as_slice()
    }
}

/// Loads the notary's key from a PKCS#8 PEM document; a document that holds
/// no secp256k1 key is `Config`.
pub fn load_notary_key(pem: &str) -> (r: Result<NotaryKey, SessionError>)
    ensures
        r is Ok <==> pkcs8_secret_scalar(pem@) is Some,
        r matches Ok(k) ==> Some(k@) == pkcs8_secret_scalar(pem@) && k@.len() == 32,
        r is Err ==> r == Err::<NotaryKey, SessionError>(SessionError::Config),
{
    match decode_pkcs8_pem(pem) {
        Some(bytes) => Ok(NotaryKey { bytes }),
        None => Err(SessionError::Config),
    }
}

} // verus!
