//! Fresh Ed25519 keypairs and their OpenSSH encodings.

use ed25519_dalek::SigningKey;
use rand::rngs::OsRng;
use rand::RngCore;
use ssh_key::private::{Ed25519Keypair, KeypairData};
use ssh_key::public::{Ed25519PublicKey, KeyData};
use ssh_key::{LineEnding, PrivateKey, PublicKey};
use vstd::prelude::*;

verus! {

#[verifier::external_type_specification]
#[verifier::external_body]
pub struct ExSigningKey(ed25519_dalek::SigningKey);

#[verifier::external_type_specification]
#[verifier::external_body]
pub struct ExSshKeyError(ssh_key::Error);

/// Why a key could not be put into OpenSSH form.
#[derive(Debug, Clone, Copy, PartialEq, Eq)]
pub enum KeyError {
    /// The encoder refused the key.
    Encoding,
}

/// The OpenSSH public-key line, with an empty comment, of the Ed25519 public
/// key whose 32 bytes are `public`.
pub uninterp spec fn openssh_ed25519_line(public: Seq<u8>) -> Seq<char>;

/// Relies on rand's OsRng::try_fill_bytes for 32 secret bytes from the
/// operating system's random source (`None` when it reports an error), and on
/// ed25519_dalek::SigningKey::from_bytes to make the key from them.
#[verifier::external_body]
fn random_signing_key() -> (r: Option<SigningKey>) {
    let mut secret = [0u8; 32];
    match OsRng.try_fill_bytes(&mut secret) {
        Ok(()) => Some(SigningKey::from_bytes(&secret)),
        Err(_) => None,
    }
}

/// Relies on ed25519_dalek::VerifyingKey::to_bytes: the 32 bytes of the key's
/// public half.
#[verifier::external_body]
fn public_key_bytes(key: &SigningKey) -> (r: [u8; 32]) {
    key.verifying_key().to_bytes()
}

/// Relies on ssh_key::PublicKey::to_openssh: the one-line OpenSSH text of an
/// Ed25519 public key given by its bytes, with an empty comment; the text
/// depends on those bytes alone.
#[verifier::external_body]
fn openssh_public_line(public: &[u8; 32]) -> (r: Result<String, ssh_key::Error>)
    ensures
        r matches Ok(line) ==> line@ == openssh_ed25519_line(public@),
{
    PublicKey::new(KeyData::from(Ed25519PublicKey(*public)), "").to_openssh()
}

/// Relies on ssh_key::PrivateKey::new and ssh_key::PrivateKey::to_openssh:
/// the unencrypted OpenSSH PEM text of the keypair, with an empty comment and
/// LF line endings.
#[verifier::external_body]
fn openssh_private_pem(key: &SigningKey) -> (r: Result<String, ssh_key::Error>) {
    let pair = Ed25519Keypair::from(key);
    let private = PrivateKey::new(KeypairData::from(pair), "")?;
    Ok(private.to_openssh(LineEnding::LF)?.to_string())
}

/// One search candidate: a fresh keypair and the OpenSSH text of its public
/// half, or `None` when the random source or the encoder fails.
pub fn generate_candidate() -> (r: Option<(SigningKey, String)>)
    ensures
        r matches Some((key, line)) ==> exists|public: Seq<u8>|
            public.len() == 32 && line@ == openssh_ed25519_line(public),
{
    match random_signing_key() {
        Some(key) => {
            let public = public_key_bytes(&key);
            match openssh_public_line(&public) {
                Ok(line) => Some((key, line)),
                Err(_) => None,
            }
        },
        None => None,
    }
}

/// The OpenSSH PEM text of the private key, for storage.
pub fn encode_private_key(key: &SigningKey) -> (r: Result<String, KeyError>) {
    match openssh_private_pem(key) {
        Ok(pem) => Ok(pem),
        Err(_) => Err(KeyError::Encoding),
    }
}

} // verus!
