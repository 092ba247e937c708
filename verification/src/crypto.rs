//! Keys and signatures.

use ed25519_dalek::SigningKey;
use vstd::prelude::*;

use crate::account::AccountId;

verus! {

/// The error of the key parser.
#[verifier::external_type_specification]
#[verifier::external_body]
pub struct ExParseKeyError(near_crypto::ParseKeyError);

/// A public key.
#[derive(Clone, Copy, Debug, PartialEq, Eq)]
pub enum PublicKey {
    Ed25519([u8; 32]),
    Secp256k1([u8; 64]),
}

impl PublicKey {
    /// The bytes of the key. Their number tells the curve.
    pub open spec fn bytes(self) -> Seq<u8> {
        match self {
            PublicKey::Ed25519(key) => key@,
            PublicKey::Secp256k1(key) => key@,
        }
    }

    /// The text of the key: the name of the curve, a colon, and the bytes in base58.
    pub open spec fn text(self) -> Seq<char> {
        match self {
            PublicKey::Ed25519(key) => "ed25519:"@ + base58(key@),
            PublicKey::Secp256k1(key) => "secp256k1:"@ + base58(key@),
        }
    }
}

/// The number that bytes spell, the most significant byte first.
pub open spec fn big_endian(data: Seq<u8>) -> nat
    decreases data.len(),
{
    if data.len() == 0 {
        0
    } else {
        big_endian(data.drop_last()) * 256 + data.last() as nat
    }
}

/// The digits of a number in base58, none for zero.
pub open spec fn base58_digits(n: nat) -> Seq<char>
    decreases n,
{
    if n == 0 {
        Seq::empty()
    } else {
        base58_digits(n / 58).push(
            "123456789ABCDEFGHJKLMNPQRSTUVWXYZabcdefghijkmnopqrstuvwxyz"@[(n % 58) as int],
        )
    }
}

/// The base58 text of bytes: the number that they spell, after a `1` for each zero byte that
/// they begin with.
pub open spec fn base58(data: Seq<u8>) -> Seq<char>
    decreases data.len(),
{
    if data.len() > 0 && data[0] == 0 {
        seq!['1'] + base58(data.skip(1))
    } else {
        base58_digits(big_endian(data))
    }
}

/// The public key that belongs to a secret key, `None` where the text is no secret key: what
/// the parser of `near_crypto::SecretKey` and its `public_key` give.
pub uninterp spec fn public_key_of(secret_key: Seq<char>) -> Option<PublicKey>;

/// Whether the second half of an ed25519 secret key is the public key of the first half: what
/// `ed25519_dalek::SigningKey::from_keypair_bytes` tests.
pub uninterp spec fn is_ed25519_keypair(secret_key: Seq<char>) -> bool;

/// The text of the signature that a secret key gives to some data: what the `sign` method of
/// `near_crypto::SecretKey` gives. Both curves sign without randomness.
pub uninterp spec fn signature_of(secret_key: Seq<char>, data: Seq<u8>) -> Seq<char>;

/// Calls the parser of `near_crypto::SecretKey` (its `FromStr`) and its `public_key` method.
///
/// Claimed of them: whether the text is a secret key, and which public key belongs to it,
/// depend on the text alone.
#[verifier::external_body]
fn read_public_key(secret_key: &str) -> (key: Result<PublicKey, near_crypto::ParseKeyError>)
    ensures
        match key {
            Ok(key) => public_key_of(secret_key@) == Some(key),
            Err(_) => public_key_of(secret_key@) is None,
        },
{
    let key = secret_key.parse::<near_crypto::SecretKey>()?.public_key();
    Ok(match &key {
        near_crypto::PublicKey::ED25519(key) => PublicKey::Ed25519(key.0),
        near_crypto::PublicKey::SECP256K1(key) => {
            PublicKey::Secp256k1(AsRef::<[u8]>::as_ref(key).try_into().expect("64 bytes"))
        },
    })
}

/// Calls `ed25519_dalek::SigningKey::from_keypair_bytes` on the bytes of an ed25519 key.
///
/// Claimed of it: whether it accepts the key depends on the text of the key alone. Of a text
/// that is no ed25519 key nothing is claimed.
#[verifier::external_body]
fn check_ed25519_keypair(secret_key: &str) -> (consistent: bool)
    ensures
        public_key_of(secret_key@) matches Some(PublicKey::Ed25519(_)) ==> consistent
            == is_ed25519_keypair(secret_key@),
{
    match secret_key.parse::<near_crypto::SecretKey>() {
        Ok(near_crypto::SecretKey::ED25519(key)) => SigningKey::from_keypair_bytes(&key.0).is_ok(),
        Ok(near_crypto::SecretKey::SECP256K1(_)) => false,
        Err(_) => false,
    }
}

/// Calls the `sign` method of `near_crypto::SecretKey`, and displays the signature.
///
/// Claimed of it: the signature depends on the key and the data alone. The method panics on
/// an ed25519 key whose halves do not fit and, with a secp256k1 key, on data that is not a
/// hash of thirty-two bytes, so those are left out.
#[verifier::external_body]
fn sign_with(secret_key: &str, data: &[u8]) -> (signature: String)
    requires
        public_key_of(secret_key@) is Some,
        public_key_of(secret_key@) matches Some(PublicKey::Ed25519(_)) ==> is_ed25519_keypair(
            secret_key@,
        ),
        public_key_of(secret_key@) matches Some(PublicKey::Secp256k1(_)) ==> data@.len() == 32,
    ensures
        signature@ == signature_of(secret_key@, data@),
{
    secret_key.parse::<near_crypto::SecretKey>().expect("a secret key").sign(data).to_string()
}

/// Displays a `near_crypto::PublicKey`.
///
/// Claimed of it: the text is the name of the curve in lower case, a colon, and the bytes of
/// the key in base58 with the alphabet of Bitcoin.
#[verifier::external_body]
fn display_public_key(key: &PublicKey) -> (text: String)
    ensures
        text@ == key.text(),
{
    match key {
        PublicKey::Ed25519(key) => {
            near_crypto::PublicKey::ED25519(near_crypto::ED25519PublicKey(*key)).to_string()
        },
        PublicKey::Secp256k1(key) => {
            near_crypto::PublicKey::SECP256K1(near_crypto::Secp256K1PublicKey::from(*key))
                .to_string()
        },
    }
}

/// A text that is no secret key.
#[derive(Clone, Copy, Debug, PartialEq, Eq, Structural)]
pub struct UnreadableKey;

/// An account together with the secret key that signs for it.
pub struct Signer {
    account_id: AccountId,
    public_key: PublicKey,
    secret_key: String,
}

impl Signer {
    #[verifier::type_invariant]
    closed spec fn well_formed(self) -> bool {
        public_key_of(self.secret_key@) == Some(self.public_key)
    }

    /// The account that signs.
    pub closed spec fn account(self) -> AccountId {
        self.account_id
    }

    /// The public key of the account.
    pub closed spec fn key(self) -> PublicKey {
        self.public_key
    }

    /// The text of the secret key.
    pub closed spec fn secret(self) -> Seq<char> {
        self.secret_key@
    }

    /// The text of the signature that the secret key gives to some data.
    pub open spec fn signature(self, data: Seq<u8>) -> Seq<char> {
        signature_of(self.secret(), data)
    }

    /// Whether the key signs hashes: an ed25519 key does where its halves fit, and a secp256k1
    /// key always does.
    pub open spec fn signs_hashes(self) -> bool {
        self.key() is Ed25519 ==> is_ed25519_keypair(self.secret())
    }

    /// Whether the key signs messages of any length: an ed25519 key does where its halves fit.
    pub open spec fn signs_messages(self) -> bool {
        self.key() is Ed25519 && is_ed25519_keypair(self.secret())
    }

    /// Joins an account and its secret key.
    pub fn new(account_id: AccountId, secret_key: String) -> (signer: Result<Signer, UnreadableKey>)
        ensures
            match signer {
                Ok(signer) => {
                    &&& signer.account() == account_id
                    &&& signer.secret() == secret_key@
                    &&& public_key_of(secret_key@) == Some(signer.key())
                },
                Err(_) => public_key_of(secret_key@) is None,
            },
    {
        match read_public_key(secret_key.as_str()) {
            Ok(public_key) => Ok(Signer { account_id, public_key, secret_key }),
            Err(_) => Err(UnreadableKey),
        }
    }

    /// Whether the key signs hashes.
    pub fn can_sign_hashes(&self) -> (signs: bool)
        ensures
            signs == self.signs_hashes(),
    {
        proof {
            use_type_invariant(self);
        }
        match self.public_key {
            PublicKey::Ed25519(_) => check_ed25519_keypair(self.secret_key.as_str()),
            PublicKey::Secp256k1(_) => true,
        }
    }

    /// Whether the key signs messages of any length.
    pub fn can_sign_messages(&self) -> (signs: bool)
        ensures
            signs == self.signs_messages(),
    {
        proof {
            use_type_invariant(self);
        }
        match self.public_key {
            PublicKey::Ed25519(_) => check_ed25519_keypair(self.secret_key.as_str()),
            PublicKey::Secp256k1(_) => false,
        }
    }

    /// The account that signs.
    pub fn account_id(&self) -> (account_id: &AccountId)
        ensures
            *account_id == self.account(),
    {
        &self.account_id
    }

    /// The public key of the account.
    pub fn public_key(&self) -> (public_key: PublicKey)
        ensures
            public_key == self.key(),
    {
        self.public_key
    }

    /// The text of the public key.
    pub fn public_key_text(&self) -> (text: String)
        ensures
            text@ == self.key().text(),
    {
        display_public_key(&self.public_key)
    }

    /// Signs some data, which is a hash where the key signs hashes only.
    pub fn sign(&self, data: &[u8]) -> (signature: String)
        requires
            self.signs_hashes(),
            self.signs_messages() || data@.len() == 32,
        ensures
            signature@ == self.signature(data@),
    {
        proof {
            use_type_invariant(self);
        }
        sign_with(self.secret_key.as_str(), data)
    }
}

impl Clone for Signer {
    fn clone(&self) -> (signer: Signer)
        ensures
            signer == *self,
    {
        proof {
            use_type_invariant(self);
        }
        Signer {
            account_id: self.account_id.clone(),
            public_key: self.public_key,
            secret_key: self.secret_key.clone(),
        }
    }
}

} // verus!
