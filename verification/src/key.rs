//! secp256k1 keys and recoverable signatures.
use vstd::prelude::*;

verus! {

/// The number that `bytes` spell, most significant byte first.
pub open spec fn be_value(bytes: Seq<u8>) -> nat
    decreases bytes.len(),
{
    if bytes.len() == 0 {
        0
    } else {
        256 * be_value(bytes.drop_last()) + bytes.last() as nat
    }
}

/// The order of the secp256k1 group.
pub open spec fn curve_order() -> nat {
    0xffff_ffff_ffff_ffff_ffff_ffff_ffff_fffe_baae_dce6_af48_a03b_bfd2_5e8c_d036_4141nat
}

/// Whether 32 bytes are a secret key: not zero, and below the curve order.
pub open spec fn is_secret_key(bytes: Seq<u8>) -> bool {
    0 < be_value(bytes) < curve_order()
}

/// The compressed public key that `secp256k1` derives from a secret key.
pub uninterp spec fn public_key_of(secret: Seq<u8>) -> Seq<u8>;

/// The compact signature and the recovery number that `secp256k1` gives when it
/// signs a digest with a secret key; its nonce is that of RFC 6979, made of the
/// two.
pub uninterp spec fn signature_of(digest: Seq<u8>, secret: Seq<u8>) -> (Seq<u8>, u8);

/// `secp256k1::SecretKey::from_byte_array`: it takes a key that is not zero and
/// below the curve order, read most significant byte first, and no other.
#[verifier::external_body]
fn accepts_secret(bytes: &[u8; 32]) -> (valid: bool)
    ensures
        valid == is_secret_key(bytes@),
{
    secp256k1::SecretKey::from_byte_array(bytes).is_ok()
}

/// `secp256k1::PublicKey::from_secret_key` and its compressed form: the result
/// is the named public key.
#[verifier::external_body]
fn derive_public(secret: &[u8; 32]) -> (public: [u8; 33])
    requires
        is_secret_key(secret@),
    ensures
        public@ == public_key_of(secret@),
{
    let key = secp256k1::SecretKey::from_byte_array(secret).unwrap();
    secp256k1::PublicKey::from_secret_key(&secp256k1::Secp256k1::new(), &key).serialize()
}

/// `secp256k1::Secp256k1::sign_ecdsa_recoverable` and its compact form: the
/// result is the named signature, and the recovery number is below four.
#[verifier::external_body]
fn sign_digest(digest: &[u8; 32], secret: &[u8; 32]) -> (signed: ([u8; 64], u8))
    requires
        is_secret_key(secret@),
    ensures
        (signed.0@, signed.1) == signature_of(digest@, secret@),
        signed.1 < 4,
{
    let key = secp256k1::SecretKey::from_byte_array(secret).unwrap();
    let message = secp256k1::Message::from_digest(*digest);
    let signature = secp256k1::Secp256k1::new().sign_ecdsa_recoverable(&message, &key);
    let (id, compact) = signature.serialize_compact();
    (compact, i32::from(id) as u8)
}

/// A secret key that `secp256k1` accepts.
pub struct SecretKey {
    bytes: [u8; 32],
}

/// The bytes are zero, or not below the curve order.
#[derive(Debug, Clone, Copy, PartialEq, Eq, Structural)]
pub struct InvalidSecretKey;

/// `secp256k1::Error::InvalidSecretKey` as text.
#[verifier::external_body]
fn describe_invalid_key() -> (text: String)
    ensures
        text@ == "malformed or out-of-range secret key"@,
{
    secp256k1::Error::InvalidSecretKey.to_string()
}

impl InvalidSecretKey {
    /// The message for the user.
    pub fn message(&self) -> (text: String)
        ensures
            text@ == "malformed or out-of-range secret key"@,
    {
        describe_invalid_key()
    }
}

impl View for SecretKey {
    type V = Seq<u8>;

    closed spec fn view(&self) -> Seq<u8> {
        self.bytes@
    }
}

impl SecretKey {
    #[verifier::type_invariant]
    spec fn accepted(self) -> bool {
        is_secret_key(self.bytes@)
    }

    /// Takes 32 bytes as a secret key.
    pub fn from_byte_array(bytes: &[u8; 32]) -> (result: Result<SecretKey, InvalidSecretKey>)
        ensures
            result is Ok <==> is_secret_key(bytes@),
            result matches Ok(key) ==> key@ == bytes@,
    {
        if accepts_secret(bytes) {
            Ok(SecretKey { bytes: *bytes })
        } else {
            Err(InvalidSecretKey)
        }
    }

    /// The bytes of the key.
    pub fn secret_bytes(&self) -> (bytes: [u8; 32])
        ensures
            bytes@ == self@,
            is_secret_key(bytes@),
    {
        proof {
            use_type_invariant(self);
        }
        self.bytes
    }

    /// The public key in compressed form.
    pub fn public_key(&self) -> (public: [u8; 33])
        ensures
            public@ == public_key_of(self@),
    {
        proof {
            use_type_invariant(self);
        }
        derive_public(&self.bytes)
    }

    /// Signs a digest: the compact signature, then the recovery number.
    pub fn sign(&self, digest: &[u8; 32]) -> (signature: [u8; 65])
        ensures
            signature@ == signature_of(digest@, self@).0.push(signature_of(digest@, self@).1),
            signature@[64] < 4,
    {
        proof {
            use_type_invariant(self);
        }
        let (compact, recovery): ([u8; 64], u8) = sign_digest(digest, &self.bytes);
        join_signature(&compact, recovery)
    }
}

/// Puts the recovery number behind a compact signature.
pub fn join_signature(compact: &[u8; 64], recovery: u8) -> (signature: [u8; 65])
    ensures
        signature@ == compact@.push(recovery),
{
    let mut signature: [u8; 65] = [recovery;65];
    let mut i: usize = 0;
    while i < 64
        invariant
            i <= 64,
            forall|j: int| 0 <= j < i ==> signature@[j] == compact@[j],
            signature@[64] == recovery,
        decreases 64 - i,
    {
        signature[i] = compact[i];
        i = i + 1;
    }
    assert(signature@ =~= compact@.push(recovery));
    signature
}

/// Each byte of a key counts 256 times as much as the next one.
pub proof fn key_bytes_weigh_by_place(bytes: Seq<u8>, next: u8)
    ensures
        be_value(Seq::empty()) == 0,
        be_value(bytes.push(next)) == 256 * be_value(bytes) + next,
{
    assert(bytes.push(next).drop_last() =~= bytes);
}

/// A secret key is neither zero nor as large as the order of the secp256k1 group.
pub proof fn secret_keys_are_below_the_order(bytes: Seq<u8>)
    ensures
        is_secret_key(bytes) <==> 1 <= be_value(bytes)
            <= 0xffff_ffff_ffff_ffff_ffff_ffff_ffff_fffe_baae_dce6_af48_a03b_bfd2_5e8c_d036_4140nat,
{
}

} // verus!
