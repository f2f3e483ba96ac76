use vstd::prelude::*;
use vstd::string::StringExecFns;
use crate::node::{majority, Node};

verus! {

/// Whether `signature` (a serialized FROST(Ed25519, SHA-512) signature) is a
/// valid signature of `message` under the group verifying key of
/// `public_key_package` (a serialized public key package); false when either
/// does not deserialize.
pub uninterp spec fn frost_verification(public_key_package: Seq<u8>, message: Seq<u8>, signature: Seq<u8>) -> bool;

/// The serialized key package that the serialized secret share
/// `secret_share` verifies into; or, when it does not deserialize or does not
/// verify against its commitment, the `Debug` rendering of the FROST error
/// that says why.
pub uninterp spec fn frost_key_package(secret_share: Seq<u8>) -> Result<Seq<u8>, Seq<char>>;

/// The serialized round-two signature share that the signer of
/// `key_package` produces for `signing_package` with `nonces` (all three
/// serialized); or, when one does not deserialize or signing fails, the
/// `Debug` rendering of the FROST error that says why.
pub uninterp spec fn frost_signature_share(signing_package: Seq<u8>, nonces: Seq<u8>, key_package: Seq<u8>) -> Result<Seq<u8>, Seq<char>>;

/// The view of a byte string or error text that a wrapper returns.
pub open spec fn outcome_view(r: Result<Vec<u8>, String>) -> Result<Seq<u8>, Seq<char>> {
    match r {
        Ok(v) => Ok(v@),
        Err(e) => Err(e@),
    }
}

/// Checks a signature with `frost_ed25519`: deserializes the
/// `PublicKeyPackage` and the `Signature`, then calls `VerifyingKey::verify`
/// on the package's group key. The contract claims that the result depends on
/// the three byte strings alone (verification is deterministic).
#[verifier::external_body]
fn frost_verify(public_key_package: &[u8], message: &[u8], signature: &[u8]) -> (valid: bool)
    ensures
        valid == frost_verification(public_key_package@, message@, signature@),
{
    match (
        frost_ed25519::keys::PublicKeyPackage::deserialize(public_key_package),
        frost_ed25519::Signature::deserialize(signature),
    ) {
        (Ok(package), Ok(signature)) => package.verifying_key().verify(message, &signature).is_ok(),
        _ => false,
    }
}

/// Turns a secret share into a key package with `frost_ed25519`:
/// deserializes the `SecretShare`, calls `KeyPackage::try_from` (which
/// verifies the share) and serializes the result; a FROST error is rendered
/// with `Debug`. The contract claims that the result depends on the share's
/// bytes alone.
#[verifier::external_body]
fn frost_key_package_from_share(secret_share: &[u8]) -> (key_package: Result<Vec<u8>, String>)
    ensures
        outcome_view(key_package) == frost_key_package(secret_share@),
{
    let share = frost_ed25519::keys::SecretShare::deserialize(secret_share).map_err(|e| format!("{:?}", e))?;
    let package = frost_ed25519::keys::KeyPackage::try_from(share).map_err(|e| format!("{:?}", e))?;
    package.serialize().map_err(|e| format!("{:?}", e))
}

/// Computes a round-two signature share with `frost_ed25519::round2::sign`
/// after deserializing its three arguments, and serializes the share; a FROST
/// error is rendered with `Debug`. The contract claims that the result
/// depends on the three byte strings alone (round two draws no randomness).
#[verifier::external_body]
fn frost_round2_sign(signing_package: &[u8], nonces: &[u8], key_package: &[u8]) -> (share: Result<Vec<u8>, String>)
    ensures
        outcome_view(share) == frost_signature_share(signing_package@, nonces@, key_package@),
{
    let package = frost_ed25519::SigningPackage::deserialize(signing_package).map_err(|e| format!("{:?}", e))?;
    let nonces = frost_ed25519::round1::SigningNonces::deserialize(nonces).map_err(|e| format!("{:?}", e))?;
    let key = frost_ed25519::keys::KeyPackage::deserialize(key_package).map_err(|e| format!("{:?}", e))?;
    let share = frost_ed25519::round2::sign(&package, &nonces, &key).map_err(|e| format!("{:?}", e))?;
    Ok(share.serialize())
}

/// A FROST error, held as its `Debug` rendering: the variant's name and,
/// where it has them, its fields (such as the culprit's identifier), e.g.
/// `InvalidSignature` or `IncorrectCommitment`.
#[derive(Debug, Clone, PartialEq, Eq)]
pub struct FrostError {
    pub description: String,
}

/// The text of FROST's `InvalidSignature` error.
pub open spec fn invalid_signature_text() -> Seq<char> {
    "InvalidSignature"@
}

/// The number of signers a FROST key split among `max_signers` nodes needs:
/// the same majority that wins an election among that many nodes.
pub fn signing_threshold(max_signers: u16) -> (min_signers: u16)
    ensures
        min_signers == majority(max_signers as int),
{
    max_signers / 2 + 1
}

/// The outcome of signing, given what FROST produced: the share, or the text
/// of its error.
pub fn signing_result(share: Result<Vec<u8>, String>) -> (r: Result<Vec<u8>, FrostError>)
    ensures
        match share {
            Ok(s) => r matches Ok(v) && v@ == s@,
            Err(d) => r matches Err(e) && e.description@ == d@,
        },
{
    match share {
        Ok(s) => Ok(s),
        Err(description) => Err(FrostError { description }),
    }
}

impl Node {
    /// Gives the node its share of the signing key (serialized), or takes it away.
    pub fn set_frost_key(&mut self, secret_share: Option<Vec<u8>>)
        ensures
            final(self).frost_key == secret_share,
            final(self).server == old(self).server,
            final(self).peers == old(self).peers,
            final(self).config == old(self).config,
            final(self).last_heartbeat == old(self).last_heartbeat,
            final(self).votes_received == old(self).votes_received,
    {
        self.frost_key = secret_share;
    }

    /// Whether `signature` is a valid group signature of `message` under the
    /// group key of `pubkey_package`.
    pub fn verify_signature(&self, message: &[u8], signature: &[u8], pubkey_package: &[u8]) -> (valid: bool)
        ensures
            valid == frost_verification(pubkey_package@, message@, signature@),
    {
        frost_verify(pubkey_package, message, signature)
    }

    /// This node's round-two signature share for `signing_package`, made with
    /// `nonces` and its share of the key. Without a share it fails with FROST's
    /// `InvalidSignature`; otherwise it fails with the error FROST reports when
    /// the share does not verify into a key package or signing fails.
    pub fn sign_message(&self, message: &[u8], nonces: &[u8], signing_package: &[u8]) -> (r: Result<Vec<u8>, FrostError>)
        ensures
            match self.frost_key {
                None => r matches Err(e) && e.description@ == invalid_signature_text(),
                Some(share) => match frost_key_package(share@) {
                    Err(d) => r matches Err(e) && e.description@ == d,
                    Ok(k) => match frost_signature_share(signing_package@, nonces@, k) {
                        Err(d) => r matches Err(e) && e.description@ == d,
                        Ok(s) => r matches Ok(v) && v@ == s,
                    },
                },
            },
    {
        match &self.frost_key {
            None => {
                let description = String::from_str("InvalidSignature");
                Err(FrostError { description })
            },
            Some(share) => match frost_key_package_from_share(share.as_slice()) {
                Err(description) => Err(FrostError { description }),
                Ok(key_package) => {
                    let share = frost_round2_sign(signing_package, nonces, key_package.as_slice());
                    signing_result(share)
                },
            },
        }
    }
}

} // verus!
