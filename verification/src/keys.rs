//! Key pairs: drawing a fresh one, reading its public address and its
//! bytes, and writing the bytes in base 58.

use vstd::prelude::*;
use solana_sdk::signature::{Keypair, Signer};

verus! {

/// The number of bytes of a key pair: the secret key followed by the public
/// key.
pub const KEYPAIR_BYTES: usize = 64;

/// `solana_sdk::signature::Keypair`: an Ed25519 key pair. Nothing is known
/// of a value but what the functions below return for it.
#[verifier::external_type_specification]
#[verifier::external_body]
pub struct ExKeypair(solana_sdk::signature::Keypair);

/// `Keypair::new`: a key pair made from random bytes. Nothing is promised of
/// it.
#[verifier::external_body]
fn new_keypair() -> Keypair {
    Keypair::new()
}

/// `Signer::pubkey` of a key pair, written out as a string: the address in
/// the textual form in which it is published. Nothing is promised of it.
#[verifier::external_body]
fn keypair_address(keypair: &Keypair) -> String {
    keypair.pubkey().to_string()
}

/// `Keypair::to_bytes`: the key pair as an array of 64 bytes, handed out as
/// a vector.
#[verifier::external_body]
fn keypair_bytes(keypair: &Keypair) -> (bytes: Vec<u8>)
    ensures
        bytes@.len() == KEYPAIR_BYTES,
{
    keypair.to_bytes().to_vec()
}

/// The base-58 text of a byte string in the Bitcoin alphabet, as
/// `bs58::encode` produces it.
pub uninterp spec fn base58_text(bytes: Seq<u8>) -> Seq<char>;

/// `bs58::encode(..).into_string()`: the bytes in base 58, with the default
/// alphabet.
#[verifier::external_body]
fn encode_base58(bytes: &Vec<u8>) -> (text: String)
    ensures
        text@ == base58_text(bytes@),
{
    bs58::encode(bytes).into_string()
}

/// What a worker draws for one candidate before the candidate gets its
/// sequence number.
#[derive(Debug, Clone, PartialEq, Eq)]
pub struct KeyMaterial {
    pub public_address: String,
    pub private_key_encoding: String,
}

/// Key material as plain values.
pub struct KeyMaterialView {
    pub public_address: Seq<char>,
    pub private_key_encoding: Seq<char>,
}

impl View for KeyMaterial {
    type V = KeyMaterialView;

    open spec fn view(&self) -> KeyMaterialView {
        KeyMaterialView {
            public_address: self.public_address@,
            private_key_encoding: self.private_key_encoding@,
        }
    }
}

/// The key material of a key pair with the given address and bytes: the
/// address as it is, the bytes in base 58.
pub fn key_material(public_address: String, keypair_bytes: &Vec<u8>) -> (material: KeyMaterial)
    ensures
        material@ == (KeyMaterialView {
            public_address: public_address@,
            private_key_encoding: base58_text(keypair_bytes@),
        }),
{
    KeyMaterial { public_address, private_key_encoding: encode_base58(keypair_bytes) }
}

/// Draws a fresh key pair and returns its key material. The private key
/// encoding is the base-58 text of the 64 bytes of the key pair.
pub fn generate() -> (material: KeyMaterial)
    ensures
        exists|bytes: Seq<u8>|
            bytes.len() == KEYPAIR_BYTES && material@.private_key_encoding == #[trigger] base58_text(
                bytes,
            ),
{
    let keypair = new_keypair();
    let bytes = keypair_bytes(&keypair);
    key_material(keypair_address(&keypair), &bytes)
}

} // verus!
