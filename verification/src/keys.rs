//! Addresses, signatures and keypairs.

use vstd::prelude::*;

verus! {

/// An account address: thirty-two bytes.
#[derive(Clone, Copy, Debug, PartialEq, Eq)]
pub struct Pubkey {
    pub bytes: [u8; 32],
}

impl View for Pubkey {
    type V = Seq<u8>;

    open spec fn view(&self) -> Seq<u8> {
        self.bytes@
    }
}

/// A transaction signature: sixty-four bytes.
#[derive(Clone, Copy, Debug, PartialEq, Eq)]
pub struct Signature {
    pub bytes: [u8; 64],
}

impl View for Signature {
    type V = Seq<u8>;

    open spec fn view(&self) -> Seq<u8> {
        self.bytes@
    }
}

/// An Ed25519 keypair in its sixty-four byte form: the secret key, then the public key.
#[derive(Debug)]
pub struct Keypair {
    bytes: [u8; 64],
}

impl View for Keypair {
    type V = Seq<u8>;

    closed spec fn view(&self) -> Seq<u8> {
        self.bytes@
    }
}

/// The bytes of an optional address.
pub open spec fn option_bytes(value: Option<Pubkey>) -> Option<Seq<u8>> {
    match value {
        Some(key) => Some(key@),
        None => None,
    }
}

/// The bytes of a sequence of addresses, in order.
pub open spec fn keys_bytes(values: Seq<Pubkey>) -> Seq<Seq<u8>> {
    Seq::new(values.len(), |i: int| values[i]@)
}

/// The bytes or the complaint of an attempt to parse an address.
pub open spec fn parsed_bytes(parsed: Result<Pubkey, String>) -> Result<Seq<u8>, Seq<char>> {
    match parsed {
        Ok(key) => Ok(key@),
        Err(message) => Err(message@),
    }
}

/// What parsing `text` as a base58 address gives: the address, or the parser's complaint.
pub uninterp spec fn pubkey_from_text(text: Seq<char>) -> Result<Seq<u8>, Seq<char>>;

/// Whether parsing `text` gives the address `bytes`.
pub open spec fn reads_as(text: Seq<char>, bytes: Seq<u8>) -> bool {
    pubkey_from_text(text) == Ok::<Seq<u8>, Seq<char>>(bytes)
}

/// The base58 text of the address `bytes`.
pub uninterp spec fn pubkey_text(bytes: Seq<u8>) -> Seq<char>;

/// The base58 text of the signature `bytes`.
pub uninterp spec fn signature_text(bytes: Seq<u8>) -> Seq<char>;

/// Whether `bytes` are a secret key followed by the public key that belongs to it.
pub uninterp spec fn is_keypair(bytes: Seq<u8>) -> bool;

/// Parses a base58 address with `solana_pubkey::Pubkey`'s `FromStr`. What is accepted and which
/// complaint is given depends on the text alone; an accepted text gives thirty-two bytes.
#[verifier::external_body]
pub(crate) fn decode_pubkey(text: &str) -> (r: Result<Pubkey, String>)
    ensures
        parsed_bytes(r) == pubkey_from_text(text@),
{
    match text.parse::<solana_pubkey::Pubkey>() {
        Ok(key) => Ok(Pubkey { bytes: key.to_bytes() }),
        Err(error) => Err(error.to_string()),
    }
}

/// Writes an address in base58 with `solana_pubkey::Pubkey`'s `Display`. The text depends on the
/// thirty-two bytes alone, and parsing it gives them back.
#[verifier::external_body]
pub(crate) fn encode_pubkey(key: &Pubkey) -> (r: String)
    ensures
        r@ == pubkey_text(key@),
        reads_as(r@, key@),
{
    solana_pubkey::Pubkey::from(key.bytes).to_string()
}

/// Writes a signature in base58 with `solana_signature::Signature`'s `Display`. The text depends
/// on the sixty-four bytes alone.
#[verifier::external_body]
pub(crate) fn encode_signature(signature: &Signature) -> (r: String)
    ensures
        r@ == signature_text(signature@),
{
    solana_signature::Signature::from(signature.bytes).to_string()
}

/// Reads a keypair with `solana_keypair::Keypair`'s `TryFrom<&[u8]>`, and hands back its
/// `to_bytes`. Sixty-four bytes whose second half is the public key of the first half are taken as
/// they are; anything else is refused, always with the same complaint.
#[verifier::external_body]
pub(crate) fn decode_keypair(bytes: &[u8]) -> (r: Result<Keypair, String>)
    ensures
        r is Ok <==> is_keypair(bytes@),
        r is Ok ==> r->Ok_0@ == bytes@,
        bytes@.len() != 64 ==> r is Err,
        r is Err ==> r->Err_0@ == "signature error"@,
{
    match solana_keypair::Keypair::try_from(bytes) {
        Ok(keypair) => Ok(Keypair { bytes: keypair.to_bytes() }),
        Err(error) => Err(error.to_string()),
    }
}

/// Makes a keypair from fresh randomness with `solana_keypair::Keypair::new`. Whatever comes out,
/// its second half is the public key of its first half.
#[verifier::external_body]
pub(crate) fn random_keypair() -> (r: Keypair)
    ensures
        is_keypair(r@),
{
    Keypair { bytes: solana_keypair::Keypair::new().to_bytes() }
}

impl Keypair {
    /// The public key: the second half of the sixty-four bytes.
    pub fn pubkey(&self) -> (r: Pubkey)
        ensures
            r@ == self@.subrange(32, 64),
    {
        let mut bytes: [u8; 32] = [0u8;32];
        for i in 0..32usize
            invariant
                forall|j: int| 0 <= j < i ==> bytes@[j] == self.bytes@[j + 32],
        {
            bytes[i] = self.bytes[i + 32];
        }
        let key = Pubkey { bytes };
        assert(key@ =~= self@.subrange(32, 64));
        key
    }

    /// The sixty-four bytes of the keypair.
    pub fn to_bytes(&self) -> (r: Vec<u8>)
        ensures
            r@ == self@,
            r@.len() == 64,
    {
        let mut bytes: Vec<u8> = Vec::new();
        for i in 0..64usize
            invariant
                bytes@ == self.bytes@.take(i as int),
        {
            bytes.push(self.bytes[i]);
            assert(self.bytes@.take(i + 1) =~= self.bytes@.take(i as int).push(
                self.bytes@[i as int],
            ));
        }
        assert(self.bytes@.take(64) =~= self.bytes@);
        bytes
    }
}

} // verus!
