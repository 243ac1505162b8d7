//! The identifier of a bundle.

use vstd::prelude::*;
use vstd::utf8::*;

use crate::jito::digest::{hex_encode, hex_text, sha256, sha256_digest};
use crate::keys::{encode_signature, signature_text, Signature};
use crate::text::{join, joined, texts};

verus! {

/// The bytes of the signatures, in order.
pub open spec fn signature_bytes(signatures: Seq<Signature>) -> Seq<Seq<u8>> {
    Seq::new(signatures.len(), |i: int| signatures[i]@)
}

/// The base58 texts of the signatures, in order, with commas between them.
pub open spec fn preimage(signatures: Seq<Seq<u8>>) -> Seq<char> {
    joined(Seq::new(signatures.len(), |i: int| signature_text(signatures[i])), ","@)
}

/// The identifier of a bundle: the SHA-256 hash, in hexadecimal, of its signatures' base58 texts
/// with commas between them.
pub open spec fn bundle_id_text(signatures: Seq<Seq<u8>>) -> Seq<char> {
    hex_text(sha256(encode_utf8(preimage(signatures))))
}

/// The text whose hash identifies a bundle.
pub fn bundle_preimage(signatures: &Vec<Signature>) -> (r: String)
    ensures
        r@ == preimage(signature_bytes(signatures@)),
{
    let mut parts: Vec<String> = Vec::new();
    for i in 0..signatures.len()
        invariant
            parts@.len() == i,
            forall|j: int| 0 <= j < i ==> #[trigger] parts@[j]@ == signature_text(signatures@[j]@),
    {
        parts.push(encode_signature(&signatures[i]));
    }
    assert(texts(parts@) =~= Seq::new(
        signature_bytes(signatures@).len(),
        |i: int| signature_text(signature_bytes(signatures@)[i]),
    ));
    join(&parts, ",")
}

/// The identifier of the bundle with these signatures.
pub fn bundle_id(signatures: &Vec<Signature>) -> (r: String)
    ensures
        r@ == bundle_id_text(signature_bytes(signatures@)),
        r@.len() == 64,
{
    let text: String = bundle_preimage(signatures);
    let digest: Vec<u8> = sha256_digest(text.as_str().as_bytes());
    hex_encode(digest.as_slice())
}

} // verus!
