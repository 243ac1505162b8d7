//! How a transaction is written in a request.

use solana_transaction_status::{TransactionBinaryEncoding, UiTransactionEncoding};
use vstd::prelude::*;

verus! {

/// The encodings that a request may name.
#[derive(Clone, Copy, Debug, PartialEq, Eq, Structural)]
pub enum TransactionEncoding {
    Binary,
    Base64,
    Base58,
    Json,
    JsonParsed,
}

/// The encodings that turn text into bytes.
#[derive(Clone, Copy, Debug, PartialEq, Eq, Structural)]
pub enum BinaryEncoding {
    Base58,
    Base64,
}

impl TransactionEncoding {
    /// The encoding of the bytes of a transaction, if it has one. `Binary` is an old name for
    /// base58.
    pub open spec fn as_binary(self) -> Option<BinaryEncoding> {
        match self {
            TransactionEncoding::Binary => Some(BinaryEncoding::Base58),
            TransactionEncoding::Base58 => Some(BinaryEncoding::Base58),
            TransactionEncoding::Base64 => Some(BinaryEncoding::Base64),
            TransactionEncoding::Json => None,
            TransactionEncoding::JsonParsed => None,
        }
    }

    /// The name of the encoding in requests.
    pub open spec fn name(self) -> Seq<char> {
        match self {
            TransactionEncoding::Binary => "binary"@,
            TransactionEncoding::Base58 => "base58"@,
            TransactionEncoding::Base64 => "base64"@,
            TransactionEncoding::Json => "json"@,
            TransactionEncoding::JsonParsed => "jsonParsed"@,
        }
    }
}

/// Asks `solana_transaction_status::UiTransactionEncoding::into_binary_encoding` for the encoding
/// of the bytes: base58 for `Binary` and `Base58`, base64 for `Base64`, none for the other two.
#[verifier::external_body]
pub(crate) fn binary_encoding(encoding: TransactionEncoding) -> (r: Option<BinaryEncoding>)
    ensures
        r == encoding.as_binary(),
{
    let encoding = match encoding {
        TransactionEncoding::Binary => UiTransactionEncoding::Binary,
        TransactionEncoding::Base64 => UiTransactionEncoding::Base64,
        TransactionEncoding::Base58 => UiTransactionEncoding::Base58,
        TransactionEncoding::Json => UiTransactionEncoding::Json,
        TransactionEncoding::JsonParsed => UiTransactionEncoding::JsonParsed,
    };
    encoding.into_binary_encoding().map(|binary| match binary {
        TransactionBinaryEncoding::Base58 => BinaryEncoding::Base58,
        TransactionBinaryEncoding::Base64 => BinaryEncoding::Base64,
    })
}

/// Writes the name of an encoding with `solana_transaction_status::UiTransactionEncoding`'s
/// `Display`: the variant's name in camel case.
#[verifier::external_body]
pub(crate) fn encoding_name(encoding: TransactionEncoding) -> (r: String)
    ensures
        r@ == encoding.name(),
{
    match encoding {
        TransactionEncoding::Binary => UiTransactionEncoding::Binary,
        TransactionEncoding::Base64 => UiTransactionEncoding::Base64,
        TransactionEncoding::Base58 => UiTransactionEncoding::Base58,
        TransactionEncoding::Json => UiTransactionEncoding::Json,
        TransactionEncoding::JsonParsed => UiTransactionEncoding::JsonParsed,
    }.to_string()
}

} // verus!
