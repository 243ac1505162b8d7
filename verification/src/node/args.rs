//! Checking the arguments of calls from JavaScript.

use vstd::prelude::*;
use vstd::string::*;

use crate::keys::{
    decode_keypair, decode_pubkey, is_keypair, keys_bytes, option_bytes, parsed_bytes,
    pubkey_from_text, Keypair, Pubkey,
};
use crate::number::Number;
use crate::text::{cat2, cat4, texts};

verus! {

/// The kind of an error.
#[derive(Clone, Copy, Debug, PartialEq, Eq, Structural)]
pub enum Status {
    /// An argument is not acceptable.
    InvalidArg,
    /// The call failed.
    GenericFailure,
}

/// An error as JavaScript gets it.
#[derive(Debug)]
pub struct Error {
    pub status: Status,
    pub reason: String,
}

/// An error as JavaScript gets it.
pub struct ErrorView {
    pub status: Status,
    pub reason: Seq<char>,
}

impl View for Error {
    type V = ErrorView;

    open spec fn view(&self) -> ErrorView {
        ErrorView { status: self.status, reason: self.reason@ }
    }
}

/// The complaint about an argument.
pub open spec fn invalid(reason: Seq<char>) -> ErrorView {
    ErrorView { status: Status::InvalidArg, reason }
}

/// An argument that has to be an address.
pub open spec fn pubkey_arg(
    parsed: Result<Seq<u8>, Seq<char>>,
    field: Seq<char>,
) -> Result<Seq<u8>, ErrorView> {
    match parsed {
        Ok(bytes) => Ok(bytes),
        Err(e) => Err(invalid("Invalid "@ + field + ": "@ + e)),
    }
}

/// An argument that may be left out and otherwise has to be an address.
pub open spec fn optional_pubkey_arg(value: Option<Seq<char>>, field: Seq<char>) -> Result<
    Option<Seq<u8>>,
    ErrorView,
> {
    match value {
        None => Ok(None),
        Some(text) => match pubkey_arg(pubkey_from_text(text), field) {
            Ok(bytes) => Ok(Some(bytes)),
            Err(e) => Err(e),
        },
    }
}

/// An argument that has to be a list of addresses: the first that is not one is complained of.
pub open spec fn pubkeys_arg(values: Seq<Seq<char>>, field: Seq<char>) -> Result<
    Seq<Seq<u8>>,
    ErrorView,
>
    decreases values.len(),
{
    if values.len() == 0 {
        Ok(Seq::empty())
    } else {
        match pubkeys_arg(values.drop_last(), field) {
            Err(e) => Err(e),
            Ok(keys) => match pubkey_arg(pubkey_from_text(values.last()), field) {
                Err(e) => Err(e),
                Ok(key) => Ok(keys.push(key)),
            },
        }
    }
}

/// An argument that has to be the sixty-four bytes of a keypair.
pub open spec fn keypair_arg(bytes: Seq<u8>, field: Seq<char>) -> Result<Seq<u8>, ErrorView> {
    if is_keypair(bytes) {
        Ok(bytes)
    } else {
        Err(invalid("Invalid "@ + field + ": "@ + "signature error"@))
    }
}

/// An argument that has to be a whole number that is not negative and fits a `u64`.
pub open spec fn number_arg(value: Number, field: Seq<char>) -> Result<u64, ErrorView> {
    match value.unsigned() {
        Some(n) => Ok(n),
        None => Err(invalid(field + " must be a non-negative integer"@)),
    }
}

/// An address, or the complaint about it.
pub open spec fn checked_pubkey(r: Result<Pubkey, Error>) -> Result<Seq<u8>, ErrorView> {
    match r {
        Ok(key) => Ok(key@),
        Err(e) => Err(e@),
    }
}

/// An optional address, or the complaint about it.
pub open spec fn checked_optional(r: Result<Option<Pubkey>, Error>) -> Result<
    Option<Seq<u8>>,
    ErrorView,
> {
    match r {
        Ok(key) => Ok(option_bytes(key)),
        Err(e) => Err(e@),
    }
}

/// A list of addresses, or the complaint about one.
pub open spec fn checked_pubkeys(r: Result<Vec<Pubkey>, Error>) -> Result<
    Seq<Seq<u8>>,
    ErrorView,
> {
    match r {
        Ok(keys) => Ok(keys_bytes(keys@)),
        Err(e) => Err(e@),
    }
}

/// A keypair, or the complaint about it.
pub open spec fn checked_keypair(r: Result<Keypair, Error>) -> Result<Seq<u8>, ErrorView> {
    match r {
        Ok(keypair) => Ok(keypair@),
        Err(e) => Err(e@),
    }
}

/// A number, or the complaint about it.
pub open spec fn checked_number(r: Result<u64, Error>) -> Result<u64, ErrorView> {
    match r {
        Ok(n) => Ok(n),
        Err(e) => Err(e@),
    }
}

/// The optional text that is lent out.
pub open spec fn lent_text(value: &Option<String>) -> Option<Seq<char>> {
    crate::text::option_text(*value)
}

/// An error of the network, as JavaScript gets it.
pub fn sdk_error_to_napi(error: String) -> (r: Error)
    ensures
        r@ == (ErrorView { status: Status::GenericFailure, reason: error@ }),
{
    Error { status: Status::GenericFailure, reason: error }
}

/// Turns the parser's complaint about an address into one that names the argument.
pub fn check_pubkey(parsed: Result<Pubkey, String>, field_name: &str) -> (r: Result<Pubkey, Error>)
    ensures
        checked_pubkey(r) == pubkey_arg(parsed_bytes(parsed), field_name@),
{
    match parsed {
        Ok(key) => Ok(key),
        Err(e) => Err(
            Error {
                status: Status::InvalidArg,
                reason: cat4("Invalid ", field_name, ": ", e.as_str()),
            },
        ),
    }
}

/// Reads an argument that has to be an address.
pub fn parse_pubkey(value: &str, field_name: &str) -> (r: Result<Pubkey, Error>)
    ensures
        checked_pubkey(r) == pubkey_arg(pubkey_from_text(value@), field_name@),
{
    check_pubkey(decode_pubkey(value), field_name)
}

/// Reads an argument that may be left out and otherwise has to be an address.
pub fn parse_optional_pubkey(value: &Option<String>, field_name: &str) -> (r: Result<
    Option<Pubkey>,
    Error,
>)
    ensures
        checked_optional(r) == optional_pubkey_arg(lent_text(value), field_name@),
{
    match value {
        None => Ok(None),
        Some(text) => match parse_pubkey(text.as_str(), field_name) {
            Ok(key) => Ok(Some(key)),
            Err(e) => Err(e),
        },
    }
}

/// Once an address of the list is not acceptable, that is the complaint about the list, whatever
/// follows.
proof fn lemma_first_complaint(values: Seq<Seq<char>>, field: Seq<char>, upto: int)
    requires
        0 <= upto <= values.len(),
        pubkeys_arg(values.take(upto), field) is Err,
    ensures
        pubkeys_arg(values, field) == pubkeys_arg(values.take(upto), field),
    decreases values.len() - upto,
{
    if upto == values.len() {
        assert(values.take(upto) =~= values);
    } else {
        assert(values.take(upto + 1).drop_last() =~= values.take(upto));
        lemma_first_complaint(values, field, upto + 1);
    }
}

/// Reads an argument that has to be a list of addresses.
pub fn parse_pubkeys(values: &Vec<String>, field_name: &str) -> (r: Result<Vec<Pubkey>, Error>)
    ensures
        checked_pubkeys(r) == pubkeys_arg(texts(values@), field_name@),
{
    let mut keys: Vec<Pubkey> = Vec::new();
    let ghost all = texts(values@);
    assert(keys_bytes(keys@) =~= Seq::empty());
    for i in 0..values.len()
        invariant
            all == texts(values@),
            pubkeys_arg(all.take(i as int), field_name@) == Ok::<Seq<Seq<u8>>, ErrorView>(
                keys_bytes(keys@),
            ),
    {
        proof {
            assert(all.take(i + 1).drop_last() =~= all.take(i as int));
            assert(all.take(i + 1).last() == values@[i as int]@);
        }
        match parse_pubkey(values[i].as_str(), field_name) {
            Err(e) => {
                proof {
                    lemma_first_complaint(all, field_name@, i + 1);
                }
                return Err(e);
            },
            Ok(key) => {
                let ghost before = keys_bytes(keys@);
                keys.push(key);
                assert(keys_bytes(keys@) =~= before.push(key@));
            },
        }
    }
    assert(all.take(all.len() as int) =~= all);
    Ok(keys)
}

/// Reads an argument that has to be the sixty-four bytes of a keypair.
pub fn parse_keypair(bytes: &[u8], field_name: &str) -> (r: Result<Keypair, Error>)
    ensures
        checked_keypair(r) == keypair_arg(bytes@, field_name@),
{
    match decode_keypair(bytes) {
        Ok(keypair) => Ok(keypair),
        Err(e) => Err(
            Error {
                status: Status::InvalidArg,
                reason: cat4("Invalid ", field_name, ": ", e.as_str()),
            },
        ),
    }
}

/// Reads an argument that has to be a whole number that is not negative and fits a `u64`.
pub fn f64_to_u64(value: Number, field_name: &str) -> (r: Result<u64, Error>)
    ensures
        checked_number(r) == number_arg(value, field_name@),
{
    match value.to_u64() {
        Some(n) => Ok(n),
        None => Err(
            Error {
                status: Status::InvalidArg,
                reason: cat2(field_name, " must be a non-negative integer"),
            },
        ),
    }
}

} // verus!
