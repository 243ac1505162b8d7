//! Decompressing gzip archives, piece by piece.

use std::io::Read;
use vstd::prelude::*;

use crate::text::option_text;

verus! {

/// The most bytes that one piece holds.
pub const PIECE: usize = 512;

#[verifier::external_type_specification]
#[verifier::external_body]
#[verifier::reject_recursive_types(R)]
pub struct ExGzDecoder<R>(flate2::read::GzDecoder<R>);

/// What the decoder of an archive gives for the read number `index`, counted from nought, where
/// every read asks for [`PIECE`] bytes: a piece, or what went wrong. An empty piece is the end.
pub uninterp spec fn inflated_piece(archive: Seq<u8>, index: nat) -> Result<Seq<u8>, Seq<char>>;

/// A piece, or what went wrong.
pub open spec fn piece(result: Result<Vec<u8>, String>) -> Result<Seq<u8>, Seq<char>> {
    match result {
        Ok(bytes) => Ok(bytes@),
        Err(message) => Err(message@),
    }
}

/// The decoder of an archive: which archive it reads, and how many pieces were read.
struct Decoder<'a> {
    inner: flate2::read::GzDecoder<&'a [u8]>,
    archive: Ghost<Seq<u8>>,
    pieces: Ghost<nat>,
}

impl<'a> Decoder<'a> {
    /// Opens an archive with `flate2::read::GzDecoder::new`.
    #[verifier::external_body]
    fn open(archive: &'a [u8]) -> (r: Decoder<'a>)
        ensures
            r.archive@ == archive@,
            r.pieces@ == 0,
    {
        Decoder {
            inner: flate2::read::GzDecoder::new(archive),
            archive: Ghost(archive@),
            pieces: Ghost(0),
        }
    }

    /// Reads the next piece with one `read` of `flate2::read::GzDecoder`, which asks for [`PIECE`]
    /// bytes. What comes depends on the archive and on how many such reads came before.
    #[verifier::external_body]
    fn read_piece(&mut self) -> (r: Result<Vec<u8>, String>)
        ensures
            final(self).archive@ == old(self).archive@,
            final(self).pieces@ == old(self).pieces@ + 1,
            piece(r) == inflated_piece(old(self).archive@, old(self).pieces@),
    {
        let mut buffer = vec![0; PIECE];
        match self.inner.read(&mut buffer) {
            Ok(count) => {
                buffer.truncate(count);
                Ok(buffer)
            },
            Err(error) => Err(error.to_string()),
        }
    }
}

/// The first `count` pieces of an archive, put together.
pub open spec fn pieces_joined(archive: Seq<u8>, count: nat) -> Seq<u8>
    decreases count,
{
    if count == 0 {
        Seq::empty()
    } else {
        pieces_joined(archive, (count - 1) as nat) + inflated_piece(
            archive,
            (count - 1) as nat,
        )->Ok_0
    }
}

/// Whether the piece at `index` is neither the end nor a fault.
pub open spec fn goes_on(archive: Seq<u8>, index: nat) -> bool {
    inflated_piece(archive, index) matches Ok(bytes) && bytes.len() > 0
}

/// Whether the decompression of an archive ends with the piece at `last`.
pub open spec fn ends_with(archive: Seq<u8>, last: nat) -> bool {
    !goes_on(archive, last) && forall|i: nat| i < last ==> #[trigger] goes_on(archive, i)
}

/// What decompressing an archive gives: the pieces before the last one, put together, and what
/// went wrong there, if anything.
pub open spec fn inflated(archive: Seq<u8>) -> (Seq<u8>, Option<Seq<char>>) {
    let last = choose|last: nat| ends_with(archive, last);
    (
        pieces_joined(archive, last),
        match inflated_piece(archive, last) {
            Ok(_) => None,
            Err(message) => Some(message),
        },
    )
}

proof fn lemma_one_end(archive: Seq<u8>, a: nat, b: nat)
    requires
        ends_with(archive, a),
        ends_with(archive, b),
    ensures
        a == b,
{
    if a < b {
        assert(goes_on(archive, a));
    } else if b < a {
        assert(goes_on(archive, b));
    }
}

/// Decompresses an archive.
pub fn inflate(archive: &[u8]) -> (r: (Vec<u8>, Option<String>))
    ensures
        (r.0@, option_text(r.1)) == inflated(archive@),
{
    let mut bytes: Vec<u8> = Vec::new();
    let mut decoder = Decoder::open(archive);
    loop
        invariant
            decoder.archive@ == archive@,
            bytes@ == pieces_joined(archive@, decoder.pieces@),
            forall|i: nat| i < decoder.pieces@ ==> #[trigger] goes_on(archive@, i),
        decreases usize::MAX - bytes@.len(),
    {
        let ghost index = decoder.pieces@;
        let read = decoder.read_piece();
        let ended: Option<Option<String>> = match &read {
            Ok(piece) => if piece.len() == 0 {
                Some(None)
            } else {
                None
            },
            Err(message) => Some(Some(message.clone())),
        };
        if let Some(fault) = ended {
            proof {
                assert(ends_with(archive@, index));
                lemma_one_end(archive@, index, choose|last: nat| ends_with(archive@, last));
            }
            return (bytes, fault);
        }
        if let Ok(mut piece) = read {
            let ghost before = bytes@;
            let ghost added = piece@;
            bytes.append(&mut piece);
            assert(bytes@ == before + added);
            assert(goes_on(archive@, index));
            let count: usize = bytes.len();
            assert(count > before.len());
        }
    }
}

} // verus!
