//! Reading tar archives.
//!
//! `tar` adds up positions in an archive as `u64`, and one of its additions has no check: a sparse
//! file may be described in further blocks after its header, and the length of each is added to
//! the position behind the file. Where that would pass the largest `u64`, an archive is read only
//! up to the further blocks that still fit.

use std::io::Read;
use vstd::prelude::*;
use vstd::slice::slice_subrange;

verus! {

/// The size of a block of a tar archive.
pub const BLOCK: usize = 512;

/// An entry of a tar archive: its path, the length of its contents when they are whole, and where
/// its header stands.
#[derive(Debug)]
pub struct Listed {
    pub path: Vec<u8>,
    pub size: u64,
    pub header: u64,
}

/// The entries of a tar archive in order, each with what went wrong where it could not be read, and
/// how many bytes of the archive lie after the point at which the listing ended.
#[derive(Debug)]
pub struct Listing {
    pub entries: Vec<Result<Listed, String>>,
    pub unread: usize,
}

/// An entry of a tar archive.
pub struct ListedView {
    pub path: Seq<u8>,
    pub size: u64,
    pub header: u64,
}

/// The entries of a tar archive.
pub struct ListingView {
    pub entries: Seq<Result<ListedView, Seq<char>>>,
    pub unread: int,
}

impl View for Listed {
    type V = ListedView;

    open spec fn view(&self) -> ListedView {
        ListedView { path: self.path@, size: self.size, header: self.header }
    }
}

/// An entry, or what went wrong.
pub open spec fn listed(entry: Result<Listed, String>) -> Result<ListedView, Seq<char>> {
    match entry {
        Ok(entry) => Ok(entry@),
        Err(message) => Err(message@),
    }
}

/// The entries in order.
pub open spec fn listed_entries(entries: Seq<Result<Listed, String>>) -> Seq<
    Result<ListedView, Seq<char>>,
> {
    Seq::new(entries.len(), |i: int| listed(entries[i]))
}

impl View for Listing {
    type V = ListingView;

    open spec fn view(&self) -> ListingView {
        ListingView { entries: listed_entries(self.entries@), unread: self.unread as int }
    }
}

/// Bytes, or what went wrong.
pub open spec fn read_bytes(result: Result<Vec<u8>, String>) -> Result<Seq<u8>, Seq<char>> {
    match result {
        Ok(bytes) => Ok(bytes@),
        Err(message) => Err(message@),
    }
}

/// The entries of a tar archive.
pub uninterp spec fn tar_listing(bytes: Seq<u8>) -> ListingView;

/// The contents of an entry of a tar archive, or what went wrong while reading them.
pub uninterp spec fn tar_contents(bytes: Seq<u8>, index: nat) -> Result<Seq<u8>, Seq<char>>;

/// The header of a file without a name, whose size is the octal digit `digit`.
pub open spec fn plain_header(digit: u8) -> Seq<u8> {
    Seq::new(
        BLOCK as nat,
        |i: int|
            if i == 124 || i == 150 {
                digit
            } else if i == 148 {
                0x34u8
            } else if i == 149 {
                0x36u8
            } else {
                0u8
            },
    )
}

/// An archive up to `at`, with the header of an empty or one byte long file behind it.
pub open spec fn probe(bytes: Seq<u8>, at: int, digit: u8) -> Seq<u8> {
    bytes.take(at) + plain_header(digit)
}

/// The size of the first entry from `from` on whose header stands at `at`.
pub open spec fn size_at(
    entries: Seq<Result<ListedView, Seq<char>>>,
    at: int,
    from: int,
) -> Option<u64>
    decreases entries.len() - from,
{
    if from < 0 || from >= entries.len() {
        None
    } else if entries[from] matches Ok(entry) && entry.header == at {
        Some(entries[from]->Ok_0.size)
    } else {
        size_at(entries, at, from + 1)
    }
}

/// Whether a block reads as the header of a sparse file in GNU format whose description goes on in
/// further blocks.
pub open spec fn reads_as_extended_sparse(block: Seq<u8>) -> bool {
    &&& block[156] == 0x53
    &&& block[257] == 0x75
    &&& block[258] == 0x73
    &&& block[259] == 0x74
    &&& block[260] == 0x61
    &&& block[261] == 0x72
    &&& block[262] == 0x20
    &&& block[263] == 0x20
    &&& block[264] == 0
    &&& block[482] == 1
}

/// The number that the first `count` bytes from `start` on stand for, most significant first.
pub open spec fn big_endian(block: Seq<u8>, start: int, count: nat) -> nat
    decreases count,
{
    if count == 0 {
        0
    } else {
        256 * big_endian(block, start, (count - 1) as nat) + block[start + count - 1] as nat
    }
}

/// The size that a header gives in binary. A size in octal is below two to the 36th power and
/// counts as nothing here.
pub open spec fn binary_size(block: Seq<u8>) -> nat {
    if block[124] >= 0x80 {
        big_endian(block, 128, 8)
    } else {
        0
    }
}

/// The size of the file whose header stands at `at`, if the walk over the archive comes to a header
/// there. It does if a plain header put there is listed. The size is the one of a record before the
/// header, which holds for any header put there, or else the header's own.
pub open spec fn size_reached(bytes: Seq<u8>, at: int) -> Option<nat> {
    let empty = size_at(tar_listing(probe(bytes, at, 0x30)).entries, at, 0);
    let single = size_at(tar_listing(probe(bytes, at, 0x31)).entries, at, 0);
    match empty {
        None => None,
        Some(size) => if size == 0 && single == Some(1u64) {
            Some(binary_size(bytes.subrange(at, at + BLOCK)))
        } else {
            Some(size as nat)
        },
    }
}

/// The number of further blocks from `at` on, each of which but the last says that another one
/// follows.
pub open spec fn further_blocks(bytes: Seq<u8>, at: int) -> nat
    decreases bytes.len() - at,
{
    if at < 0 || at + BLOCK > bytes.len() {
        0
    } else if bytes[at + 504] == 1 {
        1 + further_blocks(bytes, at + BLOCK)
    } else {
        1
    }
}

/// The position behind a file of the given size whose header stands at `at`, in whole blocks.
pub open spec fn position_after(at: int, size: nat) -> int {
    at + BLOCK + (size + 511) / 512 * 512
}

/// Whether the walk over an archive comes to the header of an extended sparse file at `at` whose
/// further blocks take the position behind the file past the largest `u64`. A file whose own size
/// does that is none: it is told apart by a check.
pub open spec fn overflows_at(bytes: Seq<u8>, at: int) -> bool {
    &&& reads_as_extended_sparse(bytes.subrange(at, at + BLOCK))
    &&& size_reached(bytes, at) matches Some(size) && {
        &&& size + 511 <= u64::MAX
        &&& position_after(at, size) <= u64::MAX
        &&& position_after(at, size) + 512 * further_blocks(bytes, at + BLOCK) > u64::MAX
    }
}

/// Whether no header of an archive takes the position past the largest `u64`.
pub open spec fn is_walkable(bytes: Seq<u8>) -> bool {
    forall|at: int|
        0 <= at && at + BLOCK <= bytes.len() && at % (BLOCK as int) == 0 ==> !(
        #[trigger] overflows_at(bytes, at))
}

/// Where the further blocks of the header at `at` end that do not take the position past the
/// largest `u64`.
pub open spec fn blocks_fitting(bytes: Seq<u8>, at: int) -> int {
    at + BLOCK + (u64::MAX - position_after(at, size_reached(bytes, at)->Some_0)) / 512 * 512
}

/// Where an archive of which the first `end` bytes are left can be walked to, seen from `from` on:
/// it is cut behind the last further block that fits where a header takes the position too far.
pub open spec fn walk_end(bytes: Seq<u8>, from: int, end: int) -> int
    decreases bytes.len() - from,
{
    if from + BLOCK > end || from + BLOCK > bytes.len() {
        end
    } else if overflows_at(bytes.take(end), from) {
        walk_end(bytes, from + BLOCK, blocks_fitting(bytes.take(end), from))
    } else {
        walk_end(bytes, from + BLOCK, end)
    }
}

/// The part of an archive that can be walked: all of it, unless a header takes the position past
/// the largest `u64`.
pub open spec fn walkable_part(bytes: Seq<u8>) -> Seq<u8> {
    bytes.take(walk_end(bytes, 0, bytes.len() as int))
}

/// The whole blocks of an archive, with one byte behind them. The byte completes no block, and is
/// read exactly where more is asked for than whole blocks.
pub open spec fn with_sentinel(bytes: Seq<u8>) -> Seq<u8> {
    bytes.take(bytes.len() as int / 512 * 512).push(0)
}

/// Whether the entry at `index` is listed in the part of an archive that can be walked.
pub open spec fn is_listed_in(bytes: Seq<u8>, index: int) -> bool {
    let entries = tar_listing(walkable_part(bytes)).entries;
    0 <= index < entries.len() && entries[index] is Ok
}

/// Whether the entry at `index` is listed, in the archive or in its whole blocks.
pub open spec fn is_listed(bytes: Seq<u8>, index: int) -> bool {
    is_listed_in(bytes, index) || is_listed_in(with_sentinel(bytes), index)
}

/// Lists the entries of a tar archive: `tar::Archive::entries`, with `tar::Entry::path_bytes`,
/// `size` and `raw_header_position` for each entry. The listing depends on the bytes alone.
///
/// The one addition of `tar` without a check adds the length of each further block of an extended
/// sparse file to the position behind the file. `tar` comes to it only at a header that reads as
/// one of an extended sparse file, with the size that [`size_reached`] tells, and for no more
/// blocks than [`further_blocks`] counts; archives in which the sum passes the largest `u64` are
/// left out.
#[verifier::external_body]
pub(crate) fn list_entries(bytes: &[u8]) -> (r: Listing)
    requires
        is_walkable(bytes@),
    ensures
        r@ == tar_listing(bytes@),
{
    let mut unread = bytes;
    let mut archive = tar::Archive::new(&mut unread);
    let entries = archive.entries().unwrap().map(|entry| match entry {
        Ok(entry) => Ok(Listed {
            path: entry.path_bytes().into_owned(),
            size: entry.size(),
            header: entry.raw_header_position(),
        }),
        Err(error) => Err(error.to_string()),
    }).collect();
    drop(archive);
    Listing { entries, unread: unread.len() }
}

/// Reads one entry of a tar archive to its end, with `std::io::Read::read_to_end` on the
/// `tar::Entry` at `index`. What is read depends on the bytes and the index alone. Only an entry is
/// read that is listed in what can be walked of the archive or of its whole blocks: up to such an
/// entry, the archive is walked in the same way.
#[verifier::external_body]
pub(crate) fn read_entry(bytes: &[u8], index: usize) -> (r: Result<Vec<u8>, String>)
    requires
        is_listed(bytes@, index as int),
    ensures
        read_bytes(r) == tar_contents(bytes@, index as nat),
{
    let mut archive = tar::Archive::new(bytes);
    let mut entries = archive.entries().map_err(|error| error.to_string())?;
    let mut entry = entries.nth(index).unwrap().map_err(|error| error.to_string())?;
    let mut contents = Vec::new();
    match entry.read_to_end(&mut contents) {
        Ok(_) => Ok(contents),
        Err(error) => Err(error.to_string()),
    }
}

fn read_size(block: &[u8]) -> (r: u64)
    requires
        block@.len() == BLOCK,
    ensures
        r == binary_size(block@),
{
    if block[124] < 0x80 {
        return 0;
    }
    let mut size: u64 = 0;
    let mut i: usize = 0;
    let ghost mut limit: int = 1;
    while i < 8
        invariant
            i <= 8,
            block@.len() == BLOCK,
            size == big_endian(block@, 128, i as nat),
            size < limit,
            i == 0 ==> limit == 1,
            i == 1 ==> limit == 0x100,
            i == 2 ==> limit == 0x1_0000,
            i == 3 ==> limit == 0x100_0000,
            i == 4 ==> limit == 0x1_0000_0000,
            i == 5 ==> limit == 0x100_0000_0000,
            i == 6 ==> limit == 0x1_0000_0000_0000,
            i == 7 ==> limit == 0x100_0000_0000_0000,
        decreases 8 - i,
    {
        size = size * 256 + block[128 + i] as u64;
        proof {
            limit = limit * 256;
        }
        i = i + 1;
    }
    size
}

fn is_sparse_header(block: &[u8]) -> (r: bool)
    requires
        block@.len() == BLOCK,
    ensures
        r == reads_as_extended_sparse(block@),
{
    block[156] == 0x53 && block[257] == 0x75 && block[258] == 0x73 && block[259] == 0x74
        && block[260] == 0x61 && block[261] == 0x72 && block[262] == 0x20 && block[263] == 0x20
        && block[264] == 0 && block[482] == 1
}

/// The first `end` bytes, as a list of their own.
fn copy_prefix(bytes: &[u8], end: usize) -> (r: Vec<u8>)
    requires
        end <= bytes@.len(),
    ensures
        r@ == bytes@.take(end as int),
{
    let mut copy: Vec<u8> = Vec::new();
    for i in 0..end
        invariant
            end <= bytes@.len(),
            copy@ == bytes@.take(i as int),
    {
        copy.push(bytes[i]);
        assert(bytes@.take(i + 1) =~= bytes@.take(i as int).push(bytes@[i as int]));
    }
    copy
}

fn make_probe(bytes: &[u8], at: usize, digit: u8) -> (r: Vec<u8>)
    requires
        at <= bytes@.len(),
    ensures
        r@ == probe(bytes@, at as int, digit),
{
    let mut copy: Vec<u8> = copy_prefix(bytes, at);
    for i in 0..BLOCK
        invariant
            at <= bytes@.len(),
            copy@ == bytes@.take(at as int) + plain_header(digit).take(i as int),
    {
        let byte: u8 = if i == 124 || i == 150 {
            digit
        } else if i == 148 {
            0x34
        } else if i == 149 {
            0x36
        } else {
            0
        };
        copy.push(byte);
        assert(plain_header(digit).take(i + 1) =~= plain_header(digit).take(i as int).push(byte));
    }
    assert(plain_header(digit).take(BLOCK as int) =~= plain_header(digit));
    copy
}

/// The whole blocks of an archive, with one byte behind them.
pub fn add_sentinel(bytes: &[u8]) -> (r: Vec<u8>)
    ensures
        r@ == with_sentinel(bytes@),
{
    let whole: usize = bytes.len() / 512 * 512;
    let mut copy: Vec<u8> = copy_prefix(bytes, whole);
    copy.push(0);
    copy
}

/// The size of the first entry whose header stands at `at`.
pub fn find_size_at(entries: &Vec<Result<Listed, String>>, at: u64) -> (r: Option<u64>)
    ensures
        r == size_at(listed_entries(entries@), at as int, 0),
{
    for i in 0..entries.len()
        invariant
            size_at(listed_entries(entries@), at as int, 0) == size_at(
                listed_entries(entries@),
                at as int,
                i as int,
            ),
    {
        if let Ok(entry) = &entries[i] {
            if entry.header == at {
                return Some(entry.size);
            }
        }
    }
    None
}

/// The number of further blocks from `at` on.
pub fn count_further_blocks(bytes: &[u8], at: usize) -> (r: usize)
    requires
        at <= bytes@.len(),
    ensures
        r == further_blocks(bytes@, at as int),
        at + 512 * r <= bytes@.len(),
{
    let mut count: usize = 0;
    let mut end: usize = at;
    while bytes.len() - end >= BLOCK
        invariant
            at <= end <= bytes@.len(),
            end == at + 512 * count,
            further_blocks(bytes@, at as int) == count + further_blocks(bytes@, end as int),
        decreases bytes@.len() - end,
    {
        if bytes[end + 504] != 1 {
            return count + 1;
        }
        end = end + BLOCK;
        count = count + 1;
    }
    count
}

/// Nothing before `at` takes the position too far.
spec fn is_walkable_before(bytes: Seq<u8>, at: int) -> bool {
    forall|i: int|
        0 <= i < at && i + BLOCK <= bytes.len() && i % (BLOCK as int) == 0 ==> !(
        #[trigger] overflows_at(bytes, i))
}

/// Where two archives agree up to `upto`, and the first has no more than one further block behind
/// that point of which the second has as well, the first has no more further blocks.
proof fn lemma_further_blocks(a: Seq<u8>, b: Seq<u8>, upto: int, at: int)
    requires
        0 <= at <= upto <= b.len(),
        upto <= a.len(),
        a.take(upto) == b.take(upto),
        at % (BLOCK as int) == 0,
        upto % (BLOCK as int) == 0 || a.len() == upto,
        a.len() == upto || (a.len() == upto + BLOCK && upto + BLOCK <= b.len() && a[upto + 504]
            != 1),
    ensures
        further_blocks(a, at) <= further_blocks(b, at),
    decreases upto - at,
{
    if at + BLOCK <= upto {
        assert(a[at + 504] == a.take(upto)[at + 504]);
        assert(b[at + 504] == b.take(upto)[at + 504]);
        lemma_further_blocks(a, b, upto, at + BLOCK);
    }
}

/// What does not take the position too far does not do so in an archive that agrees with the first
/// one up to `upto`.
proof fn lemma_still_walkable(a: Seq<u8>, b: Seq<u8>, upto: int, at: int)
    requires
        0 <= at,
        at + BLOCK <= upto <= b.len(),
        upto <= a.len(),
        a.take(upto) == b.take(upto),
        at % (BLOCK as int) == 0,
        upto % (BLOCK as int) == 0 || a.len() == upto,
        a.len() == upto || (a.len() == upto + BLOCK && upto + BLOCK <= b.len() && a[upto + 504]
            != 1),
        !overflows_at(b, at),
    ensures
        !overflows_at(a, at),
{
    lemma_further_blocks(a, b, upto, at + BLOCK);
    assert(a.take(at) =~= a.take(upto).take(at));
    assert(b.take(at) =~= b.take(upto).take(at));
    assert(a.subrange(at, at + BLOCK) =~= a.take(upto).subrange(at, at + BLOCK));
    assert(b.subrange(at, at + BLOCK) =~= b.take(upto).subrange(at, at + BLOCK));
}

proof fn lemma_probe_walkable(bytes: Seq<u8>, at: int, digit: u8)
    requires
        0 <= at,
        at + BLOCK <= bytes.len(),
        at % (BLOCK as int) == 0,
        is_walkable_before(bytes, at),
    ensures
        is_walkable(probe(bytes, at, digit)),
{
    let made = probe(bytes, at, digit);
    assert(made.take(at) =~= bytes.take(at));
    assert forall|i: int|
        0 <= i && i + BLOCK <= made.len() && i % (BLOCK as int) == 0 implies !(
    #[trigger] overflows_at(made, i)) by {
        if i < at {
            assert(!overflows_at(bytes, i));
            lemma_still_walkable(made, bytes, at, i);
        } else {
            assert(i == at);
            assert(made.subrange(i, i + BLOCK)[156] == 0);
        }
    }
}

/// The size of the file whose header stands at `at`, if the walk over the archive comes to a header
/// there.
fn find_size_reached(bytes: &[u8], at: usize) -> (r: Option<u64>)
    requires
        at + BLOCK <= bytes@.len(),
        at % BLOCK == 0,
        is_walkable_before(bytes@, at as int),
    ensures
        (match r {
            Some(size) => Some(size as nat),
            None => None,
        }) == size_reached(bytes@, at as int),
{
    proof {
        lemma_probe_walkable(bytes@, at as int, 0x30);
        lemma_probe_walkable(bytes@, at as int, 0x31);
    }
    let len: usize = bytes.len();
    assert(at + BLOCK <= len);
    let listing: Listing = list_entries(make_probe(bytes, at, 0x30).as_slice());
    let size: u64 = match find_size_at(&listing.entries, at as u64) {
        None => {
            return None;
        },
        Some(size) => size,
    };
    if size == 0 {
        let listing: Listing = list_entries(make_probe(bytes, at, 0x31).as_slice());
        if let Some(1) = find_size_at(&listing.entries, at as u64) {
            return Some(read_size(slice_subrange(bytes, at, at + BLOCK)));
        }
    }
    Some(size)
}

/// Where the further blocks of the header at `at` end that fit, if not all do.
fn find_overflow(bytes: &[u8], at: usize) -> (r: Option<usize>)
    requires
        at + BLOCK <= bytes@.len(),
        at % BLOCK == 0,
        is_walkable_before(bytes@, at as int),
    ensures
        r is Some <==> overflows_at(bytes@, at as int),
        r matches Some(end) ==> end == blocks_fitting(bytes@, at as int) && at + BLOCK <= end
            < bytes@.len() && end % BLOCK == 0,
{
    let len: usize = bytes.len();
    assert(at + BLOCK <= len);
    if !is_sparse_header(slice_subrange(bytes, at, at + BLOCK)) {
        return None;
    }
    let size: u64 = match find_size_reached(bytes, at) {
        None => {
            return None;
        },
        Some(size) => size,
    };
    if size > u64::MAX - 511 {
        return None;
    }
    let stored: u64 = (size + 511) / 512 * 512;
    let file: u64 = at as u64 + 512;
    if stored > u64::MAX - file {
        return None;
    }
    let room: u64 = (u64::MAX - (file + stored)) / 512;
    let count: usize = count_further_blocks(bytes, at + BLOCK);
    if count as u64 <= room {
        return None;
    }
    assert(at + BLOCK + 512 * count <= len);
    let fitting: usize = room as usize;
    assert(fitting == room);
    Some(at + BLOCK + fitting * 512)
}

/// A cut at `end` takes away what went too far at `at`.
proof fn lemma_cut(bytes: Seq<u8>, at: int, end: int)
    requires
        0 <= at,
        at + BLOCK <= end <= bytes.len(),
        at % (BLOCK as int) == 0,
        end % (BLOCK as int) == 0,
        overflows_at(bytes, at),
        end == blocks_fitting(bytes, at),
    ensures
        !overflows_at(bytes.take(end), at),
{
    let cut = bytes.take(end);
    assert(cut.take(at) =~= bytes.take(at));
    assert(cut.subrange(at, at + BLOCK) =~= bytes.subrange(at, at + BLOCK));
    lemma_few_further_blocks(cut, at + BLOCK);
}

/// There are no more further blocks than fit into the archive.
pub proof fn lemma_few_further_blocks(bytes: Seq<u8>, at: int)
    requires
        0 <= at <= bytes.len(),
    ensures
        at + 512 * further_blocks(bytes, at) <= bytes.len(),
    decreases bytes.len() - at,
{
    if at + BLOCK <= bytes.len() {
        lemma_few_further_blocks(bytes, at + BLOCK);
    }
}

/// Finds how far an archive can be walked.
pub fn find_walk_end(bytes: &[u8]) -> (r: usize)
    ensures
        r == walk_end(bytes@, 0, bytes@.len() as int),
        r <= bytes@.len(),
        is_walkable(walkable_part(bytes@)),
{
    let mut end: usize = bytes.len();
    let mut at: usize = 0;
    assert(bytes@.take(end as int) =~= bytes@);
    while at <= end && end - at >= BLOCK
        invariant
            end <= bytes@.len(),
            at <= bytes@.len(),
            at % BLOCK == 0,
            walk_end(bytes@, 0, bytes@.len() as int) == walk_end(bytes@, at as int, end as int),
            is_walkable_before(bytes@.take(end as int), at as int),
        decreases bytes@.len() - at,
    {
        let rest: &[u8] = slice_subrange(bytes, 0, end);
        assert(rest@ =~= bytes@.take(end as int));
        let found: Option<usize> = find_overflow(rest, at);
        if let Some(cut) = found {
            let ghost before = rest@;
            let ghost after = bytes@.take(cut as int);
            proof {
                assert(after =~= before.take(cut as int));
                lemma_cut(before, at as int, cut as int);
                assert forall|i: int|
                    0 <= i < at + BLOCK && i + BLOCK <= after.len() && i % (BLOCK as int)
                        == 0 implies !(#[trigger] overflows_at(after, i)) by {
                    if i < at {
                        assert(!overflows_at(before, i));
                        assert(after.take(cut as int) =~= before.take(cut as int));
                        lemma_still_walkable(after, before, cut as int, i);
                    } else {
                        assert(i == at);
                    }
                }
            }
            end = cut;
        } else {
            proof {
                assert forall|i: int|
                    0 <= i < at + BLOCK && i + BLOCK <= rest@.len() && i % (BLOCK as int)
                        == 0 implies !(#[trigger] overflows_at(rest@, i)) by {
                    if i >= at {
                        assert(i == at);
                    }
                }
            }
        }
        at = at + BLOCK;
    }
    assert(is_walkable(bytes@.take(end as int)));
    end
}

} // verus!
