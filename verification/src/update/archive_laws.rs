//! What is found in a downloaded archive.
//!
//! Each law speaks of whatever a call hands back.

use vstd::prelude::*;
use vstd::utf8::*;

use crate::update::archive::{
    extract, find_entry, lossy_text, searched, settle_search, take_contents, Search, SearchView,
};
use crate::update::gzip::{ends_with, goes_on, inflate, inflated_piece, pieces_joined};
use crate::update::path::file_name;
use crate::update::tarball::{
    add_sentinel, big_endian, blocks_fitting, count_further_blocks, find_size_at, find_walk_end, further_blocks,
    lemma_few_further_blocks, listed, listed_entries, overflows_at, probe, read_bytes, size_at,
    size_reached, tar_contents, tar_listing, walk_end, walkable_part, Listed, ListedView,
};

verus! {

proof fn lemma_pieces(archive: Seq<u8>, pieces: Seq<Seq<u8>>, count: nat)
    requires
        count <= pieces.len(),
        forall|i: int|
            0 <= i < pieces.len() ==> inflated_piece(archive, i as nat) == Ok::<
                Seq<u8>,
                Seq<char>,
            >(#[trigger] pieces[i]),
    ensures
        pieces_joined(archive, count) == pieces.take(count as int).flatten(),
    decreases count,
{
    if count > 0 {
        let before = (count - 1) as nat;
        lemma_pieces(archive, pieces, before);
        let last = pieces[before as int];
        assert(pieces.take(count as int) =~= pieces.take(before as int).push(last));
        pieces.take(before as int).lemma_flatten_push(last);
    }
}

/// Decompressing gives the pieces that were read, in order and nothing left out, up to the first
/// that is empty or went wrong. What went wrong is told as it is, and an empty piece is no fault.
pub proof fn law_inflate(archive: &[u8], pieces: Seq<Seq<u8>>, r: (Vec<u8>, Option<String>))
    requires
        call_ensures(inflate, (archive,), r),
        forall|i: int|
            0 <= i < pieces.len() ==> inflated_piece(archive@, i as nat) == Ok::<
                Seq<u8>,
                Seq<char>,
            >(#[trigger] pieces[i]) && pieces[i].len() > 0,
    ensures
        match inflated_piece(archive@, pieces.len()) {
            Ok(piece) => piece.len() == 0 ==> r.0@ == pieces.flatten() && r.1 is None,
            Err(e) => r.0@ == pieces.flatten() && (r.1 matches Some(fault) && fault@ == e),
        },
{
    let count = pieces.len();
    if !goes_on(archive@, count) {
        assert forall|i: nat| i < count implies #[trigger] goes_on(archive@, i) by {
            assert(pieces[i as int].len() > 0);
        }
        assert(ends_with(archive@, count));
        let last = choose|last: nat| ends_with(archive@, last);
        if last < count {
            assert(goes_on(archive@, last));
        } else if count < last {
            assert(goes_on(archive@, count));
        }
        lemma_pieces(archive@, pieces, count);
        assert(pieces.take(count as int) =~= pieces);
    }
}

/// Whether an entry is passed over in the search for a name: it could be read, its path can be used
/// and its file name is another.
pub open spec fn is_passed_over(
    entry: Result<Listed, String>,
    name: Seq<char>,
    windows: bool,
) -> bool {
    entry matches Ok(found) && {
        &&& windows ==> valid_utf8(found.path@)
        &&& file_name(found.path@, windows) != Some(encode_utf8(name))
    }
}

/// Whether all entries before a position are passed over, and that position is one of an entry.
pub open spec fn is_reached(
    entries: Seq<Result<Listed, String>>,
    name: Seq<char>,
    windows: bool,
    index: int,
) -> bool {
    &&& 0 <= index < entries.len()
    &&& forall|i: int| 0 <= i < index ==> is_passed_over(#[trigger] entries[i], name, windows)
}

proof fn lemma_searched(
    entries: Seq<Result<Listed, String>>,
    name: Seq<char>,
    windows: bool,
    from: int,
)
    requires
        0 <= from <= entries.len(),
        forall|i: int| 0 <= i < from ==> is_passed_over(#[trigger] entries[i], name, windows),
    ensures
        match searched(listed_entries(entries), name, windows, from) {
            SearchView::Found(index) => {
                &&& is_reached(entries, name, windows, index)
                &&& entries[index] matches Ok(found) && {
                    &&& windows ==> valid_utf8(found.path@)
                    &&& file_name(found.path@, windows) == Some(encode_utf8(name))
                }
            },
            SearchView::Unusable(message) => exists|index: int|
                {
                    &&& #[trigger] is_reached(entries, name, windows, index)
                    &&& windows
                    &&& entries[index] matches Ok(found) && !valid_utf8(found.path@) && message
                        == "only Unicode paths are supported on Windows: "@ + lossy_text(
                        found.path@,
                    )
                },
            SearchView::Broken(message) => exists|index: int|
                {
                    &&& #[trigger] is_reached(entries, name, windows, index)
                    &&& entries[index] matches Err(text) && text@ == message
                },
            SearchView::Missing => forall|i: int|
                0 <= i < entries.len() ==> is_passed_over(#[trigger] entries[i], name, windows),
        },
    decreases entries.len() - from,
{
    if from < entries.len() {
        assert(listed_entries(entries)[from] == listed(entries[from]));
        if is_passed_over(entries[from], name, windows) {
            lemma_searched(entries, name, windows, from + 1);
        } else {
            assert(is_reached(entries, name, windows, from));
        }
    }
}

/// The search comes to the first entry that is not passed over. It finds that entry if its file name
/// is the one that is looked for; otherwise the entry could not be read, or on Windows its path is
/// not Unicode, and the search ends there with that complaint. It comes up empty exactly where every
/// entry is passed over.
pub proof fn law_search(
    entries: &Vec<Result<Listed, String>>,
    name: &str,
    windows: bool,
    r: Search,
)
    requires
        call_ensures(find_entry, (entries, name, windows), r),
    ensures
        match r {
            Search::Found(index) => {
                &&& is_reached(entries@, name@, windows, index as int)
                &&& entries@[index as int] matches Ok(found) && {
                    &&& windows ==> valid_utf8(found.path@)
                    &&& file_name(found.path@, windows) == Some(encode_utf8(name@))
                }
            },
            Search::Unusable(message) => exists|index: int|
                {
                    &&& #[trigger] is_reached(entries@, name@, windows, index)
                    &&& windows
                    &&& entries@[index] matches Ok(found) && !valid_utf8(found.path@) && message@
                        == "only Unicode paths are supported on Windows: "@ + lossy_text(
                        found.path@,
                    )
                },
            Search::Broken(message) => exists|index: int|
                {
                    &&& #[trigger] is_reached(entries@, name@, windows, index)
                    &&& entries@[index] matches Err(text) && text@ == message@
                },
            Search::Missing => forall|i: int|
                0 <= i < entries@.len() ==> is_passed_over(#[trigger] entries@[i], name@, windows),
        },
{
    lemma_searched(entries@, name@, windows, 0);
}

/// What was found before a fault of the decompression is taken, whatever the fault, and a path that
/// cannot be used is complained of as such. A fault that was come to counts before an entry that
/// could not be read, and before the complaint that there is no such file.
pub proof fn law_fault_counts_where_it_is_met(
    search: Search,
    fault: Option<String>,
    name: &str,
    r: Result<usize, String>,
)
    requires
        call_ensures(settle_search, (search, fault, name), r),
    ensures
        match search {
            Search::Found(index) => r matches Ok(settled) && settled == index,
            Search::Unusable(message) => r matches Err(text) && text@ == message@,
            Search::Broken(message) => r matches Err(text) && match fault {
                Some(reason) => text@ == reason@,
                None => text@ == message@,
            },
            Search::Missing => r matches Err(text) && match fault {
                Some(reason) => text@ == reason@,
                None => text@ == "Could not find '"@ + name@ + "' binary in archive"@,
            },
        },
{
}

/// Contents are taken as they are, unless a fault of the decompression cut them short: then the fault
/// is the answer. Contents that could not be read keep their own complaint.
pub proof fn law_contents_are_whole(
    contents: Result<Vec<u8>, String>,
    size: u64,
    fault: Option<String>,
    r: Result<Vec<u8>, String>,
)
    requires
        call_ensures(take_contents, (contents, size, fault), r),
    ensures
        match contents {
            Ok(bytes) => if fault is Some && bytes@.len() < size {
                r matches Err(text) && text@ == fault->Some_0@
            } else {
                r matches Ok(taken) && taken@ == bytes@
            },
            Err(message) => r matches Err(text) && text@ == message@,
        },
{
}

/// Behind whole blocks stands one byte more, and those blocks are the ones of the archive.
pub proof fn law_sentinel(bytes: &[u8], r: Vec<u8>)
    requires
        call_ensures(add_sentinel, (bytes,), r),
    ensures
        r@.len() % 512 == 1,
        r@.len() - 1 <= bytes@.len() < r@.len() + 511,
        forall|i: int| 0 <= i < r@.len() - 1 ==> #[trigger] r@[i] == bytes@[i],
{
}

/// Extracting decompresses the archive, lists what can be walked of it, searches the listing and
/// reads the entry that was found. Where the decompression went wrong, whole blocks are listed with a
/// byte behind them, and the fault counts as met where the listing takes all of that.
pub proof fn law_extract(
    archive: &[u8],
    name: &str,
    windows: bool,
    inflated: (Vec<u8>, Option<String>),
    bytes: &[u8],
    marked: Vec<u8>,
    all: &[u8],
    end: usize,
    entries: Vec<Result<Listed, String>>,
    search: Search,
    met: Option<String>,
    settled: Result<usize, String>,
    contents: Result<Vec<u8>, String>,
    taken: Result<Vec<u8>, String>,
    r: Result<Vec<u8>, String>,
)
    requires
        call_ensures(extract, (archive, name, windows), r),
        call_ensures(inflate, (archive,), inflated),
        bytes@ == inflated.0@,
        call_ensures(add_sentinel, (bytes,), marked),
        all@ == if inflated.1 is Some {
            marked@
        } else {
            bytes@
        },
        call_ensures(find_walk_end, (all,), end),
        listed_entries(entries@) == tar_listing(all@.take(end as int)).entries,
        call_ensures(find_entry, (&entries, name, windows), search),
        met is Some <==> inflated.1 is Some && end == all@.len() && tar_listing(
            all@.take(end as int),
        ).unread == 0,
        met matches Some(fault) ==> fault@ == inflated.1->Some_0@,
        call_ensures(settle_search, (search, met, name), settled),
        settled matches Ok(index) ==> {
            &&& read_bytes(contents) == tar_contents(bytes@, index as nat)
            &&& call_ensures(
                take_contents,
                (contents, entries@[index as int]->Ok_0.size, inflated.1),
                taken,
            )
        },
    ensures
        match settled {
            Err(message) => r matches Err(text) && text@ == message@,
            Ok(_) => match taken {
                Ok(program) => r matches Ok(given) && given@ == program@,
                Err(message) => r matches Err(text) && text@ == message@,
            },
        },
{
    if let Ok(index) = settled {
        assert(listed_entries(entries@)[index as int] == listed(entries@[index as int]));
    }
}

/// The first entry whose header stands at a position is the one whose size is told.
pub proof fn law_size_of_the_entry(
    entries: &Vec<Result<Listed, String>>,
    at: u64,
    r: Option<u64>,
)
    requires
        call_ensures(find_size_at, (entries, at), r),
    ensures
        match r {
            Some(size) => exists|i: int|
                {
                    &&& #[trigger] is_at(entries@, at as int, i)
                    &&& entries@[i]->Ok_0.size == size
                    &&& forall|j: int| 0 <= j < i ==> !#[trigger] is_at(entries@, at as int, j)
                },
            None => forall|i: int| !#[trigger] is_at(entries@, at as int, i),
        },
{
    lemma_size_at(entries@, at as int, 0);
}

/// Whether the entry at an index could be read and has its header at a position.
pub open spec fn is_at(entries: Seq<Result<Listed, String>>, at: int, index: int) -> bool {
    0 <= index < entries.len() && (entries[index] matches Ok(entry) && entry.header == at)
}

proof fn lemma_size_at(entries: Seq<Result<Listed, String>>, at: int, from: int)
    requires
        0 <= from <= entries.len(),
        forall|j: int| 0 <= j < from ==> !#[trigger] is_at(entries, at, j),
    ensures
        match size_at(listed_entries(entries), at, from) {
            Some(size) => exists|i: int|
                {
                    &&& #[trigger] is_at(entries, at, i)
                    &&& entries[i]->Ok_0.size == size
                    &&& forall|j: int| 0 <= j < i ==> !#[trigger] is_at(entries, at, j)
                },
            None => forall|i: int| !#[trigger] is_at(entries, at, i),
        },
    decreases entries.len() - from,
{
    if from < entries.len() {
        assert(listed_entries(entries)[from] == listed(entries[from]));
        if !is_at(entries, at, from) {
            lemma_size_at(entries, at, from + 1);
        }
    }
}

/// The further blocks follow one another as long as each says that another one follows; the last one
/// does not say so, or nothing that makes a block is left.
pub proof fn law_further_blocks(bytes: &[u8], at: usize, r: usize)
    requires
        at <= bytes@.len(),
        call_ensures(count_further_blocks, (bytes, at), r),
    ensures
        at + 512 * r <= bytes@.len(),
        forall|k: int| 1 <= k < r ==> bytes@[#[trigger] (at + 512 * k) - 8] == 1,
        (r > 0 && bytes@[at + 512 * r - 8] != 1) || at + 512 * r + 512 > bytes@.len(),
{
    lemma_further(bytes@, at as int);
}

proof fn lemma_further(bytes: Seq<u8>, at: int)
    requires
        0 <= at <= bytes.len(),
    ensures
        ({
            let count = further_blocks(bytes, at);
            &&& forall|k: int| 1 <= k < count ==> bytes[#[trigger] (at + 512 * k) - 8] == 1
            &&& (count > 0 && bytes[at + 512 * count - 8] != 1) || at + 512 * count + 512
                > bytes.len()
        }),
    decreases bytes.len() - at,
{
    let count = further_blocks(bytes, at);
    if at + 512 <= bytes.len() && bytes[at + 504] == 1 {
        lemma_further(bytes, at + 512);
        assert forall|k: int| 1 <= k < count implies bytes[#[trigger] (at + 512 * k) - 8] == 1 by {
            if k > 1 {
                assert(bytes[((at + 512) + 512 * (k - 1)) - 8] == 1);
            }
        }
    }
}

/// Whether a block at a position is marked as the header of a sparse file in GNU format that is
/// described in further blocks.
pub open spec fn is_marked_sparse(bytes: Seq<u8>, at: int) -> bool {
    &&& bytes[at + 156] as char == 'S'
    &&& bytes.subrange(at + 257, at + 265) == seq![
        'u' as u8,
        's' as u8,
        't' as u8,
        'a' as u8,
        'r' as u8,
        ' ' as u8,
        ' ' as u8,
        0u8,
    ]
    &&& bytes[at + 482] == 1
}

/// Whether the walk over an archive comes to a header at a position and takes the file to have a
/// size: an empty file without a name that is put there is listed with that size.
pub open spec fn is_come_to(bytes: Seq<u8>, at: int, size: u64) -> bool {
    exists|i: int|
        #![trigger tar_listing(probe(bytes, at, '0' as u8)).entries[i]]
        {
            let entries = tar_listing(probe(bytes, at, '0' as u8)).entries;
            0 <= i < entries.len() && (entries[i] matches Ok(entry) && entry.header == at
                && entry.size == size)
        }
}

proof fn lemma_not_listed(entries: Seq<Result<ListedView, Seq<char>>>, at: int, from: int)
    requires
        0 <= from,
        size_at(entries, at, from) is Some,
    ensures
        exists|i: int|
            #![trigger entries[i]]
            from <= i < entries.len() && (entries[i] matches Ok(entry) && entry.header == at
                && size_at(entries, at, from) == Some(entry.size)),
    decreases entries.len() - from,
{
    if from < entries.len() && !(entries[from] matches Ok(entry) && entry.header == at) {
        lemma_not_listed(entries, at, from + 1);
    }
}

proof fn lemma_whole(bytes: Seq<u8>, from: int)
    requires
        0 <= from,
        from % 512 == 0,
        forall|at: int|
            0 <= at && at + 512 <= bytes.len() && at % 512 == 0 ==> !#[trigger] overflows_at(
                bytes,
                at,
            ),
    ensures
        walk_end(bytes, from, bytes.len() as int) == bytes.len(),
    decreases bytes.len() - from,
{
    assert(bytes.take(bytes.len() as int) =~= bytes);
    if from + 512 <= bytes.len() {
        lemma_whole(bytes, from + 512);
    }
}

/// An archive is walked to its end unless the walk comes to a header of a sparse file that is
/// described in further blocks: what a file holds does not matter, whatever it looks like.
pub proof fn law_contents_do_not_cut_the_archive(bytes: &[u8], end: usize)
    requires
        call_ensures(find_walk_end, (bytes,), end),
        forall|at: int, size: u64|
            0 <= at && at + 512 <= bytes@.len() && at % 512 == 0 ==> !(is_marked_sparse(bytes@, at)
                && #[trigger] is_come_to(bytes@, at, size)),
    ensures
        end == bytes@.len(),
{
    assert forall|at: int|
        0 <= at && at + 512 <= bytes@.len() && at % 512 == 0 implies !#[trigger] overflows_at(
        bytes@,
        at,
    ) by {
        if overflows_at(bytes@, at) {
            let block = bytes@.subrange(at, at + 512);
            assert(forall|i: int| 0 <= i < 512 ==> block[i] == bytes@[at + i]);
            let magic = bytes@.subrange(at + 257, at + 265);
            assert(forall|i: int| 0 <= i < 8 ==> magic[i] == block[257 + i]);
            assert(magic =~= seq![
                'u' as u8,
                's' as u8,
                't' as u8,
                'a' as u8,
                'r' as u8,
                ' ' as u8,
                ' ' as u8,
                0u8,
            ]);
            assert(is_marked_sparse(bytes@, at));
            lemma_not_listed(tar_listing(probe(bytes@, at, 0x30)).entries, at, 0);
            assert('0' as u8 == 0x30);
            assert(is_come_to(
                bytes@,
                at,
                size_at(tar_listing(probe(bytes@, at, 0x30)).entries, at, 0)->Some_0,
            ));
        }
    }
    lemma_whole(bytes@, 0);
}

/// An archive of ordinary size is walked to its end unless the size of a file that it names comes
/// near the largest position: a size in binary from two to the 62nd power on, or one that is listed
/// as such.
pub proof fn law_ordinary_sizes_do_not_cut_the_archive(bytes: &[u8], end: usize)
    requires
        call_ensures(find_walk_end, (bytes,), end),
        bytes@.len() < 0x4000_0000_0000_0000,
        forall|at: int|
            0 <= at && at + 512 <= bytes@.len() && at % 512 == 0 ==> (#[trigger] bytes@[at + 124])
                < 0x80 || bytes@[at + 128] < 0x40,
        forall|at: int, size: u64|
            0 <= at && at + 512 <= bytes@.len() && at % 512 == 0 && #[trigger] is_come_to(
                bytes@,
                at,
                size,
            ) ==> size < 0x4000_0000_0000_0000,
    ensures
        end == bytes@.len(),
{
    assert('0' as u8 == 0x30);
    assert forall|at: int|
        0 <= at && at + 512 <= bytes@.len() && at % 512 == 0 implies !#[trigger] overflows_at(
        bytes@,
        at,
    ) by {
        if overflows_at(bytes@, at) {
            let block = bytes@.subrange(at, at + 512);
            let size = size_reached(bytes@, at)->Some_0;
            assert(block[124] == bytes@[at + 124] && block[128] == bytes@[at + 128]);
            lemma_not_listed(tar_listing(probe(bytes@, at, 0x30)).entries, at, 0);
            assert(is_come_to(
                bytes@,
                at,
                size_at(tar_listing(probe(bytes@, at, 0x30)).entries, at, 0)->Some_0,
            ));
            assert(block[124] >= 0x80 ==> big_endian(block, 128, 8) < 0x4000_0000_0000_0000) by {
                reveal_with_fuel(big_endian, 9);
            }
            assert(size < 0x4000_0000_0000_0000);
            lemma_few_further_blocks(bytes@, at + 512);
            assert(false);
        }
    }
    lemma_whole(bytes@, 0);
}

/// Whether the position behind a sparse file stays within the largest `u64`: its header, its
/// contents in whole blocks, and its further blocks. A file that passes it with its contents alone
/// is none of these.
pub open spec fn stays_within(bytes: Seq<u8>, at: int, size: int) -> bool {
    let behind = at + 512 + (size + 511) / 512 * 512;
    ||| size + 511 > u64::MAX
    ||| behind > u64::MAX
    ||| behind + 512 * further_blocks(bytes, at + 512) <= u64::MAX
}

/// What is walked of an archive holds no header of a sparse file, come to by the walk, whose further
/// blocks take the position past the largest `u64`. The size is the one of a record before the
/// header, which is listed for whatever is put there, or else the one that the header gives in
/// binary.
pub proof fn law_walked_part_stays_within(bytes: &[u8], end: usize, at: int)
    requires
        call_ensures(find_walk_end, (bytes,), end),
        0 <= at,
        at + 512 <= end,
        at % 512 == 0,
        is_marked_sparse(bytes@, at),
    ensures
        ({
            let part = bytes@.take(end as int);
            let empty = size_at(tar_listing(probe(part, at, '0' as u8)).entries, at, 0);
            let single = size_at(tar_listing(probe(part, at, '1' as u8)).entries, at, 0);
            &&& empty is Some && (empty != Some(0u64) || single != Some(1u64)) ==> stays_within(
                part,
                at,
                empty->Some_0 as int,
            )
            &&& empty == Some(0u64) && single == Some(1u64) && bytes@[at + 124] >= 0x80
                ==> stays_within(
                part,
                at,
                bytes@[at + 128] * 0x100_0000_0000_0000 + bytes@[at + 129] * 0x1_0000_0000_0000
                    + bytes@[at + 130] * 0x100_0000_0000 + bytes@[at + 131] * 0x1_0000_0000
                    + bytes@[at + 132] * 0x100_0000 + bytes@[at + 133] * 0x1_0000 + bytes@[at + 134]
                    * 0x100 + bytes@[at + 135],
            )
        }),
{
    let part = bytes@.take(end as int);
    let block = part.subrange(at, at + 512);
    assert(part =~= walkable_part(bytes@));
    assert('0' as u8 == 0x30 && '1' as u8 == 0x31);
    assert(!overflows_at(part, at));
    assert(forall|i: int| 0 <= i < 512 ==> block[i] == bytes@[at + i]);
    let magic = bytes@.subrange(at + 257, at + 265);
    assert(forall|i: int| 0 <= i < 8 ==> magic[i] == block[257 + i]);
    reveal_with_fuel(big_endian, 9);
}

/// Whether an archive of which the first `before` bytes are left is cut at `end` because of the
/// header at `at`: the further blocks up to there still fit behind the file, and one more would not.
pub open spec fn is_cut_at(bytes: Seq<u8>, at: int, before: int, end: int) -> bool {
    let part = bytes.take(before);
    &&& 0 <= at
    &&& end < before <= bytes.len()
    &&& size_reached(part, at) matches Some(size) && {
        let behind = at + 512 + (size + 511) / 512 * 512;
        let blocks = end - at - 512;
        &&& blocks % 512 == 0
        &&& 0 <= blocks
        &&& behind + blocks <= u64::MAX
        &&& behind + blocks + 512 > u64::MAX
    }
}

proof fn lemma_cut_as_late_as_possible(bytes: Seq<u8>, from: int, end: int)
    requires
        0 <= from,
        0 <= end <= bytes.len(),
    ensures
        walk_end(bytes, from, end) == end || exists|at: int, before: int|
            #[trigger] is_cut_at(bytes, at, before, walk_end(bytes, from, end)),
    decreases bytes.len() - from,
{
    if from + 512 <= end {
        let part = bytes.take(end);
        if overflows_at(part, from) {
            lemma_few_further_blocks(part, from + 512);
            let cut = blocks_fitting(part, from);
            assert(is_cut_at(bytes, from, end, cut));
            lemma_cut_as_late_as_possible(bytes, from + 512, cut);
        } else {
            lemma_cut_as_late_as_possible(bytes, from + 512, end);
        }
    }
}

/// An archive that is not walked to its end is cut behind the last further block that still fits,
/// and not before.
pub proof fn law_cut_as_late_as_possible(bytes: &[u8], end: usize)
    requires
        call_ensures(find_walk_end, (bytes,), end),
    ensures
        end == bytes@.len() || exists|at: int, before: int|
            #[trigger] is_cut_at(bytes@, at, before, end as int),
{
    lemma_cut_as_late_as_possible(bytes@, 0, bytes@.len() as int);
}

} // verus!
