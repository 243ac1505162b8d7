//! Finding the program in a downloaded release archive.

use vstd::prelude::*;
use vstd::slice::slice_subrange;
use vstd::string::*;
use vstd::utf8::*;

use crate::text::{cat2, cat3, option_text};
use crate::update::gzip::{inflate, inflated};
use crate::update::path::{file_name, has_file_name};
use crate::update::tarball::{
    add_sentinel, find_walk_end, list_entries, listed_entries, read_bytes, read_entry, tar_contents,
    tar_listing, walk_end, walkable_part, with_sentinel, Listed, ListedView, Listing, ListingView,
};

verus! {

/// The text of `bytes`, with replacement characters where they are not UTF-8.
pub uninterp spec fn lossy_text(bytes: Seq<u8>) -> Seq<char>;

/// Tells with `std::str::from_utf8` whether bytes are UTF-8.
#[verifier::external_body]
fn is_unicode(bytes: &[u8]) -> (r: bool)
    ensures
        r == valid_utf8(bytes@),
{
    std::str::from_utf8(bytes).is_ok()
}

/// Reads bytes as text with `String::from_utf8_lossy`. The text depends on the bytes alone.
#[verifier::external_body]
fn to_lossy_text(bytes: &[u8]) -> (r: String)
    ensures
        r@ == lossy_text(bytes@),
{
    String::from_utf8_lossy(bytes).into_owned()
}

/// What a search through the entries of an archive came to.
#[derive(Debug)]
pub enum Search {
    /// The entry at this position is the one.
    Found(usize),
    /// An entry before any match has a path that cannot be used.
    Unusable(String),
    /// An entry before any match could not be read.
    Broken(String),
    /// No entry has the name.
    Missing,
}

/// What a search through the entries of an archive came to.
pub enum SearchView {
    Found(int),
    Unusable(Seq<char>),
    Broken(Seq<char>),
    Missing,
}

impl View for Search {
    type V = SearchView;

    open spec fn view(&self) -> SearchView {
        match *self {
            Search::Found(index) => SearchView::Found(index as int),
            Search::Unusable(message) => SearchView::Unusable(message@),
            Search::Broken(message) => SearchView::Broken(message@),
            Search::Missing => SearchView::Missing,
        }
    }
}

/// Whether a path can be used: on Windows, paths have to be UTF-8.
pub open spec fn is_usable(path: Seq<u8>, windows: bool) -> bool {
    !windows || valid_utf8(path)
}

/// Whether the search for `name` ends at an entry: it could not be read, its path cannot be used,
/// or it has the name.
pub open spec fn ends_search(
    entry: Result<ListedView, Seq<char>>,
    name: Seq<char>,
    windows: bool,
) -> bool {
    match entry {
        Ok(entry) => !is_usable(entry.path, windows) || file_name(entry.path, windows) == Some(
            encode_utf8(name),
        ),
        Err(_) => true,
    }
}

/// The search for `name`: it ends at the first entry from `from` on that could not be read, has a
/// path that cannot be used, or has the name.
pub open spec fn searched(
    entries: Seq<Result<ListedView, Seq<char>>>,
    name: Seq<char>,
    windows: bool,
    from: int,
) -> SearchView
    decreases entries.len() - from,
{
    if from < 0 || from >= entries.len() {
        SearchView::Missing
    } else if ends_search(entries[from], name, windows) {
        match entries[from] {
            Ok(entry) => if is_usable(entry.path, windows) {
                SearchView::Found(from)
            } else {
                SearchView::Unusable(
                    "only Unicode paths are supported on Windows: "@ + lossy_text(entry.path),
                )
            },
            Err(message) => SearchView::Broken(message),
        }
    } else {
        searched(entries, name, windows, from + 1)
    }
}

/// Whether the search ends at `index`, and at no entry from `from` on before it.
pub open spec fn first_end(
    entries: Seq<Result<ListedView, Seq<char>>>,
    name: Seq<char>,
    windows: bool,
    from: int,
    index: int,
) -> bool {
    &&& from <= index < entries.len()
    &&& ends_search(entries[index], name, windows)
    &&& forall|i: int| from <= i < index ==> !#[trigger] ends_search(entries[i], name, windows)
}

/// The search ends at the first entry that could not be read, cannot be used or has the name, and
/// at no other; it comes up empty only where there is no such entry.
pub proof fn law_first_match(
    entries: Seq<Result<ListedView, Seq<char>>>,
    name: Seq<char>,
    windows: bool,
    from: int,
)
    requires
        0 <= from <= entries.len(),
    ensures
        match searched(entries, name, windows, from) {
            SearchView::Found(index) => {
                &&& first_end(entries, name, windows, from, index)
                &&& entries[index] matches Ok(entry) && file_name(entry.path, windows) == Some(
                    encode_utf8(name),
                )
            },
            SearchView::Unusable(_) => exists|index: int|
                #[trigger] first_end(entries, name, windows, from, index) && (
                entries[index] matches Ok(entry) && !is_usable(entry.path, windows)),
            SearchView::Broken(message) => exists|index: int|
                #[trigger] first_end(entries, name, windows, from, index) && entries[index] == Err::<
                    ListedView,
                    Seq<char>,
                >(message),
            SearchView::Missing => forall|i: int|
                from <= i < entries.len() ==> !#[trigger] ends_search(entries[i], name, windows),
        },
    decreases entries.len() - from,
{
    if from < entries.len() {
        if ends_search(entries[from], name, windows) {
            assert(first_end(entries, name, windows, from, from));
        } else {
            law_first_match(entries, name, windows, from + 1);
            assert forall|index: int|
                #[trigger] first_end(entries, name, windows, from + 1, index) implies first_end(
                entries,
                name,
                windows,
                from,
                index,
            ) by {}
        }
    }
}

/// Searches the listed entries for the first one whose file name is `name`.
pub fn find_entry(entries: &Vec<Result<Listed, String>>, name: &str, windows: bool) -> (r: Search)
    ensures
        r@ == searched(listed_entries(entries@), name@, windows, 0),
        r matches Search::Found(index) ==> index < entries@.len() && entries@[index as int] is Ok,
{
    for i in 0..entries.len()
        invariant
            searched(listed_entries(entries@), name@, windows, 0) == searched(
                listed_entries(entries@),
                name@,
                windows,
                i as int,
            ),
    {
        match &entries[i] {
            Ok(entry) => {
                if windows && !is_unicode(entry.path.as_slice()) {
                    let text: String = to_lossy_text(entry.path.as_slice());
                    return Search::Unusable(
                        cat2("only Unicode paths are supported on Windows: ", text.as_str()),
                    );
                }
                if has_file_name(&entry.path, name, windows) {
                    return Search::Found(i);
                }
            },
            Err(message) => {
                return Search::Broken(message.clone());
            },
        }
    }
    Search::Missing
}

/// Which entry a search settles on. `fault` tells what went wrong with the decompression where the
/// listing came to that point; an entry that could not be read for it is reported with it.
pub open spec fn settled(
    search: SearchView,
    fault: Option<Seq<char>>,
    name: Seq<char>,
) -> Result<int, Seq<char>> {
    match (search, fault) {
        (SearchView::Found(index), _) => Ok(index),
        (SearchView::Unusable(message), _) => Err(message),
        (_, Some(reason)) => Err(reason),
        (SearchView::Broken(message), None) => Err(message),
        (SearchView::Missing, None) => Err("Could not find '"@ + name + "' binary in archive"@),
    }
}

/// Tells which entry a search settles on.
pub fn settle_search(search: Search, fault: Option<String>, name: &str) -> (r: Result<usize, String>)
    ensures
        (match r {
            Ok(index) => Ok::<int, Seq<char>>(index as int),
            Err(message) => Err(message@),
        }) == settled(search@, option_text(fault), name@),
{
    let broken: Option<String> = match search {
        Search::Found(index) => {
            return Ok(index);
        },
        Search::Unusable(message) => {
            return Err(message);
        },
        Search::Broken(message) => Some(message),
        Search::Missing => None,
    };
    if let Some(reason) = fault {
        return Err(reason);
    }
    match broken {
        Some(message) => Err(message),
        None => Err(cat3("Could not find '", name, "' binary in archive")),
    }
}

/// What reading an entry gives, for the length of its whole contents: contents that are cut short
/// by a fault of the decompression are not taken.
pub open spec fn whole_contents(
    contents: Result<Seq<u8>, Seq<char>>,
    size: u64,
    fault: Option<Seq<char>>,
) -> Result<Seq<u8>, Seq<char>> {
    match (contents, fault) {
        (Ok(bytes), Some(reason)) if bytes.len() < size => Err(reason),
        _ => contents,
    }
}

/// Takes the contents of an entry unless a fault cut them short.
pub fn take_contents(
    contents: Result<Vec<u8>, String>,
    size: u64,
    fault: Option<String>,
) -> (r: Result<Vec<u8>, String>)
    ensures
        read_bytes(r) == whole_contents(read_bytes(contents), size, option_text(fault)),
{
    match (contents, fault) {
        (Ok(bytes), Some(reason)) => if (bytes.len() as u64) < size {
            Err(reason)
        } else {
            Ok(bytes)
        },
        (contents, _) => contents,
    }
}

/// The bytes that are listed: all of them, or where a fault follows, whole blocks with a byte behind
/// them that tells whether the listing came to the fault.
pub open spec fn shown(bytes: Seq<u8>, fault: Option<Seq<char>>) -> Seq<u8> {
    if fault is Some {
        with_sentinel(bytes)
    } else {
        bytes
    }
}

/// The fault, where the listing of the bytes that are shown came to it.
pub open spec fn fault_met(
    bytes: Seq<u8>,
    fault: Option<Seq<char>>,
    listing: ListingView,
) -> Option<Seq<char>> {
    let bytes = shown(bytes, fault);
    if walk_end(bytes, 0, bytes.len() as int) == bytes.len() && listing.unread == 0 {
        fault
    } else {
        None
    }
}

/// What extracting `name` from an archive gives.
pub open spec fn extraction(archive: Seq<u8>, name: Seq<char>, windows: bool) -> Result<
    Seq<u8>,
    Seq<char>,
> {
    let (bytes, fault) = inflated(archive);
    let listing = tar_listing(walkable_part(shown(bytes, fault)));
    let search = searched(listing.entries, name, windows, 0);
    match settled(search, fault_met(bytes, fault, listing), name) {
        Err(message) => Err(message),
        Ok(index) => whole_contents(
            tar_contents(bytes, index as nat),
            listing.entries[index]->Ok_0.size,
            fault,
        ),
    }
}

/// Extracts from a gzip-compressed tar archive the contents of the first entry whose file name is
/// `name`. An entry before it that cannot be read, or whose path cannot be used, ends the search
/// with an error. What follows the entry does not matter.
pub fn extract(archive: &[u8], name: &str, windows: bool) -> (r: Result<Vec<u8>, String>)
    ensures
        read_bytes(r) == extraction(archive@, name@, windows),
{
    let (bytes, fault) = inflate(archive);
    let marked: Vec<u8>;
    let all: &[u8] = if fault.is_some() {
        marked = add_sentinel(bytes.as_slice());
        marked.as_slice()
    } else {
        bytes.as_slice()
    };
    let end: usize = find_walk_end(all);
    let part: &[u8] = slice_subrange(all, 0, end);
    assert(part@ =~= walkable_part(all@));
    let listing: Listing = list_entries(part);
    let search: Search = find_entry(&listing.entries, name, windows);
    let size: u64 = match &search {
        Search::Found(index) => match &listing.entries[*index] {
            Ok(entry) => entry.size,
            Err(_) => 0,
        },
        _ => 0,
    };
    let met: Option<String> = match &fault {
        Some(reason) => if end == all.len() && listing.unread == 0 {
            Some(reason.clone())
        } else {
            None
        },
        None => None,
    };
    match settle_search(search, met, name) {
        Err(message) => Err(message),
        Ok(index) => take_contents(read_entry(bytes.as_slice(), index), size, fault),
    }
}

} // verus!
