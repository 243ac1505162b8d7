//! The file names of paths, on Unix and on Windows.

use vstd::prelude::*;
use vstd::string::*;
use vstd::utf8::*;

verus! {

/// How the components of a path are told apart.
#[derive(Clone, Copy, Debug, PartialEq, Eq, Structural)]
pub enum Style {
    /// By slashes.
    Unix,
    /// By slashes and backslashes.
    Windows,
    /// By backslashes alone; components are taken as they are.
    Verbatim,
}

/// Whether a byte separates the components of a path.
pub open spec fn is_separator(byte: u8, style: Style) -> bool {
    (byte == 0x2f && style != Style::Verbatim) || (byte == 0x5c && style != Style::Unix)
}

/// Where the component that ends at `end` starts.
pub open spec fn component_start(path: Seq<u8>, end: int, style: Style) -> int
    decreases end,
{
    if end <= 0 {
        0
    } else if is_separator(path[end - 1], style) {
        end
    } else {
        component_start(path, end - 1, style)
    }
}

/// Where the component that starts at `start` ends.
pub open spec fn component_end(path: Seq<u8>, start: int, style: Style) -> int
    decreases path.len() - start,
{
    if start >= path.len() || is_separator(path[start], style) {
        start
    } else {
        component_end(path, start + 1, style)
    }
}

/// A component starts no later than it ends.
pub proof fn lemma_component_start(path: Seq<u8>, end: int, style: Style)
    requires
        0 <= end <= path.len(),
    ensures
        0 <= component_start(path, end, style) <= end,
    decreases end,
{
    if end > 0 && !is_separator(path[end - 1], style) {
        lemma_component_start(path, end - 1, style);
    }
}

/// The final component of a path without a prefix, where it is a name. Empty components at the end
/// do not count, nor do `.` components unless the path is verbatim; a path that ends in `..`, or
/// has no other component, has no file name.
pub open spec fn last_name(path: Seq<u8>, style: Style) -> Option<Seq<u8>>
    decreases path.len(),
{
    let start = component_start(path, path.len() as int, style);
    let component = path.skip(start);
    let skipped = component == Seq::<u8>::empty() || (component == seq![0x2eu8] && style
        != Style::Verbatim);
    if skipped {
        if start <= 0 {
            None
        } else {
            proof {
                lemma_component_start(path, path.len() as int, style);
            }
            last_name(path.take(start - 1), style)
        }
    } else if component == seq![0x2eu8] || component == seq![0x2eu8, 0x2eu8] {
        None
    } else {
        Some(component)
    }
}

/// Whether a byte is an ASCII letter.
pub open spec fn is_letter(byte: u8) -> bool {
    (0x41 <= byte && byte <= 0x5a) || (0x61 <= byte && byte <= 0x7a)
}

/// Whether a path starts with `\\?\`.
pub open spec fn is_verbatim(path: Seq<u8>) -> bool {
    path.len() >= 4 && path[0] == 0x5c && path[1] == 0x5c && path[2] == 0x3f && path[3] == 0x5c
}

/// Where two components end that start at `start`, the second after one separator.
pub open spec fn second_end(path: Seq<u8>, start: int, style: Style) -> int {
    let first = component_end(path, start, style);
    if first < path.len() {
        component_end(path, first + 1, style)
    } else {
        first
    }
}

/// The length of a Windows path's prefix, and how the components after it are told apart. The
/// prefix is a drive (`C:`), a share (`\\server\share`), a device (`\\.\device`), or verbatim:
/// `\\?\name`, `\\?\C:` or `\\?\UNC\server\share`.
pub open spec fn windows_prefix(path: Seq<u8>) -> (int, Style) {
    if is_verbatim(path) {
        let name = component_end(path, 4, Style::Verbatim);
        let share = name == 7 && name < path.len() && path[4] == 0x55 && path[5] == 0x4e && path[6]
            == 0x43;
        if share {
            (second_end(path, 8, Style::Verbatim), Style::Verbatim)
        } else {
            (name, Style::Verbatim)
        }
    } else if path.len() >= 2 && is_separator(path[0], Style::Windows) && is_separator(
        path[1],
        Style::Windows,
    ) {
        let server = component_end(path, 2, Style::Windows);
        let share = second_end(path, 2, Style::Windows);
        if server > 2 && share > server + 1 {
            (share, Style::Windows)
        } else {
            (0, Style::Windows)
        }
    } else if path.len() >= 2 && is_letter(path[0]) && path[1] == 0x3a {
        (2, Style::Windows)
    } else {
        (0, Style::Windows)
    }
}

/// The file name of a path: its final component after any prefix, where it is a name.
pub open spec fn file_name(path: Seq<u8>, windows: bool) -> Option<Seq<u8>> {
    if windows {
        let (prefix, style) = windows_prefix(path);
        last_name(path.skip(prefix), style)
    } else {
        last_name(path, Style::Unix)
    }
}

fn separates(byte: u8, style: Style) -> (r: bool)
    ensures
        r == is_separator(byte, style),
{
    (byte == 0x2f && style != Style::Verbatim) || (byte == 0x5c && style != Style::Unix)
}

fn find_component_end(path: &Vec<u8>, start: usize, style: Style) -> (r: usize)
    requires
        start <= path@.len(),
    ensures
        r == component_end(path@, start as int, style),
        start <= r <= path@.len(),
{
    let mut end: usize = start;
    while end < path.len() && !separates(path[end], style)
        invariant
            start <= end <= path@.len(),
            component_end(path@, start as int, style) == component_end(path@, end as int, style),
        decreases path@.len() - end,
    {
        end = end + 1;
    }
    end
}

fn find_second_end(path: &Vec<u8>, start: usize, style: Style) -> (r: usize)
    requires
        start <= path@.len(),
    ensures
        r == second_end(path@, start as int, style),
        start <= r <= path@.len(),
{
    let first: usize = find_component_end(path, start, style);
    if first < path.len() {
        find_component_end(path, first + 1, style)
    } else {
        first
    }
}

fn find_prefix(path: &Vec<u8>) -> (r: (usize, Style))
    ensures
        (r.0 as int, r.1) == windows_prefix(path@),
        r.0 <= path@.len(),
{
    if path.len() >= 4 && path[0] == 0x5c && path[1] == 0x5c && path[2] == 0x3f && path[3] == 0x5c {
        let name: usize = find_component_end(path, 4, Style::Verbatim);
        if name == 7 && name < path.len() && path[4] == 0x55 && path[5] == 0x4e && path[6] == 0x43 {
            return (find_second_end(path, 8, Style::Verbatim), Style::Verbatim);
        }
        return (name, Style::Verbatim);
    }
    if path.len() >= 2 && separates(path[0], Style::Windows) && separates(path[1], Style::Windows) {
        let server: usize = find_component_end(path, 2, Style::Windows);
        let share: usize = find_second_end(path, 2, Style::Windows);
        if server > 2 && share > server && share - server > 1 {
            return (share, Style::Windows);
        }
        return (0, Style::Windows);
    }
    if path.len() >= 2 && ((0x41 <= path[0] && path[0] <= 0x5a) || (0x61 <= path[0] && path[0]
        <= 0x7a)) && path[1] == 0x3a {
        return (2, Style::Windows);
    }
    (0, Style::Windows)
}

/// Where in `path` the last name from `from` on starts and ends.
fn find_last_name(path: &Vec<u8>, from: usize, style: Style) -> (r: Option<(usize, usize)>)
    requires
        from <= path@.len(),
    ensures
        match r {
            Some((start, end)) => {
                &&& start <= end <= path@.len()
                &&& last_name(path@.skip(from as int), style) == Some(
                    path@.subrange(start as int, end as int),
                )
            },
            None => last_name(path@.skip(from as int), style) is None,
        },
{
    let mut end: usize = path.len();
    assert(path@.subrange(from as int, end as int) =~= path@.skip(from as int));
    loop
        invariant
            from <= end <= path@.len(),
            last_name(path@.skip(from as int), style) == last_name(
                path@.subrange(from as int, end as int),
                style,
            ),
        decreases end,
    {
        let ghost rest = path@.subrange(from as int, end as int);
        let mut start: usize = end;
        while start > from && !separates(path[start - 1], style)
            invariant
                from <= start <= end <= path@.len(),
                rest == path@.subrange(from as int, end as int),
                component_start(rest, start - from, style) == component_start(
                    rest,
                    end - from,
                    style,
                ),
            ensures
                from <= start <= end,
                component_start(rest, end - from, style) == start - from,
            decreases start,
        {
            start = start - 1;
        }
        let ghost component = rest.skip(start - from);
        assert(component =~= path@.subrange(start as int, end as int));
        let dot: bool = end - start == 1 && path[start] == 0x2e;
        let dots: bool = end - start == 2 && path[start] == 0x2e && path[start + 1] == 0x2e;
        proof {
            assert(dot ==> component =~= seq![0x2eu8]);
            assert(dots ==> component =~= seq![0x2eu8, 0x2eu8]);
            assert(end == start ==> component =~= Seq::<u8>::empty());
            assert(!dot ==> component.len() != 1 || component[0] != 0x2e);
            assert(!dots ==> component.len() != 2 || component[0] != 0x2e || component[1] != 0x2e);
            assert(!dot ==> component != seq![0x2eu8]);
            assert(!dots ==> component != seq![0x2eu8, 0x2eu8]);
        }
        if end == start || (dot && style != Style::Verbatim) {
            if start == from {
                return None;
            }
            assert(rest.take(start - from - 1) =~= path@.subrange(from as int, start - 1));
            end = start - 1;
        } else if dot || dots {
            return None;
        } else {
            return Some((start, end));
        }
    }
}

/// Whether the file name of `path` is `name`.
pub fn has_file_name(path: &Vec<u8>, name: &str, windows: bool) -> (r: bool)
    ensures
        r == (file_name(path@, windows) == Some(encode_utf8(name@))),
{
    let wanted: &[u8] = name.as_bytes();
    let (from, style) = if windows {
        find_prefix(path)
    } else {
        (0, Style::Unix)
    };
    assert(path@.skip(0) =~= path@);
    match find_last_name(path, from, style) {
        None => false,
        Some((start, end)) => {
            let ghost component = path@.subrange(start as int, end as int);
            if end - start != wanted.len() {
                return false;
            }
            for i in 0..wanted.len()
                invariant
                    start <= end <= path@.len(),
                    end - start == wanted@.len(),
                    component == path@.subrange(start as int, end as int),
                    file_name(path@, windows) == Some(component),
                    wanted@ == encode_utf8(name@),
                    forall|j: int| 0 <= j < i ==> component[j] == wanted@[j],
            {
                if path[start + i] != wanted[i] {
                    assert(component[i as int] != wanted@[i as int]);
                    return false;
                }
            }
            assert(component =~= wanted@);
            true
        },
    }
}

} // verus!
