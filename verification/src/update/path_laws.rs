//! What the file name of a path is, told by how the path is put together.

use vstd::prelude::*;
use vstd::utf8::*;

use crate::update::path::{
    component_end, component_start, file_name, has_file_name, last_name, Style,
};

verus! {

/// Whether a byte stands between components: a slash, on Windows also a backslash, and in a verbatim
/// path a backslash alone.
pub open spec fn divides(byte: u8, style: Style) -> bool {
    match style {
        Style::Unix => byte as char == '/',
        Style::Windows => byte as char == '/' || byte as char == '\\',
        Style::Verbatim => byte as char == '\\',
    }
}

/// Whether bytes hold no separator.
pub open spec fn is_undivided(bytes: Seq<u8>, style: Style) -> bool {
    forall|i: int| 0 <= i < bytes.len() ==> !divides(#[trigger] bytes[i], style)
}

/// Whether bytes are empty or start with a separator.
pub open spec fn starts_divided(bytes: Seq<u8>, style: Style) -> bool {
    bytes.len() == 0 || divides(bytes[0], style)
}

proof fn lemma_start(path: Seq<u8>, end: int, start: int, style: Style)
    requires
        0 <= start <= end <= path.len(),
        forall|i: int| start <= i < end ==> !divides(#[trigger] path[i], style),
        start == 0 || divides(path[start - 1], style),
    ensures
        component_start(path, end, style) == start,
    decreases end - start,
{
    if start < end {
        assert(!divides(path[end - 1], style));
        lemma_start(path, end - 1, start, style);
    }
}

proof fn lemma_end(path: Seq<u8>, start: int, end: int, style: Style)
    requires
        0 <= start <= end <= path.len(),
        forall|i: int| start <= i < end ==> !divides(#[trigger] path[i], style),
        end == path.len() || divides(path[end], style),
    ensures
        component_end(path, start, style) == end,
    decreases end - start,
{
    if start < end {
        assert(!divides(path[start], style));
        lemma_end(path, start + 1, end, style);
    }
}

/// The name of a path of one component is that component. It has none if the component is empty, a
/// dot or two dots.
pub proof fn law_name_alone(component: Seq<u8>, style: Style)
    requires
        is_undivided(component, style),
    ensures
        component.len() == 0 || component == seq!['.' as u8] || component == seq![
            '.' as u8,
            '.' as u8,
        ] ==> last_name(component, style) is None,
        component.len() > 0 && component != seq!['.' as u8] && component != seq![
            '.' as u8,
            '.' as u8,
        ] ==> last_name(component, style) == Some(component),
{
    lemma_start(component, component.len() as int, 0, style);
    assert(component.skip(0) =~= component);
    if component.len() == 0 {
        assert(component =~= Seq::empty());
    }
}

/// The name of a path is its last component. An empty last component does not count, nor does a dot
/// unless the path is verbatim: the name is then that of the path before it. A path that ends with
/// two dots has none, nor has a verbatim path that ends with a dot.
pub proof fn law_name_is_last_component(
    before: Seq<u8>,
    separator: u8,
    component: Seq<u8>,
    style: Style,
)
    requires
        divides(separator, style),
        is_undivided(component, style),
    ensures
        ({
            let path = before.push(separator) + component;
            let name = last_name(path, style);
            if component.len() == 0 {
                name == last_name(before, style)
            } else if component == seq!['.' as u8] {
                if style == Style::Verbatim {
                    name is None
                } else {
                    name == last_name(before, style)
                }
            } else if component == seq!['.' as u8, '.' as u8] {
                name is None
            } else {
                name == Some(component)
            }
        }),
{
    let path = before.push(separator) + component;
    let start = before.len() as int + 1;
    assert(path[start - 1] == separator);
    assert forall|i: int| start <= i < path.len() implies !divides(#[trigger] path[i], style) by {
        assert(path[i] == component[i - start]);
    }
    lemma_start(path, path.len() as int, start, style);
    assert(path.skip(start) =~= component);
    assert(path.take(start - 1) =~= before);
    if component.len() == 0 {
        assert(component =~= Seq::empty());
    }
}

/// Outside Windows the file name is the last component, and a backslash is a character like any
/// other. On Windows it is the last component where the path starts neither with two separators nor
/// with a drive.
pub proof fn law_path_without_prefix(path: Seq<u8>)
    ensures
        file_name(path, false) == last_name(path, Style::Unix),
        !(path.len() >= 2 && divides(path[0], Style::Windows) && divides(path[1], Style::Windows))
            && !(path.len() >= 2 && is_drive(path[0], path[1])) ==> file_name(path, true)
            == last_name(path, Style::Windows),
{
    assert(path.skip(0) =~= path);
}

/// Whether two bytes are a letter and a colon.
pub open spec fn is_drive(letter: u8, colon: u8) -> bool {
    colon as char == ':' && (('a' <= letter as char && letter as char <= 'z') || ('A'
        <= letter as char && letter as char <= 'Z'))
}

/// A drive is no part of the file name: the name is that of the rest of the path.
pub proof fn law_drive(letter: u8, colon: u8, rest: Seq<u8>)
    requires
        is_drive(letter, colon),
    ensures
        file_name(seq![letter, colon] + rest, true) == last_name(rest, Style::Windows),
{
    let path = seq![letter, colon] + rest;
    assert(path[0] == letter && path[1] == colon);
    assert(path.skip(2) =~= rest);
}

/// A server and its share, or a device, are no part of the file name: the name is that of what
/// follows them.
pub proof fn law_share(a: u8, b: u8, server: Seq<u8>, c: u8, share: Seq<u8>, rest: Seq<u8>)
    requires
        divides(a, Style::Windows),
        divides(b, Style::Windows),
        divides(c, Style::Windows),
        server.len() > 0,
        server != seq!['?' as u8],
        is_undivided(server, Style::Windows),
        share.len() > 0,
        is_undivided(share, Style::Windows),
        starts_divided(rest, Style::Windows),
    ensures
        file_name(seq![a, b] + server + seq![c] + share + rest, true) == last_name(
            rest,
            Style::Windows,
        ),
{
    let path = seq![a, b] + server + seq![c] + share + rest;
    let first = 2 + server.len();
    let second = first + 1 + share.len();
    assert(path[0] == a && path[1] == b && path[first as int] == c);
    assert forall|i: int| 2 <= i < first implies !divides(#[trigger] path[i], Style::Windows) by {
        assert(path[i] == server[i - 2]);
    }
    lemma_end(path, 2, first as int, Style::Windows);
    assert forall|i: int| first + 1 <= i < second implies !divides(
        #[trigger] path[i],
        Style::Windows,
    ) by {
        assert(path[i] == share[i - first - 1]);
    }
    if rest.len() > 0 {
        assert(path[second as int] == rest[0]);
    }
    lemma_end(path, first as int + 1, second as int, Style::Windows);
    assert(path.skip(second as int) =~= rest);
    assert(path[2] == server[0]);
    if server.len() == 1 {
        assert(server =~= seq![server[0]]);
    } else {
        assert(path[3] == server[1]);
        assert(!divides(server[1], Style::Windows));
    }
}

/// Two separators alone make no share: where the server or the share is missing, the file name is
/// the last component as in a path without a prefix.
pub proof fn law_incomplete_share(a: u8, b: u8, server: Seq<u8>, c: u8, rest: Seq<u8>)
    requires
        divides(a, Style::Windows),
        divides(b, Style::Windows),
        divides(c, Style::Windows),
        is_undivided(server, Style::Windows),
        server != seq!['?' as u8],
        starts_divided(rest, Style::Windows),
    ensures
        file_name(seq![a, b] + server, true) == last_name(seq![a, b] + server, Style::Windows),
        file_name(seq![a, b] + server + seq![c] + rest, true) == last_name(
            seq![a, b] + server + seq![c] + rest,
            Style::Windows,
        ),
{
    let first = 2 + server.len();
    let short = seq![a, b] + server;
    let path = short + seq![c] + rest;
    assert(short.skip(0) =~= short && path.skip(0) =~= path);
    assert forall|i: int| 2 <= i < first implies !divides(#[trigger] short[i], Style::Windows) by {
        assert(short[i] == server[i - 2]);
    }
    assert forall|i: int| 2 <= i < first implies !divides(#[trigger] path[i], Style::Windows) by {
        assert(path[i] == server[i - 2]);
    }
    assert(path[first as int] == c);
    lemma_end(short, 2, first as int, Style::Windows);
    lemma_end(path, 2, first as int, Style::Windows);
    if rest.len() > 0 {
        assert(path[first as int + 1] == rest[0]);
    }
    lemma_end(path, first as int + 1, first as int + 1, Style::Windows);
    if server.len() == 1 {
        assert(server =~= seq![server[0]]);
        assert(path[2] == server[0]);
    } else if server.len() > 1 {
        assert(path[3] == server[1] && short[3] == server[1]);
        assert(!divides(server[1], Style::Windows));
    } else {
        assert(path[2] == c);
    }
}

/// The start of a verbatim path.
pub open spec fn verbatim_mark() -> Seq<u8> {
    seq!['\\' as u8, '\\' as u8, '?' as u8, '\\' as u8]
}

/// In a verbatim path the first component after the mark, be it a drive, is no part of the file
/// name: the name is that of what follows it, in which a slash is a character like any other.
pub proof fn law_verbatim(name: Seq<u8>, rest: Seq<u8>)
    requires
        is_undivided(name, Style::Verbatim),
        starts_divided(rest, Style::Verbatim),
        name != seq!['U' as u8, 'N' as u8, 'C' as u8] || rest.len() == 0,
    ensures
        file_name(verbatim_mark() + name + rest, true) == last_name(rest, Style::Verbatim),
{
    let path = verbatim_mark() + name + rest;
    let end = 4 + name.len();
    assert forall|i: int| 4 <= i < end implies !divides(#[trigger] path[i], Style::Verbatim) by {
        assert(path[i] == name[i - 4]);
    }
    if rest.len() > 0 {
        assert(path[end as int] == rest[0]);
    }
    lemma_end(path, 4, end as int, Style::Verbatim);
    assert(path.skip(end as int) =~= rest);
    if end == 7 && end < path.len() {
        assert(path[4] == name[0] && path[5] == name[1] && path[6] == name[2]);
        if name[0] == 0x55 && name[1] == 0x4e && name[2] == 0x43 {
            assert(name =~= seq!['U' as u8, 'N' as u8, 'C' as u8]);
        }
    }
}

/// The start of a verbatim path to a share.
pub open spec fn verbatim_share_mark() -> Seq<u8> {
    verbatim_mark() + seq!['U' as u8, 'N' as u8, 'C' as u8, '\\' as u8]
}

/// In a verbatim path to a share neither the server nor the share is part of the file name.
pub proof fn law_verbatim_share(server: Seq<u8>, share: Seq<u8>, rest: Seq<u8>)
    requires
        is_undivided(server, Style::Verbatim),
        is_undivided(share, Style::Verbatim),
        starts_divided(rest, Style::Verbatim),
    ensures
        file_name(verbatim_share_mark() + server, true) is None,
        file_name(verbatim_share_mark() + server + seq!['\\' as u8] + share + rest, true)
            == last_name(rest, Style::Verbatim),
{
    let mark = verbatim_share_mark();
    let first = 8 + server.len();
    let short = mark + server;
    assert(forall|i: int| 0 <= i < 8 ==> short[i] == mark[i]);
    lemma_end(short, 4, 7, Style::Verbatim);
    assert forall|i: int| 8 <= i < first implies !divides(#[trigger] short[i], Style::Verbatim) by {
        assert(short[i] == server[i - 8]);
    }
    lemma_end(short, 8, first as int, Style::Verbatim);
    assert(short.skip(first as int) =~= Seq::empty());
    law_name_alone(Seq::empty(), Style::Verbatim);

    let path = mark + server + seq!['\\' as u8] + share + rest;
    let second = first + 1 + share.len();
    assert(forall|i: int| 0 <= i < 8 ==> path[i] == mark[i]);
    lemma_end(path, 4, 7, Style::Verbatim);
    assert forall|i: int| 8 <= i < first implies !divides(#[trigger] path[i], Style::Verbatim) by {
        assert(path[i] == server[i - 8]);
    }
    assert(path[first as int] as char == '\\');
    lemma_end(path, 8, first as int, Style::Verbatim);
    assert forall|i: int| first + 1 <= i < second implies !divides(
        #[trigger] path[i],
        Style::Verbatim,
    ) by {
        assert(path[i] == share[i - first - 1]);
    }
    if rest.len() > 0 {
        assert(path[second as int] == rest[0]);
    }
    lemma_end(path, first as int + 1, second as int, Style::Verbatim);
    assert(path.skip(second as int) =~= rest);
}

/// A path has a file name if that name is its file name, byte for byte.
pub proof fn law_has_file_name(path: &Vec<u8>, name: &str, windows: bool, r: bool)
    requires
        call_ensures(has_file_name, (path, name, windows), r),
    ensures
        r <==> (file_name(path@, windows) matches Some(found) && found.len() == encode_utf8(
            name@,
        ).len() && forall|i: int| 0 <= i < found.len() ==> #[trigger] found[i] == encode_utf8(name@)[i]),
{
    if let Some(found) = file_name(path@, windows) {
        let wanted = encode_utf8(name@);
        if found.len() == wanted.len() && (forall|i: int|
            0 <= i < found.len() ==> #[trigger] found[i] == wanted[i]) {
            assert(found =~= wanted);
        }
    }
}

} // verus!
