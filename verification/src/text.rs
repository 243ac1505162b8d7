//! Building and inspecting text.

use vstd::prelude::*;
use vstd::string::*;

verus! {

/// The text of an optional string.
pub open spec fn option_text(value: Option<String>) -> Option<Seq<char>> {
    match value {
        Some(text) => Some(text@),
        None => None,
    }
}

/// The texts of a sequence of strings, in order.
pub open spec fn texts(values: Seq<String>) -> Seq<Seq<char>> {
    Seq::new(values.len(), |i: int| values[i]@)
}

/// The texts of an optional list of strings.
pub open spec fn option_texts(value: Option<Vec<String>>) -> Option<Seq<Seq<char>>> {
    match value {
        Some(list) => Some(texts(list@)),
        None => None,
    }
}

/// `parts` joined with `separator` between neighbours.
pub open spec fn joined(parts: Seq<Seq<char>>, separator: Seq<char>) -> Seq<char>
    decreases parts.len(),
{
    if parts.len() == 0 {
        Seq::empty()
    } else if parts.len() == 1 {
        parts[0]
    } else {
        joined(parts.drop_last(), separator) + separator + parts.last()
    }
}

/// The decimal digits of `n`, most significant first, without leading zeros.
pub open spec fn decimal_text(n: nat) -> Seq<char>
    decreases n,
{
    if n < 10 {
        seq![digit_char(n)]
    } else {
        decimal_text(n / 10).push(digit_char(n % 10))
    }
}

/// The character of a decimal digit.
pub open spec fn digit_char(digit: nat) -> char {
    (48 + digit) as char
}

/// `text` without the characters equal to `c` at its start.
pub open spec fn trimmed_start(text: Seq<char>, c: char) -> Seq<char>
    decreases text.len(),
{
    if text.len() > 0 && text[0] == c {
        trimmed_start(text.drop_first(), c)
    } else {
        text
    }
}

/// Whether two texts hold the same characters.
pub fn same_text(a: &str, b: &str) -> (r: bool)
    ensures
        r == (a@ == b@),
{
    a.to_owned() == b.to_owned()
}

/// `a` followed by `b`.
pub fn cat2(a: &str, b: &str) -> (r: String)
    ensures
        r@ == a@ + b@,
{
    a.to_owned().concat(b)
}

/// `a`, `b` and `c` in a row.
pub fn cat3(a: &str, b: &str, c: &str) -> (r: String)
    ensures
        r@ == a@ + b@ + c@,
{
    a.to_owned().concat(b).concat(c)
}

/// `a`, `b`, `c` and `d` in a row.
pub fn cat4(a: &str, b: &str, c: &str, d: &str) -> (r: String)
    ensures
        r@ == a@ + b@ + c@ + d@,
{
    a.to_owned().concat(b).concat(c).concat(d)
}

fn digit_text(digit: u64) -> (r: &'static str)
    requires
        digit < 10,
    ensures
        r@ == seq![digit_char(digit as nat)],
{
    proof {
        reveal_strlit("0");
        reveal_strlit("1");
        reveal_strlit("2");
        reveal_strlit("3");
        reveal_strlit("4");
        reveal_strlit("5");
        reveal_strlit("6");
        reveal_strlit("7");
        reveal_strlit("8");
        reveal_strlit("9");
    }
    match digit {
        0 => "0",
        1 => "1",
        2 => "2",
        3 => "3",
        4 => "4",
        5 => "5",
        6 => "6",
        7 => "7",
        8 => "8",
        _ => "9",
    }
}

/// `n` written in decimal.
pub fn decimal(n: u64) -> (r: String)
    ensures
        r@ == decimal_text(n as nat),
    decreases n,
{
    if n < 10 {
        digit_text(n).to_owned()
    } else {
        decimal(n / 10).concat(digit_text(n % 10))
    }
}

/// The strings of `parts` with `separator` between neighbours.
pub fn join(parts: &Vec<String>, separator: &str) -> (r: String)
    ensures
        r@ == joined(texts(parts@), separator@),
{
    let mut out: String = String::new();
    let ghost all = texts(parts@);
    for i in 0..parts.len()
        invariant
            all == texts(parts@),
            out@ == joined(all.take(i as int), separator@),
    {
        proof {
            assert(all.take(i + 1).drop_last() =~= all.take(i as int));
            assert(all.take(i + 1).last() == parts@[i as int]@);
        }
        if i > 0 {
            out.append(separator);
        }
        out.append(parts[i].as_str());
    }
    proof {
        assert(all.take(all.len() as int) =~= all);
    }
    out
}

/// `text` without the characters equal to `c` at its start.
pub fn trim_start(text: &str, c: char) -> (r: String)
    ensures
        r@ == trimmed_start(text@, c),
{
    let len: usize = text.unicode_len();
    let mut i: usize = 0;
    assert(text@.skip(0) =~= text@);
    while i < len && text.get_char(i) == c
        invariant
            i <= len,
            len == text@.len(),
            trimmed_start(text@, c) == trimmed_start(text@.skip(i as int), c),
        ensures
            i <= len,
            i == len || text@[i as int] != c,
            trimmed_start(text@, c) == trimmed_start(text@.skip(i as int), c),
        decreases len - i,
    {
        proof {
            assert(text@.skip(i as int).drop_first() =~= text@.skip(i + 1));
        }
        i = i + 1;
    }
    assert(text@.subrange(i as int, len as int) =~= text@.skip(i as int));
    text.substring_char(i, len).to_owned()
}

/// The number that a text of decimal digits stands for, most significant first.
pub open spec fn digits_value(text: Seq<char>) -> int
    decreases text.len(),
{
    if text.len() == 0 {
        0
    } else {
        10 * digits_value(text.drop_last()) + (text.last() as int - '0' as int)
    }
}

/// Whether a text holds decimal digits alone.
pub open spec fn is_digits(text: Seq<char>) -> bool {
    forall|i: int| 0 <= i < text.len() ==> '0' <= #[trigger] text[i] <= '9'
}

proof fn lemma_decimal(n: nat)
    ensures
        decimal_text(n).len() > 0,
        is_digits(decimal_text(n)),
        digits_value(decimal_text(n)) == n,
        decimal_text(n)[0] == '0' ==> n == 0 && decimal_text(n).len() == 1,
    decreases n,
{
    let text = decimal_text(n);
    reveal_with_fuel(digits_value, 2);
    if n >= 10 {
        let init = decimal_text(n / 10);
        lemma_decimal(n / 10);
        assert(text.drop_last() =~= init);
        assert(text[0] == init[0]);
        assert forall|i: int| 0 <= i < text.len() implies '0' <= #[trigger] text[i] <= '9' by {
            if i < init.len() {
                assert(text[i] == init[i]);
            }
        }
    } else {
        assert(text.drop_last() =~= Seq::empty());
    }
}

/// A number in decimal is written in digits alone, reads back as the number, and has no zero in
/// front unless it is zero itself.
pub proof fn law_decimal_reads_back(n: u64, r: String)
    requires
        call_ensures(decimal, (n,), r),
    ensures
        r@ == decimal_text(n as nat),
        r@.len() > 0,
        is_digits(r@),
        digits_value(r@) == n,
        r@[0] == '0' ==> n == 0 && r@.len() == 1,
{
    lemma_decimal(n as nat);
}

/// Two numbers in decimal are the same text only if they are the same number.
pub proof fn law_decimal_tells_numbers_apart(a: nat, b: nat)
    requires
        decimal_text(a) == decimal_text(b),
    ensures
        a == b,
{
    lemma_decimal(a);
    lemma_decimal(b);
}

/// Joining nothing gives nothing, and joining a single part gives that part.
pub proof fn law_join_of_one(part: Seq<char>, separator: Seq<char>)
    ensures
        joined(Seq::empty(), separator) == Seq::<char>::empty(),
        joined(seq![part], separator) == part,
{
}

/// Joining two lists of parts, neither of them empty, puts the separator between what each of them
/// gives.
pub proof fn law_join_of_two_lists(a: Seq<Seq<char>>, b: Seq<Seq<char>>, separator: Seq<char>)
    requires
        a.len() > 0,
        b.len() > 0,
    ensures
        joined(a + b, separator) == joined(a, separator) + separator + joined(b, separator),
    decreases b.len(),
{
    let init = b.drop_last();
    assert((a + b).drop_last() =~= a + init);
    if init.len() == 0 {
        assert(a + init =~= a);
    } else {
        law_join_of_two_lists(a, init, separator);
        assert(joined(a, separator) + separator + joined(init, separator) + separator + b.last()
            =~= joined(a, separator) + separator + (joined(init, separator) + separator
            + b.last()));
    }
}

/// Joining strings joins their texts in order.
pub proof fn law_join(parts: &Vec<String>, separator: &str, r: String)
    requires
        call_ensures(join, (parts, separator), r),
    ensures
        r@ == joined(Seq::new(parts@.len(), |i: int| parts@[i]@), separator@),
{
}

/// What is left of a trimmed text is its end, everything before it is the character given, and it
/// does not start with that character.
pub proof fn lemma_trimmed_start(text: Seq<char>, c: char)
    ensures
        ({
            let rest = trimmed_start(text, c);
            let cut = text.len() - rest.len();
            &&& 0 <= cut
            &&& rest == text.skip(cut)
            &&& forall|i: int| 0 <= i < cut ==> #[trigger] text[i] == c
            &&& rest.len() > 0 ==> rest[0] != c
        }),
    decreases text.len(),
{
    if text.len() > 0 && text[0] == c {
        let after = text.drop_first();
        lemma_trimmed_start(after, c);
        let rest = trimmed_start(after, c);
        let cut = text.len() - rest.len();
        assert(rest =~= text.skip(cut));
        assert forall|i: int| 0 <= i < cut implies #[trigger] text[i] == c by {
            if i > 0 {
                assert(after[i - 1] == c);
            }
        }
    } else {
        assert(text.skip(0) =~= text);
    }
}

/// Trimming cuts off the start of a text, every character of it equal to the one given, and as much
/// of it as there is: what is left does not start with that character.
pub proof fn law_trim_start(text: &str, c: char, r: String)
    requires
        call_ensures(trim_start, (text, c), r),
    ensures
        r@.len() <= text@.len(),
        r@ == text@.skip(text@.len() - r@.len()),
        forall|i: int| 0 <= i < text@.len() - r@.len() ==> #[trigger] text@[i] == c,
        r@.len() > 0 ==> r@[0] != c,
{
    lemma_trimmed_start(text@, c);
}

/// Two texts are the same if and only if they have the same characters in the same places.
pub proof fn law_same_text(a: &str, b: &str, r: bool)
    requires
        call_ensures(same_text, (a, b), r),
    ensures
        r <==> a@.len() == b@.len() && forall|i: int| 0 <= i < a@.len() ==> #[trigger] a@[i] == b@[i],
{
    if a@.len() == b@.len() && forall|i: int| 0 <= i < a@.len() ==> #[trigger] a@[i] == b@[i] {
        assert(a@ =~= b@);
    }
}

} // verus!
