//! Character-level text operations, each with the mathematical function it computes.
//!
//! A string is modelled by its sequence of characters (`s@`).

use vstd::prelude::*;

verus! {

// ---------------------------------------------------------------------------
// Whitespace and trimming
// ---------------------------------------------------------------------------

/// The characters with the Unicode property `White_Space`.
pub open spec fn whitespace(c: char) -> bool {
    ||| '\u{0009}' <= c <= '\u{000D}'
    ||| c == '\u{0020}'
    ||| c == '\u{0085}'
    ||| c == '\u{00A0}'
    ||| c == '\u{1680}'
    ||| '\u{2000}' <= c <= '\u{200A}'
    ||| c == '\u{2028}'
    ||| c == '\u{2029}'
    ||| c == '\u{202F}'
    ||| c == '\u{205F}'
    ||| c == '\u{3000}'
}

/// Whether `c` is whitespace.
pub fn is_whitespace(c: char) -> (r: bool)
    ensures
        r == whitespace(c),
{
    ('\u{0009}' <= c && c <= '\u{000D}') || c == '\u{0020}' || c == '\u{0085}' || c == '\u{00A0}'
        || c == '\u{1680}' || ('\u{2000}' <= c && c <= '\u{200A}') || c == '\u{2028}' || c
        == '\u{2029}' || c == '\u{202F}' || c == '\u{205F}' || c == '\u{3000}'
}

/// `s` without its leading whitespace.
pub open spec fn trim_start(s: Seq<char>) -> Seq<char>
    decreases s.len(),
{
    if s.len() > 0 && whitespace(s.first()) {
        trim_start(s.drop_first())
    } else {
        s
    }
}

/// `s` without its trailing whitespace.
pub open spec fn trim_end(s: Seq<char>) -> Seq<char>
    decreases s.len(),
{
    if s.len() > 0 && whitespace(s.last()) {
        trim_end(s.drop_last())
    } else {
        s
    }
}

/// `s` without the whitespace at its two ends.
pub open spec fn trimmed(s: Seq<char>) -> Seq<char> {
    trim_end(trim_start(s))
}

/// `s` without the occurrences of `c` at its end.
pub open spec fn trim_end_char(s: Seq<char>, c: char) -> Seq<char>
    decreases s.len(),
{
    if s.len() > 0 && s.last() == c {
        trim_end_char(s.drop_last(), c)
    } else {
        s
    }
}

/// The characters of `s`, in order.
pub fn chars_of(s: &str) -> (v: Vec<char>)
    ensures
        v@ == s@,
{
    let mut v: Vec<char> = Vec::new();
    for c in it: s.chars()
        invariant
            v@ == it.seq().take(it.index() as int),
            it.seq() == s@,
    {
        v.push(c);
    }
    v
}

/// `s` without the whitespace at its two ends.
pub fn trim<'a>(s: &'a str) -> (r: &'a str)
    ensures
        r@ == trimmed(s@),
{
    let chars = chars_of(s);
    let mut start: usize = 0;
    let mut end: usize = chars.len();
    assert(s@.skip(0) =~= s@);
    while start < end && is_whitespace(chars[start])
        invariant
            start <= end,
            end == chars@.len(),
            chars@ == s@,
            trim_start(s@) == trim_start(s@.skip(start as int)),
        decreases end - start,
    {
        assert(s@.skip(start as int).drop_first() =~= s@.skip(start + 1));
        start = start + 1;
    }
    let ghost head = s@.skip(start as int);
    assert(trim_start(s@) == head);
    assert(s@.subrange(start as int, end as int) =~= head);
    while start < end && is_whitespace(chars[end - 1])
        invariant
            start <= end <= chars@.len(),
            chars@ == s@,
            trim_end(head) == trim_end(s@.subrange(start as int, end as int)),
        decreases end,
    {
        assert(s@.subrange(start as int, end as int).drop_last() =~= s@.subrange(
            start as int,
            end - 1,
        ));
        end = end - 1;
    }
    s.substring_char(start, end)
}

/// `s` without the occurrences of `c` at its end.
pub fn trim_end_matches<'a>(s: &'a str, c: char) -> (r: &'a str)
    ensures
        r@ == trim_end_char(s@, c),
{
    let chars = chars_of(s);
    let mut end: usize = chars.len();
    assert(s@.subrange(0, end as int) =~= s@);
    while end > 0 && chars[end - 1] == c
        invariant
            end <= chars@.len(),
            chars@ == s@,
            trim_end_char(s@, c) == trim_end_char(s@.subrange(0, end as int), c),
        decreases end,
    {
        assert(s@.subrange(0, end as int).drop_last() =~= s@.subrange(0, end - 1));
        end = end - 1;
    }
    s.substring_char(0, end)
}

// ---------------------------------------------------------------------------
// Optional text
// ---------------------------------------------------------------------------

/// The characters behind an optional string slice.
pub open spec fn optional_str_view(s: Option<&str>) -> Option<Seq<char>> {
    match s {
        Some(s) => Some(s@),
        None => None,
    }
}

/// The characters behind an optional string.
pub open spec fn optional_view(s: Option<String>) -> Option<Seq<char>> {
    match s {
        Some(s) => Some(s@),
        None => None,
    }
}

/// An optional text without the whitespace round it, where a blank text counts as absent.
pub open spec fn nonblank(s: Option<Seq<char>>) -> Option<Seq<char>> {
    match s {
        Some(s) if trimmed(s).len() > 0 => Some(trimmed(s)),
        _ => None,
    }
}

/// An optional text without the whitespace round it, where a blank text counts as absent.
pub fn trim_optional<'a>(s: &'a Option<String>) -> (r: Option<&'a str>)
    ensures
        optional_str_view(r) == nonblank(optional_view(*s)),
{
    match s {
        Some(s) => {
            let text = trim(s.as_str());
            if text.is_empty() {
                None
            } else {
                Some(text)
            }
        },
        None => None,
    }
}

/// An owned copy of an optional string slice.
pub fn own_optional(s: Option<&str>) -> (r: Option<String>)
    ensures
        optional_view(r) == optional_str_view(s),
{
    match s {
        Some(s) => Some(s.to_owned()),
        None => None,
    }
}

/// A view of an optional string.
pub fn borrow_optional<'a>(s: &'a Option<String>) -> (r: Option<&'a str>)
    ensures
        optional_str_view(r) == optional_view(*s),
{
    match s {
        Some(s) => Some(s.as_str()),
        None => None,
    }
}

// ---------------------------------------------------------------------------
// Searching
// ---------------------------------------------------------------------------

/// Whether some character of `s` is whitespace.
pub open spec fn has_whitespace(s: Seq<char>) -> bool {
    exists|i: int| 0 <= i < s.len() && whitespace(#[trigger] s[i])
}

/// Whether some character of `s` is whitespace.
pub fn contains_whitespace(s: &str) -> (r: bool)
    ensures
        r == has_whitespace(s@),
{
    let chars = chars_of(s);
    let mut i: usize = 0;
    while i < chars.len()
        invariant
            i <= chars@.len(),
            chars@ == s@,
            forall|j: int| 0 <= j < i ==> !whitespace(#[trigger] s@[j]),
        decreases chars@.len() - i,
    {
        if is_whitespace(chars[i]) {
            assert(whitespace(s@[i as int]));
            return true;
        }
        i = i + 1;
    }
    false
}

/// Whether `c` occurs in `s`.
pub fn contains_char(s: &str, c: char) -> (r: bool)
    ensures
        r == s@.contains(c),
{
    let chars = chars_of(s);
    let mut i: usize = 0;
    while i < chars.len()
        invariant
            i <= chars@.len(),
            chars@ == s@,
            forall|j: int| 0 <= j < i ==> s@[j] != c,
        decreases chars@.len() - i,
    {
        if chars[i] == c {
            assert(s@[i as int] == c);
            return true;
        }
        i = i + 1;
    }
    false
}

/// Whether the two strings hold the same characters.
pub fn same_text(a: &str, b: &str) -> (r: bool)
    ensures
        r == (a@ == b@),
{
    let left = chars_of(a);
    let right = chars_of(b);
    if left.len() != right.len() {
        return false;
    }
    let mut i: usize = 0;
    while i < left.len()
        invariant
            i <= left@.len(),
            left@.len() == right@.len(),
            left@ == a@,
            right@ == b@,
            forall|j: int| 0 <= j < i ==> a@[j] == b@[j],
        decreases left@.len() - i,
    {
        if left[i] != right[i] {
            assert(a@[i as int] != b@[i as int]);
            return false;
        }
        i = i + 1;
    }
    assert(a@ =~= b@);
    true
}

/// What follows `prefix` in `s`, where `s` begins with it.
pub fn strip_prefix<'a>(s: &'a str, prefix: &str) -> (r: Option<&'a str>)
    ensures
        match r {
            Some(rest) => prefix@.is_prefix_of(s@) && rest@ == s@.skip(prefix@.len() as int),
            None => !prefix@.is_prefix_of(s@),
        },
{
    let n = prefix.unicode_len();
    let len = s.unicode_len();
    if len < n {
        return None;
    }
    let head = s.substring_char(0, n);
    if same_text(head, prefix) {
        let rest = s.substring_char(n, len);
        assert(rest@ =~= s@.skip(n as int));
        Some(rest)
    } else {
        None
    }
}

/// Whether `part` stands somewhere in `whole`.
pub open spec fn occurs(part: Seq<char>, whole: Seq<char>) -> bool {
    exists|from: int, to: int|
        0 <= from <= to <= whole.len() && part == #[trigger] whole.subrange(from, to)
}

// ---------------------------------------------------------------------------
// Splitting and joining
// ---------------------------------------------------------------------------

/// The pieces of `s` between the occurrences of `sep`: one more than `sep` occurs.
pub open spec fn split_on(s: Seq<char>, sep: char) -> Seq<Seq<char>>
    decreases s.len(),
{
    if s.len() == 0 {
        seq![Seq::<char>::empty()]
    } else {
        let init = split_on(s.drop_last(), sep);
        if s.last() == sep {
            init.push(Seq::<char>::empty())
        } else {
            init.drop_last().push(init.last().push(s.last()))
        }
    }
}

/// The sequences of `parts`, in order, with `sep` between each two.
pub open spec fn join(parts: Seq<Seq<char>>, sep: Seq<char>) -> Seq<char>
    decreases parts.len(),
{
    if parts.len() == 0 {
        Seq::<char>::empty()
    } else if parts.len() == 1 {
        parts[0]
    } else {
        join(parts.drop_last(), sep) + sep + parts.last()
    }
}

/// The character sequences of `strings`.
pub open spec fn views(strings: Seq<String>) -> Seq<Seq<char>> {
    Seq::new(strings.len(), |i: int| strings[i]@)
}

/// The character sequences of `strs`.
pub open spec fn str_views(strs: Seq<&str>) -> Seq<Seq<char>> {
    Seq::new(strs.len(), |i: int| strs[i]@)
}

/// The pieces of `s` between the occurrences of `sep`.
pub fn split<'a>(s: &'a str, sep: char) -> (r: Vec<&'a str>)
    ensures
        str_views(r@) == split_on(s@, sep),
{
    let chars = chars_of(s);
    let mut pieces: Vec<&'a str> = Vec::new();
    let mut start: usize = 0;
    let mut i: usize = 0;
    assert(s@.take(0) =~= Seq::<char>::empty());
    assert(str_views(pieces@).push(s@.subrange(0, 0)) =~= split_on(s@.take(0), sep));
    while i < chars.len()
        invariant
            start <= i <= chars@.len(),
            chars@ == s@,
            str_views(pieces@).push(s@.subrange(start as int, i as int)) == split_on(
                s@.take(i as int),
                sep,
            ),
        decreases chars@.len() - i,
    {
        let ghost before = str_views(pieces@);
        let ghost open_piece = s@.subrange(start as int, i as int);
        assert(s@.take(i + 1).drop_last() =~= s@.take(i as int));
        if chars[i] == sep {
            let piece = s.substring_char(start, i);
            pieces.push(piece);
            start = i + 1;
            assert(str_views(pieces@) =~= before.push(open_piece));
            assert(s@.subrange(start as int, i + 1) =~= Seq::<char>::empty());
        } else {
            assert(before.push(open_piece).drop_last() =~= before);
            assert(s@.subrange(start as int, i + 1) =~= open_piece.push(s@[i as int]));
        }
        i = i + 1;
    }
    let ghost before = str_views(pieces@);
    let piece = s.substring_char(start, i);
    pieces.push(piece);
    assert(s@.take(i as int) =~= s@);
    assert(str_views(pieces@) =~= before.push(piece@));
    pieces
}

/// The strings of `parts`, in order, with `sep` between each two.
pub fn join_strings(parts: &Vec<String>, sep: &str) -> (r: String)
    ensures
        r@ == join(views(parts@), sep@),
{
    let ghost all = views(parts@);
    let mut out = String::new();
    let mut i: usize = 0;
    assert(all.take(0) =~= Seq::<Seq<char>>::empty());
    while i < parts.len()
        invariant
            i <= parts@.len(),
            all == views(parts@),
            out@ == join(all.take(i as int), sep@),
        decreases parts@.len() - i,
    {
        assert(all.take(i + 1).drop_last() =~= all.take(i as int));
        if i > 0 {
            out.append(sep);
        }
        out.append(parts[i].as_str());
        assert(out@ =~= join(all.take(i + 1), sep@));
        i = i + 1;
    }
    assert(all.take(i as int) =~= all);
    out
}

// ---------------------------------------------------------------------------
// Numbers
// ---------------------------------------------------------------------------

/// The decimal digit `d`, for `d` below ten.
pub open spec fn digit(d: nat) -> char {
    (d + '0' as nat) as char
}

/// `n` in decimal notation, without leading zeros.
pub open spec fn decimal(n: nat) -> Seq<char>
    decreases n,
{
    if n < 10 {
        seq![digit(n)]
    } else {
        decimal(n / 10).push(digit(n % 10))
    }
}

/// The string that holds the decimal digit `d` alone.
fn digit_text(d: usize) -> (r: &'static str)
    requires
        d < 10,
    ensures
        r@ == seq![digit(d as nat)],
{
    proof {
        reveal_strlit("0");
        reveal_strlit("1");
        reveal_strlit("2");
        reveal_strlit("3");
        reveal_strlit("4");
        reveal_strlit("5");
        reveal_strlit("6");
        reveal_strlit("7");
        reveal_strlit("8");
        reveal_strlit("9");
    }
    match d {
        0 => "0",
        1 => "1",
        2 => "2",
        3 => "3",
        4 => "4",
        5 => "5",
        6 => "6",
        7 => "7",
        8 => "8",
        _ => "9",
    }
}

/// `n` in decimal notation.
pub fn decimal_text(n: usize) -> (r: String)
    ensures
        r@ == decimal(n as nat),
    decreases n,
{
    if n < 10 {
        digit_text(n).to_owned()
    } else {
        let mut out = decimal_text(n / 10);
        out.append(digit_text(n % 10));
        assert(out@ =~= decimal(n as nat));
        out
    }
}

// ---------------------------------------------------------------------------
// Truncation
// ---------------------------------------------------------------------------

/// `s` where it has at most `max_chars` characters, and else its first `max_chars`
/// characters followed by `suffix`.
pub open spec fn truncated(s: Seq<char>, max_chars: nat, suffix: Seq<char>) -> Seq<char> {
    if s.len() <= max_chars {
        s
    } else {
        s.take(max_chars as int) + suffix
    }
}

/// Cuts `s` after `max_chars` characters and marks the cut with `suffix`; a shorter
/// string is returned as it is.
pub fn truncate_with_suffix(s: &str, max_chars: usize, suffix: &str) -> (r: String)
    ensures
        r@ == truncated(s@, max_chars as nat, suffix@),
{
    if s.unicode_len() <= max_chars {
        s.to_owned()
    } else {
        let head = s.substring_char(0, max_chars);
        assert(head@ =~= s@.take(max_chars as int));
        head.to_owned().concat(suffix)
    }
}

/// Cuts `s` after `max_chars` characters and marks the cut with three dots.
pub fn truncate_with_ellipsis(s: &str, max_chars: usize) -> (r: String)
    ensures
        r@ == truncated(s@, max_chars as nat, "..."@),
{
    truncate_with_suffix(s, max_chars, "...")
}

// ---------------------------------------------------------------------------
// Facts
// ---------------------------------------------------------------------------

/// A sequence that neither begins nor ends with whitespace is its own trimmed form.
pub proof fn lemma_trimmed_fixed(s: Seq<char>)
    requires
        s.len() > 0 ==> !whitespace(s.first()) && !whitespace(s.last()),
    ensures
        trimmed(s) == s,
{
}

pub proof fn lemma_trim_start(s: Seq<char>)
    ensures
        trim_start(s).len() <= s.len(),
        trim_start(s) == s.skip(s.len() - trim_start(s).len()),
        trim_start(s).len() > 0 ==> !whitespace(trim_start(s).first()),
        forall|i: int| 0 <= i < s.len() - trim_start(s).len() ==> whitespace(#[trigger] s[i]),
    decreases s.len(),
{
    if s.len() > 0 && whitespace(s.first()) {
        let rest = s.drop_first();
        lemma_trim_start(rest);
        let n = rest.len() - trim_start(rest).len();
        assert(rest.skip(n) =~= s.skip(n + 1));
        assert forall|i: int| 0 <= i < n + 1 implies whitespace(#[trigger] s[i]) by {
            if i > 0 {
                assert(rest[i - 1] == s[i]);
            }
        }
    } else {
        assert(s.skip(0) =~= s);
    }
}

pub proof fn lemma_trim_end(s: Seq<char>)
    ensures
        trim_end(s).len() <= s.len(),
        trim_end(s) == s.take(trim_end(s).len() as int),
        trim_end(s).len() > 0 ==> !whitespace(trim_end(s).last()),
        forall|i: int| trim_end(s).len() <= i < s.len() ==> whitespace(#[trigger] s[i]),
    decreases s.len(),
{
    if s.len() > 0 && whitespace(s.last()) {
        let init = s.drop_last();
        lemma_trim_end(init);
        let n = trim_end(init).len() as int;
        assert(init.take(n) =~= s.take(n));
        assert forall|i: int| n <= i < s.len() implies whitespace(#[trigger] s[i]) by {
            if i < init.len() {
                assert(init[i] == s[i]);
            }
        }
    } else {
        assert(s.take(s.len() as int) =~= s);
    }
}

/// What trimming leaves: a stretch of `s` that neither begins nor ends with whitespace, with
/// nothing but whitespace before and after it.
pub proof fn lemma_trimmed(s: Seq<char>)
    ensures
        trimmed(s).len() > 0 ==> !whitespace(trimmed(s).first()) && !whitespace(trimmed(s).last()),
        exists|from: int, to: int|
            0 <= from <= to <= s.len() && trimmed(s) == #[trigger] s.subrange(from, to) && (forall|
                i: int,
            |
                0 <= i < s.len() && !(from <= i < to) ==> whitespace(#[trigger] s[i])),
{
    let t = trim_start(s);
    lemma_trim_start(s);
    lemma_trim_end(t);
    let from = s.len() - t.len();
    let to = from + trimmed(s).len();
    assert(trimmed(s) =~= s.subrange(from, to));
    assert forall|i: int| 0 <= i < s.len() && !(from <= i < to) implies whitespace(
        #[trigger] s[i],
    ) by {
        if i >= to {
            assert(t[i - from] == s[i]);
        }
    }
}

/// Trimming twice is trimming once.
pub proof fn lemma_trimmed_idempotent(s: Seq<char>)
    ensures
        trimmed(trimmed(s)) == trimmed(s),
{
    lemma_trimmed(s);
    lemma_trimmed_fixed(trimmed(s));
}

/// Behind a text that neither begins nor ends with whitespace, trimming takes away the trailing
/// whitespace of what follows.
pub proof fn lemma_trimmed_append(a: Seq<char>, b: Seq<char>)
    requires
        a.len() > 0,
        !whitespace(a.first()),
        !whitespace(a.last()),
    ensures
        trimmed(a + b) == a + trim_end(b),
    decreases b.len(),
{
    assert((a + b).first() == a.first());
    if b.len() == 0 {
        assert(a + b =~= a);
        assert(a + trim_end(b) =~= a);
    } else {
        assert((a + b).last() == b.last());
        assert((a + b).drop_last() =~= a + b.drop_last());
        assert((a + b.drop_last()).first() == a.first());
        lemma_trimmed_append(a, b.drop_last());
    }
}

/// Nothing is left of a text that is whitespace throughout.
pub proof fn lemma_trimmed_blank(s: Seq<char>)
    requires
        forall|i: int| 0 <= i < s.len() ==> whitespace(#[trigger] s[i]),
    ensures
        trimmed(s).len() == 0,
{
    lemma_trim_start(s);
    if trim_start(s).len() > 0 {
        assert(whitespace(s[s.len() - trim_start(s).len()]));
    }
}

/// A sequence without `sep` is one piece.
pub proof fn lemma_split_one(s: Seq<char>, sep: char)
    requires
        !s.contains(sep),
    ensures
        split_on(s, sep) == seq![s],
    decreases s.len(),
{
    if s.len() > 0 {
        let init = s.drop_last();
        assert forall|i: int| 0 <= i < init.len() implies init[i] != sep by {
            assert(s[i] != sep);
        }
        lemma_split_one(init, sep);
        assert(s[s.len() - 1] != sep);
        assert(init.push(s.last()) =~= s);
        assert(split_on(s, sep) =~= seq![s]);
    } else {
        assert(s =~= Seq::<char>::empty());
    }
}

/// A separator followed by `b`, which holds none, adds the piece `b`.
pub proof fn lemma_split_append(a: Seq<char>, b: Seq<char>, sep: char)
    requires
        !b.contains(sep),
    ensures
        split_on(a + seq![sep] + b, sep) == split_on(a, sep).push(b),
    decreases b.len(),
{
    let s = a + seq![sep] + b;
    if b.len() == 0 {
        assert(s.drop_last() =~= a);
        assert(b =~= Seq::<char>::empty());
    } else {
        let init = b.drop_last();
        assert forall|i: int| 0 <= i < init.len() implies init[i] != sep by {
            assert(b[i] != sep);
        }
        lemma_split_append(a, init, sep);
        assert(b[b.len() - 1] != sep);
        assert(s.drop_last() =~= a + seq![sep] + init);
        assert(s.last() == b.last());
        assert(split_on(a, sep).push(init).drop_last() =~= split_on(a, sep));
        assert(init.push(b.last()) =~= b);
    }
}

/// Splitting undoes joining, where there is something to join and no part holds the separator.
pub proof fn lemma_split_join(parts: Seq<Seq<char>>, sep: char)
    requires
        parts.len() > 0,
        forall|i: int| 0 <= i < parts.len() ==> !(#[trigger] parts[i]).contains(sep),
    ensures
        split_on(join(parts, seq![sep]), sep) == parts,
    decreases parts.len(),
{
    if parts.len() == 1 {
        lemma_split_one(parts[0], sep);
        assert(parts =~= seq![parts[0]]);
    } else {
        let init = parts.drop_last();
        assert forall|i: int| 0 <= i < init.len() implies !(#[trigger] init[i]).contains(sep) by {
            assert(init[i] == parts[i]);
        }
        lemma_split_join(init, sep);
        lemma_split_append(join(init, seq![sep]), parts.last(), sep);
        assert(init.push(parts.last()) =~= parts);
    }
}

/// A join of non-empty parts begins as its first part does and ends as its last part does.
pub proof fn lemma_join_ends(parts: Seq<Seq<char>>, sep: Seq<char>)
    requires
        parts.len() > 0,
        forall|i: int| 0 <= i < parts.len() ==> (#[trigger] parts[i]).len() > 0,
    ensures
        join(parts, sep).len() > 0,
        join(parts, sep).first() == parts.first().first(),
        join(parts, sep).last() == parts.last().last(),
    decreases parts.len(),
{
    if parts.len() > 1 {
        let init = parts.drop_last();
        assert forall|i: int| 0 <= i < init.len() implies (#[trigger] init[i]).len() > 0 by {
            assert(init[i] == parts[i]);
        }
        lemma_join_ends(init, sep);
        assert(parts[parts.len() - 1].len() > 0);
    }
}

/// What occurs in one of three consecutive texts occurs in the whole of them.
pub proof fn lemma_occurs(part: Seq<char>, before: Seq<char>, middle: Seq<char>, after: Seq<char>)
    requires
        occurs(part, middle),
    ensures
        occurs(part, before + middle + after),
{
    let (from, to) = choose|from: int, to: int|
        0 <= from <= to <= middle.len() && part == #[trigger] middle.subrange(from, to);
    let whole = before + middle + after;
    assert(whole.subrange(before.len() + from, before.len() + to) =~= part);
}

/// Every text occurs in itself.
pub proof fn lemma_occurs_self(s: Seq<char>)
    ensures
        occurs(s, s),
{
    assert(s.subrange(0, s.len() as int) =~= s);
}

/// Each part occurs in the join of the parts.
pub proof fn lemma_occurs_join(parts: Seq<Seq<char>>, sep: Seq<char>, i: int)
    requires
        0 <= i < parts.len(),
    ensures
        occurs(parts[i], join(parts, sep)),
    decreases parts.len(),
{
    let empty = Seq::<char>::empty();
    lemma_occurs_self(parts[i]);
    if parts.len() > 1 {
        let init = parts.drop_last();
        if i < init.len() {
            lemma_occurs_join(init, sep, i);
            lemma_occurs(parts[i], empty, join(init, sep), sep + parts.last());
            assert(empty + join(init, sep) + (sep + parts.last()) =~= join(parts, sep));
        } else {
            lemma_occurs(parts[i], join(init, sep) + sep, parts.last(), empty);
            assert(join(init, sep) + sep + parts.last() + empty =~= join(parts, sep));
        }
    }
}

// ---------------------------------------------------------------------------
// Laws
// ---------------------------------------------------------------------------

/// The whitespace characters, by their code points.
pub proof fn law_whitespace(c: char)
    ensures
        whitespace(c) <==> {
            let n = c as int;
            ||| 9 <= n <= 13
            ||| n == 32
            ||| n == 0x85
            ||| n == 0xA0
            ||| n == 0x1680
            ||| 0x2000 <= n <= 0x200A
            ||| n == 0x2028
            ||| n == 0x2029
            ||| n == 0x202F
            ||| n == 0x205F
            ||| n == 0x3000
        },
{
}

proof fn lemma_trim_start_append(before: Seq<char>, s: Seq<char>)
    requires
        forall|i: int| 0 <= i < before.len() ==> whitespace(#[trigger] before[i]),
    ensures
        trim_start(before + s) == trim_start(s),
    decreases before.len(),
{
    if before.len() == 0 {
        assert(before + s =~= s);
    } else {
        let rest = before.drop_first();
        assert((before + s).first() == before[0]);
        assert((before + s).drop_first() =~= rest + s);
        assert forall|i: int| 0 <= i < rest.len() implies whitespace(#[trigger] rest[i]) by {
            assert(rest[i] == before[i + 1]);
        }
        lemma_trim_start_append(rest, s);
    }
}

/// Trimming takes away the whitespace before and after a text, and nothing else: a text that
/// neither begins nor ends with whitespace comes back whole from any whitespace round it.
pub proof fn law_trimmed(before: Seq<char>, core: Seq<char>, after: Seq<char>)
    requires
        forall|i: int| 0 <= i < before.len() ==> whitespace(#[trigger] before[i]),
        forall|i: int| 0 <= i < after.len() ==> whitespace(#[trigger] after[i]),
        core.len() > 0 ==> !whitespace(core.first()) && !whitespace(core.last()),
    ensures
        trimmed(before + core + after) == core,
{
    let all = before + core + after;
    if core.len() == 0 {
        assert forall|i: int| 0 <= i < all.len() implies whitespace(#[trigger] all[i]) by {
            if i < before.len() {
                assert(all[i] == before[i]);
            } else {
                assert(all[i] == after[i - before.len()]);
            }
        }
        lemma_trimmed_blank(all);
        assert(trimmed(all) =~= core);
    } else {
        assert(all =~= before + (core + after));
        lemma_trim_start_append(before, core + after);
        lemma_trimmed_append(core, after);
        lemma_trim_end(after);
        if trim_end(after).len() > 0 {
            assert(whitespace(after[trim_end(after).len() - 1]));
        }
        assert(core + trim_end(after) =~= core);
    }
}

/// Trimming a character at the end takes away its occurrences there, and nothing else.
pub proof fn law_trim_end_char(s: Seq<char>, tail: Seq<char>, c: char)
    requires
        s.len() > 0 ==> s.last() != c,
        forall|i: int| 0 <= i < tail.len() ==> #[trigger] tail[i] == c,
    ensures
        trim_end_char(s + tail, c) == s,
    decreases tail.len(),
{
    if tail.len() == 0 {
        assert(s + tail =~= s);
    } else {
        let init = tail.drop_last();
        assert((s + tail).last() == tail[tail.len() - 1]);
        assert((s + tail).drop_last() =~= s + init);
        assert forall|i: int| 0 <= i < init.len() implies #[trigger] init[i] == c by {
            assert(init[i] == tail[i]);
        }
        law_trim_end_char(s, init, c);
    }
}

/// A text has whitespace exactly where one of its characters is whitespace.
pub proof fn law_has_whitespace(a: Seq<char>, c: char, b: Seq<char>)
    ensures
        has_whitespace(a.push(c) + b) <==> has_whitespace(a) || whitespace(c) || has_whitespace(b),
        !has_whitespace(Seq::<char>::empty()),
{
    let all = a.push(c) + b;
    if has_whitespace(a) {
        let i = choose|i: int| 0 <= i < a.len() && whitespace(#[trigger] a[i]);
        assert(all[i] == a[i]);
    }
    if whitespace(c) {
        assert(all[a.len() as int] == c);
    }
    if has_whitespace(b) {
        let i = choose|i: int| 0 <= i < b.len() && whitespace(#[trigger] b[i]);
        assert(all[a.len() + 1 + i] == b[i]);
    }
    if has_whitespace(all) {
        let i = choose|i: int| 0 <= i < all.len() && whitespace(#[trigger] all[i]);
        if i < a.len() {
            assert(a[i] == all[i]);
        } else if i > a.len() {
            assert(b[i - a.len() - 1] == all[i]);
        }
    }
}

/// Optional text is present exactly where it holds more than whitespace, and then it is the text
/// without the whitespace round it.
pub proof fn law_nonblank(before: Seq<char>, core: Seq<char>, after: Seq<char>)
    requires
        forall|i: int| 0 <= i < before.len() ==> whitespace(#[trigger] before[i]),
        forall|i: int| 0 <= i < after.len() ==> whitespace(#[trigger] after[i]),
        core.len() > 0 ==> !whitespace(core.first()) && !whitespace(core.last()),
    ensures
        core.len() > 0 ==> nonblank(Some(before + core + after)) == Some(core),
        core.len() == 0 ==> nonblank(Some(before + core + after)) is None,
        nonblank(None) is None,
{
    law_trimmed(before, core, after);
}

/// The views of optional strings hold their characters.
pub proof fn law_optional_views(owned: String, borrowed: &str)
    ensures
        optional_view(Some(owned)) == Some(owned@),
        optional_view(None) is None,
        optional_str_view(Some(borrowed)) == Some(borrowed@),
        optional_str_view(None) is None,
{
}

/// The pieces of a text hold no separator, and joined with the separator they are the text again.
pub proof fn law_split(s: Seq<char>, sep: char)
    ensures
        split_on(s, sep).len() > 0,
        forall|i: int| 0 <= i < split_on(s, sep).len() ==> !(#[trigger] split_on(s, sep)[i]).contains(
            sep,
        ),
        join(split_on(s, sep), seq![sep]) == s,
    decreases s.len(),
{
    let empty = Seq::<char>::empty();
    let pieces = split_on(s, sep);
    if s.len() == 0 {
        assert(pieces =~= seq![empty]);
        assert(s =~= empty);
    } else {
        let init = split_on(s.drop_last(), sep);
        let c = s.last();
        law_split(s.drop_last(), sep);
        assert(s.drop_last().push(c) =~= s);
        if c == sep {
            assert(pieces.drop_last() =~= init);
            assert forall|i: int| 0 <= i < pieces.len() implies !(#[trigger] pieces[i]).contains(
                sep,
            ) by {
                if i < init.len() {
                    assert(pieces[i] == init[i]);
                }
            }
            assert(join(pieces, seq![sep]) =~= s);
        } else {
            let head = init.drop_last();
            let last = init.last();
            assert(init[init.len() - 1] == last);
            assert(!last.contains(sep));
            assert(pieces.drop_last() =~= head);
            assert(pieces.last() == last.push(c));
            assert forall|i: int| 0 <= i < pieces.len() implies !(#[trigger] pieces[i]).contains(
                sep,
            ) by {
                if i < head.len() {
                    assert(pieces[i] == init[i]);
                } else {
                    let piece = last.push(c);
                    assert forall|j: int| 0 <= j < piece.len() implies piece[j] != sep by {
                        if j < last.len() {
                            assert(last[j] != sep);
                        }
                    }
                }
            }
            assert(join(pieces, seq![sep]) =~= join(init, seq![sep]).push(c));
        }
    }
}

/// Joining two lists that are not empty joins each of them, with the separator between; one part
/// joins to itself, and no part to nothing.
pub proof fn law_join(a: Seq<Seq<char>>, b: Seq<Seq<char>>, sep: Seq<char>, part: Seq<char>)
    ensures
        a.len() > 0 && b.len() > 0 ==> join(a + b, sep) == join(a, sep) + sep + join(b, sep),
        join(seq![part], sep) == part,
        join(Seq::<Seq<char>>::empty(), sep) == Seq::<char>::empty(),
    decreases b.len(),
{
    if a.len() > 0 && b.len() > 0 {
        assert((a + b).drop_last() =~= a + b.drop_last());
        assert((a + b).last() == b.last());
        if b.len() == 1 {
            assert(a + b.drop_last() =~= a);
        } else {
            law_join(a, b.drop_last(), sep, part);
            assert(join(a + b, sep) =~= join(a, sep) + sep + join(b, sep));
        }
    }
}

/// The number that a sequence of decimal digits denotes.
pub open spec fn decimal_value(s: Seq<char>) -> int
    decreases s.len(),
{
    if s.len() == 0 {
        0
    } else {
        10 * decimal_value(s.drop_last()) + (s.last() as int - 48)
    }
}

/// Decimal notation denotes the number, is made of the digits from `0` to `9`, and has no leading
/// zero but for the number zero.
pub proof fn law_decimal(n: nat)
    ensures
        decimal_value(decimal(n)) == n,
        decimal(n).len() > 0,
        forall|i: int| 0 <= i < decimal(n).len() ==> '0' <= #[trigger] decimal(n)[i] <= '9',
        decimal(n).first() == '0' ==> n == 0 && decimal(n).len() == 1,
    decreases n,
{
    if n < 10 {
        let s = decimal(n);
        assert(s.drop_last() =~= Seq::<char>::empty());
        assert(decimal_value(s.drop_last()) == 0);
    } else {
        law_decimal(n / 10);
        let s = decimal(n);
        assert(s.drop_last() =~= decimal(n / 10));
        assert forall|i: int| 0 <= i < s.len() implies '0' <= #[trigger] s[i] <= '9' by {
            if i < decimal(n / 10).len() {
                assert(s[i] == decimal(n / 10)[i]);
            }
        }
        assert(s.first() == decimal(n / 10).first());
    }
}

/// A text that is longer than allowed is cut behind the allowed number of characters, where the
/// suffix then stands; any other is kept whole.
pub proof fn law_truncated(head: Seq<char>, rest: Seq<char>, suffix: Seq<char>, max_chars: nat)
    ensures
        rest.len() > 0 ==> truncated(head + rest, head.len(), suffix) == head + suffix,
        head.len() <= max_chars ==> truncated(head, max_chars, suffix) == head,
{
    assert((head + rest).take(head.len() as int) =~= head);
}

/// The views of strings hold the characters of each, in order.
pub proof fn law_views(strings: Seq<String>, strs: Seq<&str>)
    ensures
        views(strings).len() == strings.len(),
        forall|i: int| 0 <= i < strings.len() ==> #[trigger] views(strings)[i] == strings[i]@,
        str_views(strs).len() == strs.len(),
        forall|i: int| 0 <= i < strs.len() ==> #[trigger] str_views(strs)[i] == strs[i]@,
{
}

} // verus!
