//! Lines, fields and white space, stated over sequences of characters.

use vstd::prelude::*;

verus! {

/// The characters that Unicode counts as white space.
pub open spec fn is_space(c: char) -> bool {
    let code = c as u32;
    ||| 0x09 <= code <= 0x0D
    ||| code == 0x20
    ||| code == 0x85
    ||| code == 0xA0
    ||| code == 0x1680
    ||| 0x2000 <= code <= 0x200A
    ||| code == 0x2028
    ||| code == 0x2029
    ||| code == 0x202F
    ||| code == 0x205F
    ||| code == 0x3000
}

/// The first position at or after `from` that holds `c`, or the length of
/// `s` where there is none.
pub open spec fn position_of(s: Seq<char>, c: char, from: int) -> int
    decreases s.len() - from,
{
    if from >= s.len() {
        s.len() as int
    } else if s[from] == c {
        from
    } else {
        position_of(s, c, from + 1)
    }
}

/// The first position at or after `from` that holds no white space, or the
/// length of `s` where there is none.
pub open spec fn skip_spaces(s: Seq<char>, from: int) -> int
    decreases s.len() - from,
{
    if from >= s.len() {
        s.len() as int
    } else if !is_space(s[from]) {
        from
    } else {
        skip_spaces(s, from + 1)
    }
}

/// The end of the last run of characters before `to` that does not end in
/// white space: the position after the last character that is no white
/// space, or 0 where there is none.
pub open spec fn drop_spaces(s: Seq<char>, to: int) -> int
    decreases to,
{
    if to <= 0 {
        0
    } else if !is_space(s[to - 1]) {
        to
    } else {
        drop_spaces(s, to - 1)
    }
}

/// `s` without the white space at its two ends.
pub open spec fn trimmed(s: Seq<char>) -> Seq<char> {
    let start = skip_spaces(s, 0);
    let end = drop_spaces(s, s.len() as int);
    if start < end {
        s.subrange(start, end)
    } else {
        Seq::empty()
    }
}

/// The first line of `s`, without its line ending: a line feed, or a
/// carriage return and a line feed. An empty text has no line.
pub open spec fn first_line_of(s: Seq<char>) -> Option<Seq<char>> {
    let feed = position_of(s, '\n', 0);
    if s.len() == 0 {
        None
    } else if 0 < feed < s.len() && s[feed - 1] == '\r' {
        Some(s.subrange(0, feed - 1))
    } else {
        Some(s.subrange(0, feed))
    }
}

/// Whether `c` is white space.
pub fn is_whitespace(c: char) -> (space: bool)
    ensures
        space == is_space(c),
{
    let code: u32 = c as u32;
    (0x09 <= code && code <= 0x0D) || code == 0x20 || code == 0x85 || code == 0xA0
        || code == 0x1680 || (0x2000 <= code && code <= 0x200A) || code == 0x2028
        || code == 0x2029 || code == 0x202F || code == 0x205F || code == 0x3000
}

/// The first position at or after `from` that holds `c`, or the length of
/// `s` in characters.
pub fn find_char(s: &str, c: char, from: usize) -> (at: usize)
    ensures
        at == position_of(s@, c, from as int),
        from <= s@.len() ==> from <= at <= s@.len(),
        at < s@.len() ==> s@[at as int] == c,
        forall|k: int| from <= k < at ==> s@[k] != c,
{
    let len: usize = s.unicode_len();
    if from >= len {
        return len;
    }
    let mut i: usize = from;
    while i < len && s.get_char(i) != c
        invariant
            from <= i <= len,
            len == s@.len(),
            position_of(s@, c, from as int) == position_of(s@, c, i as int),
            forall|k: int| from <= k < i ==> s@[k] != c,
        decreases len - i,
    {
        i += 1;
    }
    i
}

/// `s` without the white space at its two ends.
pub fn trim<'a>(s: &'a str) -> (inner: &'a str)
    ensures
        inner@ == trimmed(s@),
{
    let len: usize = s.unicode_len();
    let mut start: usize = 0;
    while start < len && is_whitespace(s.get_char(start))
        invariant
            start <= len,
            len == s@.len(),
            skip_spaces(s@, 0) == skip_spaces(s@, start as int),
        decreases len - start,
    {
        start += 1;
    }
    let mut end: usize = len;
    while end > 0 && is_whitespace(s.get_char(end - 1))
        invariant
            end <= len,
            len == s@.len(),
            drop_spaces(s@, len as int) == drop_spaces(s@, end as int),
        decreases end,
    {
        end -= 1;
    }
    if start < end {
        s.substring_char(start, end)
    } else {
        s.substring_char(0, 0)
    }
}

/// The first line of `text`, without its line ending; `None` for an empty text.
pub fn first_line<'a>(text: &'a str) -> (line: Option<&'a str>)
    ensures
        line is Some <==> first_line_of(text@) is Some,
        line matches Some(l) ==> first_line_of(text@) == Some(l@),
{
    let len: usize = text.unicode_len();
    if len == 0 {
        return None;
    }
    let feed: usize = find_char(text, '\n', 0);
    if 0 < feed && feed < len && text.get_char(feed - 1) == '\r' {
        Some(text.substring_char(0, feed - 1))
    } else {
        Some(text.substring_char(0, feed))
    }
}

/// Whether two texts hold the same characters.
pub fn same_text(left: &str, right: &str) -> (same: bool)
    ensures
        same == (left@ == right@),
{
    let len: usize = left.unicode_len();
    if right.unicode_len() != len {
        return false;
    }
    let mut i: usize = 0;
    while i < len
        invariant
            i <= len,
            len == left@.len(),
            len == right@.len(),
            forall|k: int| 0 <= k < i ==> left@[k] == right@[k],
        decreases len - i,
    {
        if left.get_char(i) != right.get_char(i) {
            return false;
        }
        i += 1;
    }
    assert(left@ =~= right@);
    true
}

/// `skip_spaces` passes white space only and stops before anything else.
proof fn skip_spaces_stops_at_first_other(s: Seq<char>, from: int)
    requires
        0 <= from <= s.len(),
    ensures
        from <= skip_spaces(s, from) <= s.len(),
        forall|i: int| from <= i < skip_spaces(s, from) ==> is_space(s[i]),
        skip_spaces(s, from) < s.len() ==> !is_space(s[skip_spaces(s, from)]),
    decreases s.len() - from,
{
    if from < s.len() && is_space(s[from]) {
        skip_spaces_stops_at_first_other(s, from + 1);
    }
}

/// `drop_spaces` passes white space only and stops behind anything else.
proof fn drop_spaces_stops_at_last_other(s: Seq<char>, to: int)
    requires
        0 <= to <= s.len(),
    ensures
        0 <= drop_spaces(s, to) <= to,
        forall|i: int| drop_spaces(s, to) <= i < to ==> is_space(s[i]),
        drop_spaces(s, to) > 0 ==> !is_space(s[drop_spaces(s, to) - 1]),
    decreases to,
{
    if to > 0 && is_space(s[to - 1]) {
        drop_spaces_stops_at_last_other(s, to - 1);
    }
}

/// What trimming leaves is the stretch of `s` from its first character
/// that is no white space to its last: nothing but white space is taken
/// off, and nothing is left where `s` holds white space only.
pub proof fn trimmed_is_the_inner_part(s: Seq<char>)
    ensures
        trimmed(s).len() == 0 <==> forall|i: int| 0 <= i < s.len() ==> is_space(s[i]),
        trimmed(s).len() > 0 ==> {
            let start = skip_spaces(s, 0);
            let end = start + trimmed(s).len();
            &&& 0 <= start < end <= s.len()
            &&& trimmed(s) == s.subrange(start, end)
            &&& !is_space(trimmed(s).first())
            &&& !is_space(trimmed(s).last())
            &&& forall|i: int| 0 <= i < start ==> is_space(s[i])
            &&& forall|i: int| end <= i < s.len() ==> is_space(s[i])
        },
{
    skip_spaces_stops_at_first_other(s, 0);
    drop_spaces_stops_at_last_other(s, s.len() as int);
    let start = skip_spaces(s, 0);
    let end = drop_spaces(s, s.len() as int);
    if start < end {
        assert(trimmed(s).first() == s[start]);
        assert(trimmed(s).last() == s[end - 1]);
        assert(!is_space(s[start]));
    } else {
        assert forall|i: int| 0 <= i < s.len() implies is_space(s[i]) by {
            if i < start {
            } else {
                assert(end <= i);
            }
        }
    }
}

/// The position that `position_of` gives holds `c`, unless it is the
/// length of `s`, and no position from `from` up to it does.
pub proof fn position_of_is_the_first(s: Seq<char>, c: char, from: int)
    requires
        0 <= from <= s.len(),
    ensures
        from <= position_of(s, c, from) <= s.len(),
        position_of(s, c, from) < s.len() ==> s[position_of(s, c, from)] == c,
        forall|i: int| from <= i < position_of(s, c, from) ==> s[i] != c,
    decreases s.len() - from,
{
    if from < s.len() && s[from] != c {
        position_of_is_the_first(s, c, from + 1);
    }
}

} // verus!
