//! Inferring a document's title from its first level-one heading.

use vstd::prelude::*;

verus! {

/// Whether `c` has the Unicode `White_Space` property (the set that
/// `char::is_whitespace` and `str::trim` go by).
pub open spec fn is_white_space(c: char) -> bool {
    let u = c as u32;
    (0x9 <= u <= 0xd) || u == 0x20 || u == 0x85 || u == 0xa0 || u == 0x1680
        || (0x2000 <= u <= 0x200a) || u == 0x2028 || u == 0x2029 || u == 0x202f
        || u == 0x205f || u == 0x3000
}

/// Whether `t` is empty once trimmed.
pub open spec fn is_blank(t: Seq<char>) -> bool {
    forall|j: int| 0 <= j < t.len() ==> is_white_space(#[trigger] t[j])
}

/// Position of the first line feed in `s`, or `s.len()` when there is none.
pub open spec fn line_feed_index(s: Seq<char>) -> nat
    decreases s.len(),
{
    if s.len() == 0 || s[0] == '\n' {
        0
    } else {
        1 + line_feed_index(s.drop_first())
    }
}

/// A line that a line feed ended, without the carriage return before it.
pub open spec fn without_cr(line: Seq<char>) -> Seq<char> {
    if line.len() > 0 && line.last() == '\r' {
        line.drop_last()
    } else {
        line
    }
}

/// The lines of `s` as `str::lines` yields them: split at each `\n`, a
/// `\r` before the `\n` dropped, and no empty line after a final `\n`.
pub open spec fn lines_of(s: Seq<char>) -> Seq<Seq<char>>
    decreases s.len(),
{
    if s.len() == 0 {
        seq![]
    } else {
        let k = line_feed_index(s) as int;
        if k < s.len() {
            seq![without_cr(s.take(k))] + lines_of(s.skip(k + 1))
        } else {
            seq![s]
        }
    }
}

/// The title that a single line gives: what follows a leading `"# "`,
/// provided it is not blank.
pub open spec fn heading_of(line: Seq<char>) -> Option<Seq<char>> {
    if line.len() >= 2 && line[0] == '#' && line[1] == ' ' && !is_blank(line.skip(2)) {
        Some(line.skip(2))
    } else {
        None
    }
}

/// The title of the first line, in order, that gives one.
pub open spec fn first_heading(lines: Seq<Seq<char>>) -> Option<Seq<char>>
    decreases lines.len(),
{
    if lines.len() == 0 {
        None
    } else {
        match heading_of(lines[0]) {
            Some(t) => Some(t),
            None => first_heading(lines.drop_first()),
        }
    }
}

/// The title inferred from a document's text.
pub open spec fn title_of(s: Seq<char>) -> Option<Seq<char>> {
    first_heading(lines_of(s))
}

/// The value of an optional string.
pub open spec fn opt_view(o: Option<String>) -> Option<Seq<char>> {
    match o {
        Some(t) => Some(t@),
        None => None,
    }
}

/// Executable test of the `White_Space` property.
pub fn is_white_space_char(c: char) -> (r: bool)
    ensures
        r == is_white_space(c),
{
    let u = c as u32;
    (0x9 <= u && u <= 0xd) || u == 0x20 || u == 0x85 || u == 0xa0 || u == 0x1680
        || (0x2000 <= u && u <= 0x200a) || u == 0x2028 || u == 0x2029 || u == 0x202f
        || u == 0x205f || u == 0x3000
}

fn chars_of(s: &str) -> (r: Vec<char>)
    ensures
        r@ == s@,
{
    let mut v: Vec<char> = Vec::new();
    for c in it: s.chars()
        invariant
            v@ == it.seq().take(it.index() as int),
    {
        v.push(c);
    }
    v
}

proof fn lemma_line_feed_index(s: Seq<char>, m: int)
    requires
        0 <= m <= s.len(),
        forall|k: int| 0 <= k < m ==> s[k] != '\n',
        m == s.len() || s[m] == '\n',
    ensures
        line_feed_index(s) == m,
    decreases m,
{
    if m > 0 {
        lemma_line_feed_index(s.drop_first(), m - 1);
    }
}

/// The title that the line `chars[start..end]` gives.
fn heading_in(input: &str, chars: &Vec<char>, start: usize, end: usize) -> (r: Option<String>)
    requires
        chars@ == input@,
        start <= end <= chars.len(),
    ensures
        opt_view(r) == heading_of(input@.subrange(start as int, end as int)),
{
    let ghost line = input@.subrange(start as int, end as int);
    if end - start >= 2 && chars[start] == '#' && chars[start + 1] == ' ' {
        let mut j: usize = start + 2;
        while j < end
            invariant
                chars@ == input@,
                start + 2 <= j <= end <= chars.len(),
                line == input@.subrange(start as int, end as int),
                line.len() >= 2 && line[0] == '#' && line[1] == ' ',
                forall|k: int| start + 2 <= k < j ==> is_white_space(#[trigger] input@[k]),
            decreases end - j,
        {
            if !is_white_space_char(chars[j]) {
                assert(line.skip(2)[j - start - 2] == input@[j as int]);
                assert(!is_blank(line.skip(2)));
                let t = input.substring_char(start + 2, end);
                assert(t@ =~= line.skip(2));
                return Some(t.to_owned());
            }
            j += 1;
        }
        assert forall|k: int| 0 <= k < line.skip(2).len() implies is_white_space(
            #[trigger] line.skip(2)[k],
        ) by {
            assert(line.skip(2)[k] == input@[start + 2 + k]);
        }
        None
    } else {
        None
    }
}

/// The title of a document: the text after `"# "` on the first line that
/// starts so and has more than white space after it; `None` when no line
/// does. Later headings, and lines such as `"#"`, `"#text"` or `"##  x"`,
/// are passed over.
pub fn title_from_content(input: &str) -> (r: Option<String>)
    ensures
        opt_view(r) == title_of(input@),
{
    let chars = chars_of(input);
    let n = chars.len();
    let ghost s = input@;
    let mut start: usize = 0;
    let mut i: usize = 0;
    assert(s.skip(0) =~= s);
    while i < n
        invariant
            chars@ == s,
            s == input@,
            n == s.len(),
            start <= i <= n,
            forall|k: int| start <= k < i ==> s[k] != '\n',
            title_of(s) == first_heading(lines_of(s.skip(start as int))),
        decreases n - i,
    {
        if chars[i] == '\n' {
            let ghost rest = s.skip(start as int);
            proof {
                lemma_line_feed_index(rest, i - start);
                assert(rest.skip(i - start + 1) =~= s.skip(i + 1));
                assert(rest.take(i - start) =~= s.subrange(start as int, i as int));
                let ls = lines_of(rest);
                assert(ls.drop_first() =~= lines_of(s.skip(i + 1)));
            }
            let end = if i > start && chars[i - 1] == '\r' {
                i - 1
            } else {
                i
            };
            assert(s.subrange(start as int, end as int) =~= without_cr(
                s.subrange(start as int, i as int),
            ));
            let found = heading_in(input, &chars, start, end);
            if found.is_some() {
                return found;
            }
            start = i + 1;
        }
        i += 1;
    }
    if start < n {
        proof {
            let rest = s.skip(start as int);
            lemma_line_feed_index(rest, n - start);
            assert(rest =~= s.subrange(start as int, n as int));
            assert(lines_of(rest) =~= seq![s.subrange(start as int, n as int)]);
            assert(lines_of(rest).drop_first() =~= Seq::<Seq<char>>::empty());
            assert(first_heading(Seq::<Seq<char>>::empty()) is None);
        }
        heading_in(input, &chars, start, n)
    } else {
        assert(s.skip(start as int) =~= Seq::<char>::empty());
        assert(lines_of(s.skip(start as int)) =~= Seq::<Seq<char>>::empty());
        None
    }
}

} // verus!
