//! Line geometry of displayed text: how many lines it has and how wide the
//! widest one is, measured in bytes of its UTF-8 encoding.
//!
//! A line ends at a line feed or at the end of the text. The line feed is not part of
//! the line, and neither is a carriage return that stands directly before it. A final
//! line feed does not open another, empty line.
use vstd::prelude::*;
use vstd::string::StringSliceAdditionalSpecFns;

verus! {

/// The byte that ends a line.
pub const LINE_FEED: u8 = 0x0A;

/// The byte that is dropped from the end of a line when a line feed follows it.
pub const CARRIAGE_RETURN: u8 = 0x0D;

/// A line begins at `i`: at the start of the text or right after a line feed, with
/// at least one byte of text left.
pub open spec fn starts_line(s: Seq<u8>, i: int) -> bool {
    0 <= i < s.len() && (i == 0 || s[i - 1] == LINE_FEED)
}

/// The number of lines that begin before position `n`.
pub open spec fn lines_before(s: Seq<u8>, n: int) -> nat
    decreases n,
{
    if n <= 0 {
        0
    } else {
        lines_before(s, n - 1) + if starts_line(s, n - 1) {
            1nat
        } else {
            0nat
        }
    }
}

/// The number of lines of `s`.
pub open spec fn line_count(s: Seq<u8>) -> nat {
    lines_before(s, s.len() as int)
}

/// The width of the line that occupies `start..end`, where `end` is the position of
/// its line feed or the end of the text.
pub open spec fn line_width(s: Seq<u8>, start: int, end: int) -> nat {
    if start < end < s.len() && s[end - 1] == CARRIAGE_RETURN {
        (end - start - 1) as nat
    } else if start <= end {
        (end - start) as nat
    } else {
        0
    }
}

/// The width of the widest line among the one that begins at `start` and has no line
/// feed before `pos`, and all the lines after it.
pub open spec fn widest_from(s: Seq<u8>, start: int, pos: int) -> nat
    decreases s.len() - pos,
{
    if pos >= s.len() {
        line_width(s, start, s.len() as int)
    } else if s[pos] == LINE_FEED {
        let here = line_width(s, start, pos);
        let rest = widest_from(s, pos + 1, pos + 1);
        if here >= rest {
            here
        } else {
            rest
        }
    } else {
        widest_from(s, start, pos + 1)
    }
}

/// The width of the widest line of `s`; 0 for text without lines.
pub open spec fn max_line_width(s: Seq<u8>) -> nat {
    widest_from(s, 0, 0)
}

/// `start..end` is one whole line of `s`: it begins at a line start, holds no line
/// feed, and ends at a line feed or at the end of the text.
pub open spec fn is_line(s: Seq<u8>, start: int, end: int) -> bool {
    &&& 0 <= start <= end <= s.len()
    &&& start == 0 || s[start - 1] == LINE_FEED
    &&& forall|k: int| start <= k < end ==> s[k] != LINE_FEED
    &&& if end == s.len() {
        start < end
    } else {
        s[end] == LINE_FEED
    }
}

/// Line count and widest line of a text.
#[derive(Clone, Copy, Debug, PartialEq, Eq, Structural)]
pub struct TextExtent {
    pub lines: usize,
    pub width: usize,
}

/// Measures `text`.
pub fn measure(text: &str) -> (extent: TextExtent)
    ensures
        extent.lines == line_count(text.spec_bytes()),
        extent.width == max_line_width(text.spec_bytes()),
{
    let bytes = text.as_bytes();
    let n: usize = bytes.len();
    let mut lines: usize = 0;
    let mut widest: usize = 0;
    let mut start: usize = 0;
    let mut pos: usize = 0;
    while pos < n
        invariant
            n == bytes@.len(),
            start <= pos <= n,
            lines == lines_before(bytes@, pos as int),
            lines <= pos,
            widest <= n,
            start == 0 || bytes@[start - 1] == LINE_FEED,
            forall|k: int| start <= k < pos ==> bytes@[k] != LINE_FEED,
            max_line_width(bytes@) == if widest >= widest_from(bytes@, start as int, pos as int) {
                widest as nat
            } else {
                widest_from(bytes@, start as int, pos as int)
            },
        decreases n - pos,
    {
        if pos == start {
            lines = lines + 1;
        }
        if bytes[pos] == LINE_FEED {
            let width: usize = if start < pos && bytes[pos - 1] == CARRIAGE_RETURN {
                pos - start - 1
            } else {
                pos - start
            };
            if width > widest {
                widest = width;
            }
            start = pos + 1;
        }
        pos = pos + 1;
    }
    let tail: usize = n - start;
    if tail > widest {
        widest = tail;
    }
    TextExtent { lines, width: widest }
}

/// `start..pos` holds no line feed and begins where a line can begin.
spec fn scanning(s: Seq<u8>, start: int, pos: int) -> bool {
    &&& 0 <= start <= pos <= s.len()
    &&& start == 0 || s[start - 1] == LINE_FEED
    &&& forall|k: int| start <= k < pos ==> s[k] != LINE_FEED
}

proof fn lemma_widest_from_bounds(s: Seq<u8>, start: int, pos: int, a: int, b: int)
    requires
        scanning(s, start, pos),
        is_line(s, a, b),
        start <= a,
    ensures
        line_width(s, a, b) <= widest_from(s, start, pos),
    decreases s.len() - pos,
{
    if pos >= s.len() {
        assert(a == start) by {
            if a > start {
                assert(s[a - 1] != LINE_FEED);
            }
        }
        assert(b == s.len()) by {
            if b < s.len() {
                assert(s[b] != LINE_FEED);
            }
        }
    } else if s[pos] == LINE_FEED {
        if a == start {
            assert(b == pos) by {
                if b < pos {
                    assert(s[b] != LINE_FEED);
                }
            }
        } else {
            assert(a >= pos + 1) by {
                if a - 1 < pos {
                    assert(s[a - 1] != LINE_FEED);
                }
            }
            lemma_widest_from_bounds(s, pos + 1, pos + 1, a, b);
        }
    } else {
        lemma_widest_from_bounds(s, start, pos + 1, a, b);
    }
}

proof fn lemma_widest_from_attained(s: Seq<u8>, start: int, pos: int) -> (line: (int, int))
    requires
        scanning(s, start, pos),
    ensures
        widest_from(s, start, pos) == 0 || (is_line(s, line.0, line.1) && line_width(
            s,
            line.0,
            line.1,
        ) == widest_from(s, start, pos)),
    decreases s.len() - pos,
{
    if pos >= s.len() {
        (start, pos)
    } else if s[pos] == LINE_FEED {
        let rest = lemma_widest_from_attained(s, pos + 1, pos + 1);
        if line_width(s, start, pos) >= widest_from(s, pos + 1, pos + 1) {
            (start, pos)
        } else {
            rest
        }
    } else {
        lemma_widest_from_attained(s, start, pos + 1)
    }
}

/// No line is wider than the widest.
pub proof fn lemma_max_line_width_bounds(s: Seq<u8>, start: int, end: int)
    requires
        is_line(s, start, end),
    ensures
        line_width(s, start, end) <= max_line_width(s),
{
    lemma_widest_from_bounds(s, 0, 0, start, end);
}

/// The widest width is 0 or the width of one of the lines.
pub proof fn lemma_max_line_width_attained(s: Seq<u8>)
    ensures
        max_line_width(s) == 0 || exists|start: int, end: int|
            is_line(s, start, end) && line_width(s, start, end) == max_line_width(s),
{
    let line = lemma_widest_from_attained(s, 0, 0);
    if max_line_width(s) != 0 {
        assert(is_line(s, line.0, line.1) && line_width(s, line.0, line.1) == max_line_width(s));
    }
}

/// A text has no more lines than bytes, and no lines exactly when it is empty.
pub proof fn lemma_line_count_bounds(s: Seq<u8>)
    ensures
        line_count(s) <= s.len(),
        line_count(s) == 0 <==> s.len() == 0,
{
    lemma_lines_before_bounds(s, s.len() as int);
}

proof fn lemma_lines_before_bounds(s: Seq<u8>, n: int)
    requires
        0 <= n <= s.len(),
    ensures
        lines_before(s, n) <= n,
        lines_before(s, n) == 0 <==> n == 0,
    decreases n,
{
    if n > 0 {
        lemma_lines_before_bounds(s, n - 1);
        if n == 1 {
            assert(starts_line(s, 0));
        }
    }
}

/// The final line feed is optional: appended to a text that does not end in one, a
/// line feed opens no further line.
pub proof fn lemma_final_line_feed_is_optional(s: Seq<u8>)
    requires
        s.len() > 0,
        s.last() != LINE_FEED,
    ensures
        line_count(s.push(LINE_FEED)) == line_count(s),
{
    let t = s.push(LINE_FEED);
    lemma_lines_before_prefix(s, t, s.len() as int);
    assert(!starts_line(t, s.len() as int));
}

proof fn lemma_lines_before_prefix(s: Seq<u8>, t: Seq<u8>, n: int)
    requires
        0 <= n <= s.len() <= t.len(),
        forall|k: int| 0 <= k < s.len() ==> s[k] == t[k],
    ensures
        lines_before(s, n) == lines_before(t, n),
    decreases n,
{
    if n > 0 {
        lemma_lines_before_prefix(s, t, n - 1);
    }
}

} // verus!
