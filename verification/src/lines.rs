//! Splitting captured bytes into lines.
//!
//! A line ends at a line feed, or at a carriage return directly followed by a
//! line feed; neither belongs to the line. The last line needs no terminator,
//! and a terminator at the very end opens no further, empty line. A carriage
//! return that no line feed follows is an ordinary byte.

use vstd::prelude::*;

verus! {

/// The line feed byte.
pub const LF: u8 = 10;

/// The carriage return byte.
pub const CR: u8 = 13;

/// Number of bytes before the first line feed; the length of `bytes` if it
/// holds none.
pub open spec fn first_newline(bytes: Seq<u8>) -> nat
    decreases bytes.len(),
{
    if bytes.len() == 0 || bytes[0] == LF {
        0
    } else {
        1 + first_newline(bytes.skip(1))
    }
}

/// A terminated line without the carriage return that belonged to its
/// terminator.
pub open spec fn without_cr(line: Seq<u8>) -> Seq<u8> {
    if line.len() > 0 && line.last() == CR {
        line.drop_last()
    } else {
        line
    }
}

/// The lines of `bytes`, in order.
pub open spec fn lines_of(bytes: Seq<u8>) -> Seq<Seq<u8>>
    decreases bytes.len(),
{
    let n: int = first_newline(bytes) as int;
    if bytes.len() == 0 {
        Seq::empty()
    } else if n >= bytes.len() {
        seq![bytes]
    } else {
        seq![without_cr(bytes.take(n))] + lines_of(bytes.skip(n + 1))
    }
}

/// Number of line feeds in `bytes`.
pub open spec fn newline_count(bytes: Seq<u8>) -> nat
    decreases bytes.len(),
{
    if bytes.len() == 0 {
        0
    } else if bytes[0] == LF {
        1 + newline_count(bytes.skip(1))
    } else {
        newline_count(bytes.skip(1))
    }
}

/// Number of lines that `bytes` holds: one for each line feed, and one more
/// for bytes that follow the last line feed.
pub open spec fn line_count(bytes: Seq<u8>) -> nat {
    if bytes.len() > 0 && bytes.last() != LF {
        newline_count(bytes) + 1
    } else {
        newline_count(bytes)
    }
}

/// The views of a vector of lines.
pub open spec fn line_views(lines: Seq<Vec<u8>>) -> Seq<Seq<u8>> {
    lines.map_values(|line: Vec<u8>| line@)
}

/// `first_newline` is the one position at or before the end that no line feed
/// precedes and that either is the end or holds a line feed.
pub proof fn lemma_first_newline(bytes: Seq<u8>, n: int)
    requires
        0 <= n <= bytes.len(),
        forall|k: int| 0 <= k < n ==> bytes[k] != LF,
        n < bytes.len() ==> bytes[n] == LF,
    ensures
        first_newline(bytes) == n,
    decreases bytes.len(),
{
    if n > 0 {
        let rest = bytes.skip(1);
        assert forall|k: int| 0 <= k < n - 1 implies rest[k] != LF by {
            assert(rest[k] == bytes[k + 1]);
        }
        lemma_first_newline(rest, n - 1);
    }
}

/// No line feed precedes `first_newline`, which lies within `bytes` or at its
/// end, and holds a line feed where it lies within.
pub proof fn lemma_first_newline_is_first(bytes: Seq<u8>)
    ensures
        first_newline(bytes) <= bytes.len(),
        forall|k: int| 0 <= k < first_newline(bytes) ==> bytes[k] != LF,
        first_newline(bytes) < bytes.len() ==> bytes[first_newline(bytes) as int] == LF,
    decreases bytes.len(),
{
    if bytes.len() > 0 && bytes[0] != LF {
        let rest = bytes.skip(1);
        lemma_first_newline_is_first(rest);
        assert forall|k: int| 0 <= k < first_newline(bytes) implies bytes[k] != LF by {
            if k > 0 {
                assert(bytes[k] == rest[k - 1]);
            }
        }
        assert(first_newline(rest) < rest.len() ==> rest[first_newline(rest) as int]
            == bytes[first_newline(bytes) as int]);
    }
}

/// The line feeds of `bytes` are the first one and those that follow it.
proof fn lemma_newline_count_after_first(bytes: Seq<u8>)
    requires
        first_newline(bytes) < bytes.len(),
    ensures
        newline_count(bytes) == 1 + newline_count(bytes.skip(first_newline(bytes) as int + 1)),
    decreases bytes.len(),
{
    if bytes[0] != LF {
        let rest = bytes.skip(1);
        lemma_newline_count_after_first(rest);
        assert(rest.skip(first_newline(rest) as int + 1) == bytes.skip(
            first_newline(bytes) as int + 1,
        ));
    }
}

/// Bytes without a line feed before their end count none.
proof fn lemma_newline_count_without_newline(bytes: Seq<u8>)
    requires
        first_newline(bytes) >= bytes.len(),
    ensures
        newline_count(bytes) == 0,
    decreases bytes.len(),
{
    if bytes.len() > 0 {
        lemma_newline_count_without_newline(bytes.skip(1));
    }
}

/// Splitting yields as many lines as the bytes hold: one for each line feed,
/// and one more where bytes follow the last line feed. A terminator at the
/// very end opens no further line.
pub proof fn lemma_line_count(bytes: Seq<u8>)
    ensures
        lines_of(bytes).len() == line_count(bytes),
    decreases bytes.len(),
{
    let n: int = first_newline(bytes) as int;
    lemma_first_newline_is_first(bytes);
    if bytes.len() == 0 {
    } else if n >= bytes.len() {
        lemma_newline_count_without_newline(bytes);
    } else {
        let rest = bytes.skip(n + 1);
        lemma_line_count(rest);
        lemma_newline_count_after_first(bytes);
        if rest.len() > 0 {
            assert(rest.last() == bytes.last());
        }
    }
}

/// Appending a line feed to `bytes` adds one to its line feeds.
proof fn lemma_newline_count_push(bytes: Seq<u8>)
    ensures
        newline_count(bytes.push(LF)) == newline_count(bytes) + 1,
    decreases bytes.len(),
{
    let longer = bytes.push(LF);
    if bytes.len() == 0 {
        assert(longer[0] == LF);
        assert(newline_count(longer.skip(1)) == 0);
    } else {
        lemma_newline_count_push(bytes.skip(1));
        assert(longer[0] == bytes[0]);
        assert(longer.skip(1) == bytes.skip(1).push(LF));
    }
}

/// A final terminator is optional: bytes that end in an unterminated line
/// hold as many lines with a line feed appended as without.
pub proof fn lemma_final_terminator_adds_no_line(bytes: Seq<u8>)
    requires
        bytes.len() > 0,
        bytes.last() != LF,
    ensures
        lines_of(bytes.push(LF)).len() == lines_of(bytes).len(),
{
    lemma_line_count(bytes);
    lemma_line_count(bytes.push(LF));
    lemma_newline_count_push(bytes);
}

/// A final terminator is optional: bytes that end in an unterminated line
/// which no carriage return ends split alike with a line feed appended and
/// without. (A carriage return there would join the appended line feed as its
/// terminator, and leave the line.)
pub proof fn lemma_final_terminator_keeps_lines(bytes: Seq<u8>)
    requires
        bytes.len() > 0,
        bytes.last() != LF,
        bytes.last() != CR,
    ensures
        lines_of(bytes.push(LF)) == lines_of(bytes),
    decreases bytes.len(),
{
    let n: int = first_newline(bytes) as int;
    let longer = bytes.push(LF);
    lemma_first_newline_is_first(bytes);
    assert forall|k: int| 0 <= k < n implies longer[k] != LF by {
        assert(longer[k] == bytes[k]);
    }
    lemma_first_newline(longer, n);
    assert(longer.take(n) == bytes.take(n));
    if n >= bytes.len() {
        assert(bytes.take(n) == bytes);
        assert(without_cr(bytes) == bytes);
        assert(longer.skip(n + 1).len() == 0);
        assert(lines_of(longer.skip(n + 1)) == Seq::<Seq<u8>>::empty());
        assert(lines_of(longer) == seq![bytes] + Seq::<Seq<u8>>::empty());
    } else {
        let rest = bytes.skip(n + 1);
        assert(rest.len() > 0);
        assert(rest.last() == bytes.last());
        assert(longer.skip(n + 1) == rest.push(LF));
        lemma_final_terminator_keeps_lines(rest);
    }
}

/// No line holds a line feed.
pub proof fn lemma_lines_hold_no_newline(bytes: Seq<u8>)
    ensures
        forall|i: int, k: int|
            0 <= i < lines_of(bytes).len() && 0 <= k < lines_of(bytes)[i].len() ==> (
            #[trigger] lines_of(bytes)[i][k]) != LF,
    decreases bytes.len(),
{
    let n: int = first_newline(bytes) as int;
    let lines = lines_of(bytes);
    lemma_first_newline_is_first(bytes);
    if bytes.len() > 0 && n < bytes.len() {
        let rest = bytes.skip(n + 1);
        let head = without_cr(bytes.take(n));
        lemma_lines_hold_no_newline(rest);
        assert forall|i: int, k: int| 0 <= i < lines.len() && 0 <= k < lines[i].len() implies (
        #[trigger] lines[i][k]) != LF by {
            if i == 0 {
                assert(lines[0] == head);
                assert(head[k] == bytes[k]);
            } else {
                assert(lines[i] == lines_of(rest)[i - 1]);
            }
        }
    }
}

/// Copies `bytes[from..to]` into a vector of its own.
fn copy_range(bytes: &[u8], from: usize, to: usize) -> (line: Vec<u8>)
    requires
        from <= to <= bytes@.len(),
    ensures
        line@ == bytes@.subrange(from as int, to as int),
{
    let mut line: Vec<u8> = Vec::new();
    let mut i: usize = from;
    while i < to
        invariant
            from <= i <= to <= bytes@.len(),
            line@ == bytes@.subrange(from as int, i as int),
        decreases to - i,
    {
        line.push(bytes[i]);
        i += 1;
    }
    line
}

/// Splits `bytes` into its lines.
pub fn split_lines(bytes: &[u8]) -> (lines: Vec<Vec<u8>>)
    ensures
        line_views(lines@) == lines_of(bytes@),
{
    let len: usize = bytes.len();
    let mut lines: Vec<Vec<u8>> = Vec::new();
    let mut start: usize = 0;
    let mut i: usize = 0;
    assert(bytes@.skip(0) == bytes@);
    assert(line_views(lines@) + lines_of(bytes@) == lines_of(bytes@));
    while i < len
        invariant
            len == bytes@.len(),
            start <= i <= len,
            forall|k: int| start <= k < i ==> bytes@[k] != LF,
            line_views(lines@) + lines_of(bytes@.skip(start as int)) == lines_of(bytes@),
        decreases len - i,
    {
        if bytes[i] == LF {
            let end: usize = if i > start && bytes[i - 1] == CR {
                i - 1
            } else {
                i
            };
            let line = copy_range(bytes, start, end);
            proof {
                let rest = bytes@.skip(start as int);
                let n: int = i - start;
                assert forall|k: int| 0 <= k < n implies rest[k] != LF by {
                    assert(rest[k] == bytes@[start + k]);
                }
                lemma_first_newline(rest, n);
                assert(rest.take(n) == bytes@.subrange(start as int, i as int));
                assert(without_cr(rest.take(n)) == line@);
                assert(rest.skip(n + 1) == bytes@.skip(i + 1));
                assert(line_views(lines@.push(line)) == line_views(lines@) + seq![line@]);
            }
            lines.push(line);
            start = i + 1;
        }
        i += 1;
    }
    if start < len {
        let line = copy_range(bytes, start, len);
        proof {
            let rest = bytes@.skip(start as int);
            assert forall|k: int| 0 <= k < rest.len() implies rest[k] != LF by {
                assert(rest[k] == bytes@[start + k]);
            }
            lemma_first_newline(rest, rest.len() as int);
            assert(line@ == rest);
            assert(line_views(lines@.push(line)) == line_views(lines@) + seq![line@]);
        }
        lines.push(line);
    } else {
        assert(bytes@.skip(start as int).len() == 0);
    }
    lines
}

} // verus!
