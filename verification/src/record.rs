//! The text of an element table: lines of comma-separated records.

use vstd::prelude::*;
use vstd::string::*;

verus! {

/// Position of the first `stop` in `text` at or after `from`, or the length
/// of `text` where none follows.
pub open spec fn stretch_end(text: Seq<char>, from: int, stop: char) -> int
    decreases text.len() - from,
{
    if from < 0 || from >= text.len() || text[from] == stop {
        from
    } else {
        stretch_end(text, from + 1, stop)
    }
}

/// Position of the first comma of `line` at or after `from`, or the length
/// of `line` where no comma follows.
pub open spec fn field_end(line: Seq<char>, from: int) -> int {
    stretch_end(line, from, ',')
}

/// The field of `line` that starts at `from`: everything up to the next
/// comma. A start beyond the end of the line gives the empty field.
pub open spec fn field_at(line: Seq<char>, from: int) -> Seq<char> {
    if 0 <= from <= line.len() {
        line.subrange(from, field_end(line, from))
    } else {
        Seq::empty()
    }
}

/// First field of a record: the element's name.
pub open spec fn record_name(line: Seq<char>) -> Seq<char> {
    field_at(line, 0)
}

/// Second field of a record: the element's symbol. It is empty where the
/// record has no comma.
pub open spec fn record_symbol(line: Seq<char>) -> Seq<char> {
    field_at(line, field_end(line, 0) + 1)
}

/// The record that joins a name and a symbol with a comma.
pub open spec fn record_of(name: Seq<char>, symbol: Seq<char>) -> Seq<char> {
    name + seq![','] + symbol
}

/// Position of the first line feed of `text` at or after `from`, or the
/// length of `text` where none follows.
pub open spec fn line_end(text: Seq<char>, from: int) -> int {
    stretch_end(text, from, '\n')
}

/// A line without the carriage return that it ends in, if it ends in one.
pub open spec fn without_return(line: Seq<char>) -> Seq<char> {
    if line.len() > 0 && line.last() == '\r' {
        line.drop_last()
    } else {
        line
    }
}

/// The line of `text` that starts at `from`. A line feed ends it, and takes
/// a carriage return just before it along; the last line may end with the
/// text instead, and then keeps its carriage return.
pub open spec fn line_at(text: Seq<char>, from: int) -> Seq<char> {
    let end = line_end(text, from);
    if end < text.len() {
        without_return(text.subrange(from, end))
    } else {
        text.subrange(from, end)
    }
}

/// The lines of `text` from position `from` on. Nothing follows the line
/// feed that ends the text: a final line feed opens no empty line.
pub open spec fn lines_from(text: Seq<char>, from: int) -> Seq<Seq<char>>
    decreases text.len() - from,
{
    if from < 0 || from >= text.len() {
        Seq::empty()
    } else {
        let end = line_end(text, from);
        let rest = if from <= end < text.len() {
            lines_from(text, end + 1)
        } else {
            Seq::empty()
        };
        seq![line_at(text, from)] + rest
    }
}

/// The lines of a text, first line first.
pub open spec fn text_lines(text: Seq<char>) -> Seq<Seq<char>> {
    lines_from(text, 0)
}

/// The lines of a table as sequences of characters.
pub open spec fn lines_view(lines: Seq<String>) -> Seq<Seq<char>> {
    Seq::new(lines.len(), |i: int| lines[i]@)
}

/// A stretch ends within the text, at or after its start.
pub proof fn lemma_stretch_end_bounds(text: Seq<char>, from: int, stop: char)
    requires
        0 <= from <= text.len(),
    ensures
        from <= stretch_end(text, from, stop) <= text.len(),
    decreases text.len() - from,
{
    if from < text.len() && text[from] != stop {
        lemma_stretch_end_bounds(text, from + 1, stop);
    }
}

/// A stretch without `stop` that ends at a `stop` or at the end of the text
/// is a whole stretch.
pub proof fn lemma_stretch_end_at(text: Seq<char>, from: int, end: int, stop: char)
    requires
        0 <= from <= end <= text.len(),
        forall|i: int| from <= i < end ==> text[i] != stop,
        end == text.len() || text[end] == stop,
    ensures
        stretch_end(text, from, stop) == end,
    decreases end - from,
{
    if from < end {
        lemma_stretch_end_at(text, from + 1, end, stop);
    }
}

/// Dropping the first `k` characters moves the end of a stretch by `k`.
pub proof fn lemma_stretch_end_skip(text: Seq<char>, k: int, i: int, stop: char)
    requires
        0 <= k,
        0 <= i,
        k + i <= text.len(),
    ensures
        stretch_end(text, k + i, stop) == k + stretch_end(text.skip(k), i, stop),
    decreases text.len() - k - i,
{
    if k + i < text.len() {
        assert(text.skip(k)[i] == text[k + i]);
        if text[k + i] != stop {
            lemma_stretch_end_skip(text, k, i + 1, stop);
        }
    }
}

/// The lines from a position on are the lines of the text that starts
/// there.
pub proof fn lemma_lines_from_skip(text: Seq<char>, k: int, i: int)
    requires
        0 <= k,
        0 <= i,
        k + i <= text.len(),
    ensures
        lines_from(text, k + i) == lines_from(text.skip(k), i),
    decreases text.len() - k - i,
{
    let tail = text.skip(k);
    if k + i < text.len() {
        lemma_stretch_end_skip(text, k, i, '\n');
        lemma_stretch_end_bounds(text, k + i, '\n');
        let end = line_end(text, k + i);
        assert(text.subrange(k + i, end) =~= tail.subrange(i, end - k));
        assert(line_at(text, k + i) == line_at(tail, i));
        if end < text.len() {
            lemma_lines_from_skip(text, k, end + 1 - k);
        }
    }
}

/// Splitting undoes joining: a record joined from a name and a symbol that
/// hold no comma splits into that name and that symbol.
pub proof fn lemma_split_of_joined(name: Seq<char>, symbol: Seq<char>)
    requires
        !name.contains(','),
        !symbol.contains(','),
    ensures
        record_name(record_of(name, symbol)) == name,
        record_symbol(record_of(name, symbol)) == symbol,
{
    let line = record_of(name, symbol);
    let cut = name.len() as int;
    assert(line[cut] == ',');
    assert forall|i: int| 0 <= i < cut implies line[i] != ',' by {
        assert(line[i] == name[i]);
        assert(name.contains(name[i]));
    }
    lemma_stretch_end_at(line, 0, cut, ',');
    assert forall|i: int| cut + 1 <= i < line.len() implies line[i] != ',' by {
        assert(line[i] == symbol[i - cut - 1]);
        assert(symbol.contains(symbol[i - cut - 1]));
    }
    lemma_stretch_end_at(line, cut + 1, line.len() as int, ',');
    assert(line.subrange(0, cut) =~= name);
    assert(line.subrange(cut + 1, line.len() as int) =~= symbol);
}

/// The empty text has no line.
pub proof fn lemma_lines_of_empty()
    ensures
        text_lines(Seq::<char>::empty()) == Seq::<Seq<char>>::empty(),
{
}

/// A text without a line feed that is not empty is one line, kept as it is.
pub proof fn lemma_lines_of_last_line(line: Seq<char>)
    requires
        line.len() > 0,
        !line.contains('\n'),
    ensures
        text_lines(line) == seq![line],
{
    assert forall|i: int| 0 <= i < line.len() implies line[i] != '\n' by {
        assert(line.contains(line[i]));
    }
    lemma_stretch_end_at(line, 0, line.len() as int, '\n');
    assert(line.subrange(0, line.len() as int) =~= line);
    assert(seq![line] + Seq::<Seq<char>>::empty() =~= seq![line]);
}

/// A line feed ends the first line: the lines of a text that starts with a
/// stretch free of line feeds and then a line feed are that stretch, less a
/// carriage return at its end, and then the lines of what follows.
pub proof fn lemma_lines_of_joined(line: Seq<char>, rest: Seq<char>)
    requires
        !line.contains('\n'),
    ensures
        text_lines(line + seq!['\n'] + rest) == seq![without_return(line)] + text_lines(rest),
{
    let text = line + seq!['\n'] + rest;
    let cut = line.len() as int;
    assert(text[cut] == '\n');
    assert forall|i: int| 0 <= i < cut implies text[i] != '\n' by {
        assert(text[i] == line[i]);
        assert(line.contains(line[i]));
    }
    lemma_stretch_end_at(text, 0, cut, '\n');
    assert(text.subrange(0, cut) =~= line);
    assert(text.skip(cut + 1) =~= rest);
    lemma_lines_from_skip(text, cut + 1, 0);
}

/// Position of the first `stop` in `text` at or after `from`, or `len`, the
/// length of `text`, where none follows.
fn scan_stretch(text: &str, len: usize, from: usize, stop: char) -> (end: usize)
    requires
        len == text@.len(),
        from <= len,
    ensures
        end == stretch_end(text@, from as int, stop),
        from <= end <= len,
{
    let mut i: usize = from;
    while i < len && text.get_char(i) != stop
        invariant
            len == text@.len(),
            from <= i <= len,
            stretch_end(text@, from as int, stop) == stretch_end(text@, i as int, stop),
        decreases len - i,
    {
        i += 1;
    }
    i
}

/// Splits a record into the element's name and symbol.
///
/// A record without a comma has an empty symbol, an empty record has an
/// empty name as well, and fields after the second are ignored.
pub fn split_record(line: &str) -> (fields: (String, String))
    ensures
        fields.0@ == record_name(line@),
        fields.1@ == record_symbol(line@),
{
    let len = line.unicode_len();
    let name_end = scan_stretch(line, len, 0, ',');
    let name = line.substring_char(0, name_end).to_owned();
    if name_end == len {
        (name, String::new())
    } else {
        let start: usize = name_end + 1;
        let symbol_end = scan_stretch(line, len, start, ',');
        let symbol = line.substring_char(start, symbol_end).to_owned();
        (name, symbol)
    }
}

/// Splits a text into its lines.
///
/// A line feed ends a line, a carriage return just before it is dropped
/// with it, and the last line need not end in a line feed.
pub fn split_lines(text: &str) -> (lines: Vec<String>)
    ensures
        lines_view(lines@) == text_lines(text@),
{
    let len = text.unicode_len();
    let mut lines: Vec<String> = Vec::new();
    let mut from: usize = 0;
    while from < len
        invariant
            len == text@.len(),
            from <= len,
            lines_view(lines@) + lines_from(text@, from as int) == text_lines(text@),
        decreases len - from,
    {
        let end = scan_stretch(text, len, from, '\n');
        let mut cut: usize = end;
        if end < len && from < end && text.get_char(end - 1) == '\r' {
            cut = end - 1;
        }
        let line = text.substring_char(from, cut).to_owned();
        let next: usize = if end < len {
            end + 1
        } else {
            len
        };
        proof {
            let rest = lines_from(text@, next as int);
            assert(line@ == line_at(text@, from as int));
            assert(lines_from(text@, from as int) == seq![line@] + rest);
            assert(lines_view(lines@.push(line)) =~= lines_view(lines@) + seq![line@]);
            assert(lines_view(lines@) + (seq![line@] + rest) =~= (lines_view(lines@)
                + seq![line@]) + rest);
        }
        lines.push(line);
        from = next;
    }
    proof {
        assert(lines_view(lines@) + Seq::<Seq<char>>::empty() =~= lines_view(lines@));
    }
    lines
}

} // verus!
