//! Process records, and how the rows of a process table are read into them.
//!
//! A row of the table holds four columns separated by white space: the
//! process identifier, the command name, the state code and the resident
//! memory in kilobytes. The table has no header row.

use vstd::prelude::*;
use vstd::slice::slice_subrange;
use crate::decimal::{decimal_or_zero, read_decimal};
use crate::text::{
    chars_of, lemma_line_len_bound, lemma_line_len_joined, lemma_line_without_feed,
    lemma_words_before_white_space, line_len, next_word, text_of, words,
};

verus! {

/// A process: one that the kernel registered, or one that a table row
/// describes.
#[derive(Debug)]
pub struct Process {
    pub id: u32,
    pub name: String,
    pub status: String,
    /// Memory in use, in kilobytes.
    pub memory_usage: u64,
}

/// What a `Process` holds, as plain values.
pub struct ProcessView {
    pub id: u32,
    pub name: Seq<char>,
    pub status: Seq<char>,
    pub memory_usage: u64,
}

impl View for Process {
    type V = ProcessView;

    open spec fn view(&self) -> ProcessView {
        ProcessView {
            id: self.id,
            name: self.name@,
            status: self.status@,
            memory_usage: self.memory_usage,
        }
    }
}

impl DeepView for Process {
    type V = ProcessView;

    open spec fn deep_view(&self) -> ProcessView {
        self.view()
    }
}

impl Clone for Process {
    fn clone(&self) -> (copy: Self)
        ensures
            copy == *self,
    {
        Process {
            id: self.id,
            name: self.name.clone(),
            status: self.status.clone(),
            memory_usage: self.memory_usage,
        }
    }
}

/// The status that a state code stands for. Only the first character of the
/// code counts: `R` is running, `S` is sleeping, `Z` is a zombie, and every
/// other code, the empty one too, is idle.
pub open spec fn status_label(state: Seq<char>) -> Seq<char> {
    if state.len() > 0 && state[0] == 'R' {
        "running"@
    } else if state.len() > 0 && state[0] == 'S' {
        "sleeping"@
    } else if state.len() > 0 && state[0] == 'Z' {
        "zombie"@
    } else {
        "idle"@
    }
}

/// The record that a row of the table gives, if it gives one. A row with
/// fewer than four words gives none. In a row with four or more, the first
/// four words are the columns and the others are not read. An identifier or
/// a memory size that is no number of its type counts as 0.
pub open spec fn row_record(line: Seq<char>) -> Option<ProcessView> {
    let columns = words(line);
    if columns.len() >= 4 {
        Some(
            ProcessView {
                id: decimal_or_zero(columns[0], u32::MAX as nat) as u32,
                name: columns[1],
                status: status_label(columns[2]),
                memory_usage: decimal_or_zero(columns[3], u64::MAX as nat) as u64,
            },
        )
    } else {
        None
    }
}

/// What a row adds to a table: its record, or nothing.
pub open spec fn row_records(line: Seq<char>) -> Seq<ProcessView> {
    match row_record(line) {
        Some(record) => seq![record],
        None => Seq::empty(),
    }
}

/// The records of a whole table, row by row. Rows end at a line feed; the last
/// row may go without one. A carriage return before the line feed is white
/// space like any other and so belongs to no column.
pub open spec fn table_records(text: Seq<char>) -> Seq<ProcessView>
    decreases text.len(),
{
    if text.len() == 0 {
        Seq::empty()
    } else {
        let n = line_len(text) as int;
        let rest = if n < text.len() {
            text.skip(n + 1)
        } else {
            Seq::empty()
        };
        row_records(text.take(n)) + table_records(rest)
    }
}

/// The label for the state code `state`.
fn status_of(state: &[char]) -> (label: &'static str)
    ensures
        label@ == status_label(state@),
{
    if state.len() == 0 {
        "idle"
    } else if state[0] == 'R' {
        "running"
    } else if state[0] == 'S' {
        "sleeping"
    } else if state[0] == 'Z' {
        "zombie"
    } else {
        "idle"
    }
}

/// Reads one row, given as characters.
fn read_row(line: &[char]) -> (found: Option<Process>)
    ensures
        found.deep_view() == row_record(line@),
{
    assert(line@.skip(0) == line@);
    let id_at = next_word(line, 0);
    if id_at.0 == id_at.1 {
        return None;
    }
    let name_at = next_word(line, id_at.1);
    if name_at.0 == name_at.1 {
        return None;
    }
    let status_at = next_word(line, name_at.1);
    if status_at.0 == status_at.1 {
        return None;
    }
    let memory_at = next_word(line, status_at.1);
    if memory_at.0 == memory_at.1 {
        return None;
    }
    let id: u32 = match read_decimal(slice_subrange(line, id_at.0, id_at.1), 0xffff_ffff) {
        Some(v) => v as u32,
        None => 0,
    };
    let name = text_of(slice_subrange(line, name_at.0, name_at.1));
    let status = status_of(slice_subrange(line, status_at.0, status_at.1)).to_string();
    let memory_usage: u64 = match read_decimal(
        slice_subrange(line, memory_at.0, memory_at.1),
        u64::MAX,
    ) {
        Some(v) => v,
        None => 0,
    };
    Some(Process { id, name, status, memory_usage })
}

/// Reads a whole table, given as characters.
fn read_table(chars: &[char]) -> (found: Vec<Process>)
    ensures
        found.deep_view() == table_records(chars@),
{
    let mut found: Vec<Process> = Vec::new();
    let mut start: usize = 0;
    assert(chars@.skip(0) == chars@);
    while start < chars.len()
        invariant
            start <= chars@.len(),
            table_records(chars@) == found.deep_view() + table_records(chars@.skip(start as int)),
        decreases chars@.len() - start,
    {
        let mut end: usize = start;
        while end < chars.len() && chars[end] != '\n'
            invariant
                start <= end <= chars@.len(),
                line_len(chars@.skip(start as int)) == (end - start) + line_len(
                    chars@.skip(end as int),
                ),
            decreases chars@.len() - end,
        {
            assert(chars@.skip(end as int).skip(1) == chars@.skip(end + 1));
            end += 1;
        }
        let ghost text = chars@.skip(start as int);
        let ghost before = found.deep_view();
        assert(line_len(chars@.skip(end as int)) == 0);
        assert(text.take(end - start) == chars@.subrange(start as int, end as int));
        match read_row(slice_subrange(chars, start, end)) {
            Some(process) => {
                found.push(process);
                assert(found.deep_view() == before + seq![process.deep_view()]);
            },
            None => {},
        }
        if end < chars.len() {
            assert(text.skip(end - start + 1) == chars@.skip(end + 1));
            start = end + 1;
        } else {
            assert(chars@.skip(end as int) == Seq::<char>::empty());
            start = end;
        }
    }
    found
}

/// Tells which status the state code of a table row stands for.
pub fn classify_status(state: &str) -> (label: &'static str)
    ensures
        label@ == status_label(state@),
{
    let chars = chars_of(state);
    status_of(chars.as_slice())
}

/// Reads one row of a process table. Gives the record, or nothing where the
/// row has fewer than four columns.
pub fn parse_process_line(line: &str) -> (found: Option<Process>)
    ensures
        found is Some <==> words(line@).len() >= 4,
        found.deep_view() == row_record(line@),
{
    let chars = chars_of(line);
    read_row(chars.as_slice())
}

/// Reads a process table: the records of its rows, in the order of the rows.
/// Rows with fewer than four columns are passed over.
pub fn parse_process_table(output: &str) -> (found: Vec<Process>)
    ensures
        found.deep_view() == table_records(output@),
{
    let chars = chars_of(output);
    read_table(chars.as_slice())
}

/// A text without a line feed is a single row.
pub proof fn lemma_single_row(line: Seq<char>)
    requires
        !line.contains('\n'),
    ensures
        table_records(line) == row_records(line),
{
    lemma_line_without_feed(line);
    if line.len() > 0 {
        assert(line.take(line.len() as int) == line);
        assert(table_records(Seq::<char>::empty()) == Seq::<ProcessView>::empty());
        assert(table_records(line) == row_records(line) + Seq::<ProcessView>::empty());
    } else {
        assert(words(line).len() == 0);
    }
}

/// The rows of two tables joined by a line feed are the rows of the first
/// and then the rows of the second.
pub proof fn lemma_tables_join(first: Seq<char>, second: Seq<char>)
    ensures
        table_records(first + seq!['\n'] + second) == table_records(first) + table_records(
            second,
        ),
    decreases first.len(),
{
    let joined = first + seq!['\n'] + second;
    let n = line_len(first) as int;
    let row = first.take(n);
    lemma_line_len_bound(first);
    lemma_line_len_joined(first, seq!['\n'] + second);
    assert(joined == first + (seq!['\n'] + second));
    assert(joined.take(n) == row);
    if n < first.len() {
        let rest = first.skip(n + 1);
        assert(joined.skip(n + 1) == rest + seq!['\n'] + second);
        lemma_tables_join(rest, second);
        assert(table_records(first) == row_records(row) + table_records(rest));
        assert(table_records(joined) == row_records(row) + (table_records(rest) + table_records(
            second,
        )));
    } else {
        assert(joined.skip(n + 1) == second);
        assert(row == first);
        assert(table_records(joined) == row_records(first) + table_records(second));
        if first.len() == 0 {
            assert(words(first).len() == 0);
        } else {
            assert(table_records(Seq::<char>::empty()) == Seq::<ProcessView>::empty());
            assert(table_records(first) == row_records(first) + Seq::<ProcessView>::empty());
        }
    }
}

/// A carriage return at the end of a row changes nothing in what the row
/// gives: rows may end in a line feed alone or in both.
pub proof fn lemma_carriage_return_ends_row(row: Seq<char>)
    ensures
        row_record(row.push('\r')) == row_record(row),
{
    lemma_words_before_white_space(row, '\r');
}

/// A row with fewer than four words adds nothing to the table around it,
/// wherever in the table it stands: between two rows, first or last.
pub proof fn lemma_short_row_adds_nothing(before: Seq<char>, row: Seq<char>, after: Seq<char>)
    requires
        !row.contains('\n'),
        words(row).len() < 4,
    ensures
        table_records(before + seq!['\n'] + row + seq!['\n'] + after) == table_records(
            before + seq!['\n'] + after,
        ),
        table_records(row + seq!['\n'] + after) == table_records(after),
        table_records(before + seq!['\n'] + row) == table_records(before),
{
    lemma_single_row(row);
    lemma_tables_join(row, after);
    lemma_tables_join(before, row);
    lemma_tables_join(before, row + seq!['\n'] + after);
    lemma_tables_join(before, after);
    assert(before + seq!['\n'] + row + seq!['\n'] + after == before + seq!['\n'] + (row + seq![
        '\n',
    ] + after));
}

} // verus!
