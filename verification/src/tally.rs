//! Counting the data rows of a CSV response.

use vstd::prelude::*;

verus! {

/// The byte that ends a line.
pub const NEWLINE: u8 = 10;

/// The status that marks a response as a success.
pub const STATUS_OK: u16 = 200;

/// The lines of a body: the stretches between its newline bytes. A body without a
/// newline is one line, the empty body too; a body that ends in a newline has an empty
/// last line.
pub open spec fn split_lines(body: Seq<u8>) -> Seq<Seq<u8>>
    decreases body.len(),
{
    if body.len() == 0 {
        seq![Seq::empty()]
    } else {
        let before = split_lines(body.drop_last());
        if body.last() == NEWLINE {
            before.push(Seq::empty())
        } else {
            before.update(before.len() - 1, before.last().push(body.last()))
        }
    }
}

/// The body made of `lines`, with a newline byte between neighbours.
pub open spec fn join_lines(lines: Seq<Seq<u8>>) -> Seq<u8>
    decreases lines.len(),
{
    if lines.len() == 0 {
        Seq::empty()
    } else if lines.len() == 1 {
        lines[0]
    } else {
        join_lines(lines.drop_last()) + seq![NEWLINE] + lines.last()
    }
}

/// Whether `line` holds no newline byte.
pub open spec fn newline_free(line: Seq<u8>) -> bool {
    forall|i: int| 0 <= i < line.len() ==> line[i] != NEWLINE
}

/// The number of lines of a body.
pub open spec fn line_count(body: Seq<u8>) -> nat {
    split_lines(body).len()
}

/// The number of data rows of a CSV body: its lines but the header line, and never
/// less than zero.
pub open spec fn data_rows(body: Seq<u8>) -> nat {
    if line_count(body) >= 1 {
        (line_count(body) - 1) as nat
    } else {
        0
    }
}

/// What came of one request.
#[derive(Clone, Debug, PartialEq, Eq)]
pub enum FetchOutcome {
    /// No response was had: the connection failed, or the body could not be read.
    Failed,
    /// A response arrived, with this status and this body, read to its end.
    Response { status: u16, body: Vec<u8> },
}

/// The count that an outcome stands for: the data rows of a successful response, and
/// none where the request failed or the status is not success.
pub open spec fn outcome_count(outcome: FetchOutcome) -> Option<nat> {
    match outcome {
        FetchOutcome::Failed => None,
        FetchOutcome::Response { status, body } => if status == STATUS_OK {
            Some(data_rows(body@))
        } else {
            None
        },
    }
}

/// A count as a plain value.
pub open spec fn count_view(count: Option<u64>) -> Option<nat> {
    match count {
        Some(n) => Some(n as nat),
        None => None,
    }
}

/// A body always has one line more than it has newline bytes, so at least one.
pub proof fn lemma_line_count_positive(body: Seq<u8>)
    ensures
        line_count(body) >= 1,
    decreases body.len(),
{
    if body.len() > 0 {
        lemma_line_count_positive(body.drop_last());
    }
}

/// Bytes without a newline, put after a body, lengthen its last line and add none.
pub proof fn lemma_split_after_plain_bytes(body: Seq<u8>, tail: Seq<u8>)
    requires
        newline_free(tail),
    ensures
        split_lines(body + tail) == split_lines(body).drop_last().push(
            split_lines(body).last() + tail,
        ),
    decreases tail.len(),
{
    lemma_line_count_positive(body);
    let lines = split_lines(body);
    if tail.len() == 0 {
        assert(body + tail == body);
        assert(lines.last() + tail == lines.last());
        assert(lines.drop_last().push(lines.last()) == lines);
    } else {
        let shorter = tail.drop_last();
        lemma_split_after_plain_bytes(body, shorter);
        assert((body + tail).drop_last() == body + shorter);
        assert((body + tail).last() == tail.last());
        assert((lines.last() + shorter).push(tail.last()) == lines.last() + tail);
        let before = split_lines(body + shorter);
        assert(before.update(before.len() - 1, before.last().push(tail.last()))
            == lines.drop_last().push(lines.last() + tail));
    }
}

/// Splitting undoes joining: a body made of one or more lines, none of which holds a
/// newline, splits into those very lines.
pub proof fn lemma_split_of_join(lines: Seq<Seq<u8>>)
    requires
        lines.len() >= 1,
        forall|i: int| 0 <= i < lines.len() ==> newline_free(#[trigger] lines[i]),
    ensures
        split_lines(join_lines(lines)) == lines,
    decreases lines.len(),
{
    if lines.len() == 1 {
        let only = lines[0];
        lemma_split_after_plain_bytes(Seq::empty(), only);
        assert(Seq::<u8>::empty() + only == only);
        assert(split_lines(Seq::empty()) == seq![Seq::<u8>::empty()]);
        assert(seq![Seq::<u8>::empty()].drop_last().push(Seq::<u8>::empty() + only) == lines);
    } else {
        let front = lines.drop_last();
        lemma_split_of_join(front);
        let ended = join_lines(front) + seq![NEWLINE];
        assert(ended.drop_last() == join_lines(front));
        assert(split_lines(ended) == front.push(Seq::empty()));
        lemma_split_after_plain_bytes(ended, lines.last());
        assert(front.push(Seq::<u8>::empty()).drop_last().push(Seq::<u8>::empty() + lines.last())
            == lines);
    }
}

/// Joining undoes splitting: the lines of a body hold no newline, and joined they are
/// the body again.
pub proof fn lemma_join_of_split(body: Seq<u8>)
    ensures
        join_lines(split_lines(body)) == body,
        forall|i: int| 0 <= i < split_lines(body).len() ==> newline_free(#[trigger] split_lines(body)[i]),
    decreases body.len(),
{
    if body.len() > 0 {
        let front = body.drop_last();
        lemma_join_of_split(front);
        lemma_line_count_positive(front);
        let before = split_lines(front);
        if body.last() == NEWLINE {
            let lines = before.push(Seq::empty());
            assert(lines.drop_last() == before);
            assert(join_lines(lines) == front + seq![NEWLINE] + Seq::<u8>::empty());
            assert(front + seq![NEWLINE] + Seq::<u8>::empty() == body);
        } else {
            let grown = before.last().push(body.last());
            let lines = before.update(before.len() - 1, grown);
            if before.len() == 1 {
                assert(before[0] == front);
                assert(grown == body);
            } else {
                assert(lines.drop_last() == before.drop_last());
                assert(join_lines(before) == join_lines(before.drop_last()) + seq![NEWLINE]
                    + before.last());
                assert(join_lines(lines) == join_lines(before.drop_last()) + seq![NEWLINE]
                    + grown);
                assert(join_lines(before.drop_last()) + seq![NEWLINE] + grown == (join_lines(
                    before.drop_last(),
                ) + seq![NEWLINE] + before.last()).push(body.last()));
                assert(front.push(body.last()) == body);
            }
        }
    }
}

/// The count of a CSV body is its number of data lines: a body of one header line and
/// `rows.len()` lines after it, none of which holds a newline, has `rows.len()` data
/// rows. A body that is the header alone has none.
pub proof fn lemma_rows_of_csv(header: Seq<u8>, rows: Seq<Seq<u8>>)
    requires
        newline_free(header),
        forall|i: int| 0 <= i < rows.len() ==> newline_free(#[trigger] rows[i]),
    ensures
        data_rows(join_lines(seq![header] + rows)) == rows.len(),
        rows.len() == 0 ==> join_lines(seq![header] + rows) == header,
{
    let lines = seq![header] + rows;
    assert forall|i: int| 0 <= i < lines.len() implies newline_free(#[trigger] lines[i]) by {
        if i > 0 {
            assert(lines[i] == rows[i - 1]);
        }
    }
    lemma_split_of_join(lines);
}

/// The empty body has no data rows.
pub proof fn lemma_rows_of_empty_body()
    ensures
        data_rows(Seq::empty()) == 0,
{
}

/// Counts the data rows of a CSV body.
pub fn count_data_rows(body: &[u8]) -> (rows: u64)
    ensures
        rows == data_rows(body@),
{
    let mut newlines: usize = 0;
    let mut i: usize = 0;
    while i < body.len()
        invariant
            i <= body.len(),
            newlines <= i,
            newlines + 1 == line_count(body@.take(i as int)),
        decreases body.len() - i,
    {
        assert(body@.take(i + 1).drop_last() == body@.take(i as int));
        if body[i] == NEWLINE {
            newlines = newlines + 1;
        }
        i = i + 1;
    }
    assert(body@.take(body.len() as int) == body@);
    newlines as u64
}

/// Turns the outcome of a request into a count.
pub fn tally_outcome(outcome: &FetchOutcome) -> (count: Option<u64>)
    ensures
        count_view(count) == outcome_count(*outcome),
{
    match outcome {
        FetchOutcome::Failed => None,
        FetchOutcome::Response { status, body } => {
            if *status == STATUS_OK {
                Some(count_data_rows(body.as_slice()))
            } else {
                None
            }
        },
    }
}

} // verus!
