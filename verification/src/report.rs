//! Query results and the one-line summary made of them.

use crate::text::{
    decimal_text, digit_char, ends_with, is_digit, lemma_decimal_text_digits, occurs_in,
    push_decimal,
};
use vstd::prelude::*;
use vstd::string::*;

verus! {

/// The outcome of one query: its tag, and the number of open issues where known.
#[derive(Clone, Debug, PartialEq, Eq)]
pub struct BuggleResult {
    pub id: String,
    pub count: Option<u64>,
}

/// A result as plain values.
pub struct ResultView {
    pub id: Seq<char>,
    pub count: Option<nat>,
}

impl View for BuggleResult {
    type V = ResultView;

    open spec fn view(&self) -> ResultView {
        ResultView {
            id: self.id@,
            count: match self.count {
                Some(n) => Some(n as nat),
                None => None,
            },
        }
    }
}

impl DeepView for BuggleResult {
    type V = ResultView;

    open spec fn deep_view(&self) -> ResultView {
        self@
    }
}

/// What every summary starts with.
pub open spec fn summary_prefix() -> Seq<char> {
    "Daily buggle: "@
}

/// What stands between two entries of a summary.
pub open spec fn separator() -> Seq<char> {
    " / "@
}

/// A count as it is shown: its decimal numeral, or a question mark where it is unknown.
pub open spec fn count_text(count: Option<nat>) -> Seq<char> {
    match count {
        Some(n) => decimal_text(n),
        None => "?"@,
    }
}

/// One entry of a summary: the count, then the tag in round brackets.
pub open spec fn entry_text(r: ResultView) -> Seq<char> {
    count_text(r.count) + " ("@ + r.id + ")"@
}

/// The entries of a summary, in order, with a separator between neighbours.
pub open spec fn entries_text(rs: Seq<ResultView>) -> Seq<char>
    decreases rs.len(),
{
    if rs.len() == 0 {
        Seq::empty()
    } else if rs.len() == 1 {
        entry_text(rs[0])
    } else {
        entries_text(rs.drop_last()) + separator() + entry_text(rs.last())
    }
}

/// The summary line for a list of results.
pub open spec fn summary_text(rs: Seq<ResultView>) -> Seq<char> {
    summary_prefix() + entries_text(rs)
}

/// Appends one entry to `out`.
fn push_entry(out: &mut String, r: &BuggleResult)
    ensures
        final(out)@ == old(out)@ + entry_text(r@),
{
    match r.count {
        Some(n) => push_decimal(out, n),
        None => out.append("?"),
    }
    out.append(" (");
    out.append(r.id.as_str());
    out.append(")");
}

/// Renders the results as one line: the prefix, then each entry in order, separated by
/// `" / "`, with nothing after the last entry.
pub fn summarize_buggle(v: Vec<BuggleResult>) -> (s: String)
    ensures
        s@ == summary_text(v.deep_view()),
{
    let mut s: String = String::from_str("Daily buggle: ");
    let mut i: usize = 0;
    while i < v.len()
        invariant
            i <= v.len(),
            s@ == summary_prefix() + entries_text(v.deep_view().take(i as int)),
        decreases v.len() - i,
    {
        let ghost before = v.deep_view().take(i as int);
        let ghost after = v.deep_view().take(i + 1);
        assert(after.drop_last() == before);
        assert(after.last() == v[i as int]@);
        if i > 0 {
            s.append(" / ");
        }
        push_entry(&mut s, &v[i]);
        i = i + 1;
    }
    assert(v.deep_view().take(v.len() as int) == v.deep_view());
    s
}

/// The summary of no results is the prefix and nothing else.
pub proof fn lemma_summary_of_none()
    ensures
        summary_text(Seq::empty()) == summary_prefix(),
{
    assert(summary_prefix() + Seq::<char>::empty() == summary_prefix());
}

/// The summary of one result is the prefix and that one entry.
pub proof fn lemma_summary_of_one(r: ResultView)
    ensures
        summary_text(seq![r]) == summary_prefix() + entry_text(r),
{
}

/// Each further result adds one separator and one entry at the end.
pub proof fn lemma_summary_grows(rs: Seq<ResultView>, r: ResultView)
    requires
        rs.len() >= 1,
    ensures
        summary_text(rs.push(r)) == summary_text(rs) + separator() + entry_text(r),
{
    assert(rs.push(r).drop_last() == rs);
    assert(summary_prefix() + (entries_text(rs) + separator() + entry_text(r)) == summary_prefix()
        + entries_text(rs) + separator() + entry_text(r));
}

/// The summary is made of the names and counts alone: two lists that agree on them,
/// entry by entry, have the same summary. Formatting a list twice is one case of this.
pub proof fn lemma_same_results_same_summary(a: Vec<BuggleResult>, b: Vec<BuggleResult>)
    requires
        a@.len() == b@.len(),
        forall|i: int| 0 <= i < a@.len() ==> a@[i]@ == b@[i]@,
    ensures
        summary_text(a.deep_view()) == summary_text(b.deep_view()),
{
    assert(a.deep_view() =~= b.deep_view());
}

/// A shown count holds no slash and no space.
proof fn lemma_count_text_plain(count: Option<nat>)
    ensures
        count_text(count).len() >= 1,
        forall|i: int|
            0 <= i < count_text(count).len() ==> (#[trigger] count_text(count)[i]) != '/'
                && count_text(count)[i] != ' ',
{
    match count {
        Some(n) => {
            lemma_decimal_text_digits(n);
            assert forall|i: int| 0 <= i < decimal_text(n).len() implies {
                &&& (#[trigger] decimal_text(n)[i]) != '/'
                &&& decimal_text(n)[i] != ' '
            } by {
                let c = decimal_text(n)[i];
                assert(is_digit(c));
                let d = choose|d: nat| d < 10 && c == #[trigger] digit_char(d);
                assert(c == digit_char(d));
            }
        },
        None => {
            reveal_strlit("?");
        },
    }
}

/// Every entry ends with a closing bracket.
proof fn lemma_entry_ends_with_bracket(r: ResultView)
    ensures
        entry_text(r).len() >= 1,
        entry_text(r).last() == ')',
{
    reveal_strlit(")");
}

/// A list of at least one entry ends with a closing bracket.
proof fn lemma_entries_end_with_bracket(rs: Seq<ResultView>)
    requires
        rs.len() >= 1,
    ensures
        entries_text(rs).len() >= 1,
        entries_text(rs).last() == ')',
    decreases rs.len(),
{
    lemma_entry_ends_with_bracket(rs.last());
    if rs.len() == 1 {
        assert(rs[0] == rs.last());
    }
}

/// No summary ends with a separator: the empty one ends with the prefix, every other
/// with the closing bracket of its last entry.
pub proof fn lemma_no_trailing_separator(rs: Seq<ResultView>)
    ensures
        !ends_with(summary_text(rs), separator()),
        rs.len() >= 1 ==> summary_text(rs).last() == ')',
{
    reveal_strlit(" / ");
    let text = summary_text(rs);
    let sep = separator();
    if rs.len() == 0 {
        lemma_summary_of_none();
        reveal_strlit("Daily buggle: ");
        if ends_with(text, sep) {
            assert(text.subrange(text.len() - 3, text.len() as int)[1] == sep[1]);
        }
    } else {
        lemma_entries_end_with_bracket(rs);
        assert(text.last() == ')');
        if ends_with(text, sep) {
            assert(text.subrange(text.len() - 3, text.len() as int)[2] == sep[2]);
        }
    }
}

/// In the summary of a single result no separator stands anywhere, as long as the
/// result's name holds none.
pub proof fn lemma_single_entry_has_no_separator(r: ResultView)
    requires
        !occurs_in(separator(), r.id),
    ensures
        !occurs_in(separator(), summary_text(seq![r])),
{
    reveal_strlit(" / ");
    reveal_strlit("Daily buggle: ");
    reveal_strlit(" (");
    reveal_strlit(")");
    lemma_count_text_plain(r.count);
    let sep = separator();
    let head = summary_prefix() + count_text(r.count) + " ("@;
    let text = summary_text(seq![r]);
    assert(text =~= head + r.id + ")"@);
    assert forall|i: int| 0 <= i && i + 3 <= text.len() implies #[trigger] text.subrange(i, i + 3)
        != sep by {
        if text.subrange(i, i + 3) == sep {
            let at = text.subrange(i, i + 3);
            assert(at[0] == ' ' && at[1] == '/' && at[2] == ' ');
            assert(text[i] == ' ' && text[i + 1] == '/' && text[i + 2] == ' ');
            let k = i + 1 - head.len();
            // the slash stands in the name, and so do its two neighbours
            assert(0 <= k < r.id.len());
            assert(1 <= k);
            assert(k + 1 < r.id.len());
            assert(r.id.subrange(k - 1, k - 1 + sep.len()) =~= sep);
            assert(occurs_in(sep, r.id));
        }
    }
}

} // verus!
