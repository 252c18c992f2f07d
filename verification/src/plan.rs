//! The decisions about one query: what is to be done before any request is made, and
//! what result the outcome of a request gives.

use crate::flags::BuggleFlags;
use crate::query::{
    build_kind_query, kind_of, kind_url, parse_kind, parses_as_uri, uri_accepts, QuerySpec,
    QuerySpecView,
};
use crate::report::{BuggleResult, ResultView};
use crate::tally::{outcome_count, tally_outcome, FetchOutcome};
use vstd::prelude::*;
use vstd::string::*;

verus! {

/// What is to be done about one query spec.
#[derive(Clone, Debug, PartialEq, Eq)]
pub enum QueryPlan {
    /// The kind is not known: the spec is passed over and leaves no result.
    Skip { notice: String },
    /// The result is known without a request.
    Settled { diagnostic: Option<String>, result: BuggleResult },
    /// A GET of `url` is to be made; the result follows from its outcome.
    Fetch { diagnostic: Option<String>, url: String },
}

/// A plan as plain values.
pub enum PlanView {
    Skip { notice: Seq<char> },
    Settled { diagnostic: Option<Seq<char>>, result: ResultView },
    Fetch { diagnostic: Option<Seq<char>>, url: Seq<char> },
}

/// A line that may be absent, as plain values.
pub open spec fn line_view(line: Option<String>) -> Option<Seq<char>> {
    match line {
        Some(s) => Some(s@),
        None => None,
    }
}

impl View for QueryPlan {
    type V = PlanView;

    open spec fn view(&self) -> PlanView {
        match *self {
            QueryPlan::Skip { notice } => PlanView::Skip { notice: notice@ },
            QueryPlan::Settled { diagnostic, result } => PlanView::Settled {
                diagnostic: line_view(diagnostic),
                result: result@,
            },
            QueryPlan::Fetch { diagnostic, url } => PlanView::Fetch {
                diagnostic: line_view(diagnostic),
                url: url@,
            },
        }
    }
}

/// The line shown for a query in a verbose run: its name and its URL.
pub open spec fn query_line(name: Seq<char>, url: Seq<char>) -> Seq<char> {
    "Query for "@ + name + " = "@ + url
}

/// The line shown for a spec whose kind is not known.
pub open spec fn unknown_kind_line(name: Seq<char>, kind: Seq<char>) -> Seq<char> {
    "Unknown query name="@ + name + " kind="@ + kind + "\n"@
}

/// The request URL of a spec; the empty text where its kind is not known.
pub open spec fn target_url(q: QuerySpecView) -> Seq<char> {
    match kind_of(q.kind) {
        Some(kind) => kind_url(kind, q.match_value),
        None => Seq::empty(),
    }
}

/// The plan for a spec, given whether its URL can be requested at all.
///
/// A spec of unknown kind is skipped, with a line that says so. Any other spec gets a
/// result: in a verbose run a line names it and its URL; in a dry run, and where the URL
/// cannot be requested, the result is settled at once with no count; otherwise the URL
/// is to be fetched.
pub open spec fn plan(q: QuerySpecView, flags: BuggleFlags, accepted: bool) -> PlanView {
    match kind_of(q.kind) {
        None => PlanView::Skip { notice: unknown_kind_line(q.name, q.kind) },
        Some(kind) => {
            let url = kind_url(kind, q.match_value);
            let diagnostic = if flags.verbose {
                Some(query_line(q.name, url))
            } else {
                None
            };
            if flags.dry_run || !accepted {
                PlanView::Settled { diagnostic, result: ResultView { id: q.name, count: None } }
            } else {
                PlanView::Fetch { diagnostic, url }
            }
        },
    }
}

/// The plan for a spec, with hyper's word on its URL.
pub open spec fn planned(q: QuerySpecView, flags: BuggleFlags) -> PlanView {
    plan(q, flags, uri_accepts(target_url(q)))
}

/// The plan for a spec of unknown kind.
fn skip_plan(spec: &QuerySpec) -> (p: QueryPlan)
    ensures
        p@ == (PlanView::Skip { notice: unknown_kind_line(spec@.name, spec@.kind) }),
{
    let mut line: String = String::from_str("Unknown query name=");
    line.append(spec.name.as_str());
    line.append(" kind=");
    line.append(spec.kind.as_str());
    line.append("\n");
    QueryPlan::Skip { notice: line }
}

/// The plan for a spec of known kind, whose request URL is `url`.
fn known_plan(spec: &QuerySpec, url: String, flags: &BuggleFlags, accepted: bool) -> (p: QueryPlan)
    requires
        kind_of(spec@.kind) is Some,
        url@ == target_url(spec@),
    ensures
        p@ == plan(spec@, *flags, accepted),
{
    let diagnostic = if flags.verbose {
        let mut line: String = String::from_str("Query for ");
        line.append(spec.name.as_str());
        line.append(" = ");
        line.append(url.as_str());
        Some(line)
    } else {
        None
    };
    if flags.dry_run || !accepted {
        QueryPlan::Settled {
            diagnostic,
            result: BuggleResult { id: spec.name.clone(), count: None },
        }
    } else {
        QueryPlan::Fetch { diagnostic, url }
    }
}

/// Decides what is to be done about `spec`, given whether its URL can be requested.
pub fn plan_query_given(spec: &QuerySpec, flags: &BuggleFlags, accepted: bool) -> (p: QueryPlan)
    ensures
        p@ == plan(spec@, *flags, accepted),
{
    match parse_kind(spec.kind.as_str()) {
        None => skip_plan(spec),
        Some(kind) => {
            let url = build_kind_query(kind, spec.match_value.clone());
            known_plan(spec, url, flags, accepted)
        },
    }
}

/// Decides what is to be done about `spec`. The URL is shown to hyper only where a
/// request would follow: in a dry run nothing is asked of it.
pub fn plan_query(spec: &QuerySpec, flags: &BuggleFlags) -> (p: QueryPlan)
    ensures
        p@ == planned(spec@, *flags),
{
    match parse_kind(spec.kind.as_str()) {
        None => skip_plan(spec),
        Some(kind) => {
            let url = build_kind_query(kind, spec.match_value.clone());
            let accepted = !flags.dry_run && parses_as_uri(url.as_str());
            known_plan(spec, url, flags, accepted)
        },
    }
}

/// The result of a query whose request came to `outcome`: the data rows of a successful
/// response, and no count where the request failed or was answered with another status.
pub fn query_result(id: String, outcome: &FetchOutcome) -> (result: BuggleResult)
    ensures
        result@ == (ResultView { id: id@, count: outcome_count(*outcome) }),
{
    BuggleResult { id, count: tally_outcome(outcome) }
}

/// In a dry run no plan asks for a request, and no settled result has a count.
pub proof fn lemma_dry_run_plans_no_fetch(q: QuerySpecView, flags: BuggleFlags, accepted: bool)
    requires
        flags.dry_run,
    ensures
        !(plan(q, flags, accepted) is Fetch),
        plan(q, flags, accepted) matches PlanView::Settled { result, .. } ==> result.count is None,
{
}

} // verus!
