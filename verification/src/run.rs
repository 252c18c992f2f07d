//! Running a list of queries, one after the other.
//!
//! The run is a small machine. Its driver asks it what to do next, makes the request
//! where one is asked for, and hands the outcome back. The machine makes every
//! decision and keeps the results in the order of the specs.

use crate::flags::BuggleFlags;
use crate::plan::{line_view, plan_query, planned, query_result, PlanView, QueryPlan};
use crate::query::{kind_of, QuerySpec, QuerySpecView};
use crate::report::{BuggleResult, ResultView};
use crate::tally::{outcome_count, FetchOutcome};
use vstd::prelude::*;

verus! {

/// What the driver of a run is to do next.
#[derive(Clone, Debug, PartialEq, Eq)]
pub enum Action {
    /// Every spec has been dealt with: the results can be taken.
    Done,
    /// A spec was dealt with and needed no request. Show the line, if there is one, and
    /// ask again.
    Proceed { diagnostic: Option<String> },
    /// Show the line, if there is one, make a GET of `url`, and deliver its outcome.
    Fetch { diagnostic: Option<String>, url: String },
}

/// An action as plain values.
pub enum ActionView {
    Done,
    Proceed { diagnostic: Option<Seq<char>> },
    Fetch { diagnostic: Option<Seq<char>>, url: Seq<char> },
}

impl View for Action {
    type V = ActionView;

    open spec fn view(&self) -> ActionView {
        match *self {
            Action::Done => ActionView::Done,
            Action::Proceed { diagnostic } => ActionView::Proceed {
                diagnostic: line_view(diagnostic),
            },
            Action::Fetch { diagnostic, url } => ActionView::Fetch {
                diagnostic: line_view(diagnostic),
                url: url@,
            },
        }
    }
}

/// The state of a run as plain values.
pub struct RunView {
    /// The specs, in the order in which they are run.
    pub specs: Seq<QuerySpecView>,
    pub flags: BuggleFlags,
    /// How many specs have been dealt with.
    pub cursor: nat,
    /// Whether the outcome of a request for the spec at the cursor is awaited.
    pub awaiting: bool,
    /// The results so far.
    pub results: Seq<ResultView>,
}

/// The state before the first step.
pub open spec fn start(specs: Seq<QuerySpecView>, flags: BuggleFlags) -> RunView {
    RunView { specs, flags, cursor: 0, awaiting: false, results: Seq::empty() }
}

/// Whether every spec has been dealt with.
pub open spec fn finished(s: RunView) -> bool {
    s.cursor >= s.specs.len()
}

/// The action that the state calls for.
pub open spec fn action_of(s: RunView) -> ActionView {
    if finished(s) {
        ActionView::Done
    } else {
        match planned(s.specs[s.cursor as int], s.flags) {
            PlanView::Skip { notice } => ActionView::Proceed { diagnostic: Some(notice) },
            PlanView::Settled { diagnostic, .. } => ActionView::Proceed { diagnostic },
            PlanView::Fetch { diagnostic, url } => ActionView::Fetch { diagnostic, url },
        }
    }
}

/// The state after the driver has asked what to do: a spec that needs no request is
/// dealt with at once, one that needs a request waits for its outcome.
pub open spec fn advance(s: RunView) -> RunView {
    if finished(s) {
        s
    } else {
        match planned(s.specs[s.cursor as int], s.flags) {
            PlanView::Skip { .. } => RunView { cursor: s.cursor + 1, ..s },
            PlanView::Settled { result, .. } => RunView {
                cursor: s.cursor + 1,
                results: s.results.push(result),
                ..s
            },
            PlanView::Fetch { .. } => RunView { awaiting: true, ..s },
        }
    }
}

/// The state after an outcome that stands for `count` has been delivered. Where none is
/// awaited the state stays as it is.
pub open spec fn deliver(s: RunView, count: Option<nat>) -> RunView {
    if s.awaiting && !finished(s) {
        RunView {
            cursor: s.cursor + 1,
            awaiting: false,
            results: s.results.push(ResultView { id: s.specs[s.cursor as int].name, count }),
            ..s
        }
    } else {
        s
    }
}

/// The names of the specs whose kind is known, in order: the specs that get a result.
pub open spec fn answered_names(specs: Seq<QuerySpecView>) -> Seq<Seq<char>>
    decreases specs.len(),
{
    if specs.len() == 0 {
        Seq::empty()
    } else {
        let before = answered_names(specs.drop_last());
        if kind_of(specs.last().kind) is Some {
            before.push(specs.last().name)
        } else {
            before
        }
    }
}

/// The number of specs whose kind is not known.
pub open spec fn skipped_count(specs: Seq<QuerySpecView>) -> nat
    decreases specs.len(),
{
    if specs.len() == 0 {
        0
    } else {
        skipped_count(specs.drop_last()) + if kind_of(specs.last().kind) is None {
            1nat
        } else {
            0nat
        }
    }
}

/// The names of a list of results, in order.
pub open spec fn result_names(results: Seq<ResultView>) -> Seq<Seq<char>> {
    Seq::new(results.len(), |i: int| results[i].id)
}

/// Whether no result has a count.
pub open spec fn all_unknown(results: Seq<ResultView>) -> bool {
    forall|i: int| 0 <= i < results.len() ==> (#[trigger] results[i]).count is None
}

/// What holds of every state that a run reaches: the results are those of the specs
/// dealt with, one for each spec of known kind and in the same order; an outcome is
/// awaited only for a spec that asked for a request; a dry run awaits nothing and knows
/// no count.
pub open spec fn inv(s: RunView) -> bool {
    &&& s.cursor <= s.specs.len()
    &&& s.awaiting ==> !finished(s) && planned(s.specs[s.cursor as int], s.flags) is Fetch
    &&& result_names(s.results) == answered_names(s.specs.take(s.cursor as int))
    &&& s.flags.dry_run ==> !s.awaiting && all_unknown(s.results)
}

/// A run starts in a state of which the invariant holds.
pub proof fn lemma_start_inv(specs: Seq<QuerySpecView>, flags: BuggleFlags)
    ensures
        inv(start(specs, flags)),
{
    assert(result_names(Seq::<ResultView>::empty()) == Seq::<Seq<char>>::empty());
    assert(specs.take(0) == Seq::<QuerySpecView>::empty());
}

/// Asking what to do next keeps the invariant.
pub proof fn lemma_advance_inv(s: RunView)
    requires
        inv(s),
    ensures
        inv(advance(s)),
{
    if !finished(s) {
        let q = s.specs[s.cursor as int];
        let t = advance(s);
        assert(s.specs.take(s.cursor as int + 1).drop_last() == s.specs.take(s.cursor as int));
        match planned(q, s.flags) {
            PlanView::Skip { .. } => {},
            PlanView::Settled { result, .. } => {
                assert(result_names(t.results) == result_names(s.results).push(q.name));
            },
            PlanView::Fetch { .. } => {},
        }
    }
}

/// Delivering an outcome keeps the invariant.
pub proof fn lemma_deliver_inv(s: RunView, count: Option<nat>)
    requires
        inv(s),
    ensures
        inv(deliver(s, count)),
{
    if s.awaiting && !finished(s) {
        let q = s.specs[s.cursor as int];
        let t = deliver(s, count);
        assert(s.specs.take(s.cursor as int + 1).drop_last() == s.specs.take(s.cursor as int));
        assert(result_names(t.results) == result_names(s.results).push(q.name));
    }
}

/// Every spec is either answered or skipped.
pub proof fn lemma_answered_or_skipped(specs: Seq<QuerySpecView>)
    ensures
        answered_names(specs).len() + skipped_count(specs) == specs.len(),
    decreases specs.len(),
{
    if specs.len() > 0 {
        lemma_answered_or_skipped(specs.drop_last());
    }
}

/// When a run is over there is one result for each spec of known kind, under that
/// spec's name and in the order of the specs: as many results as specs, less the
/// skipped ones.
pub proof fn lemma_finished_run_keeps_order(s: RunView)
    requires
        inv(s),
        finished(s),
    ensures
        result_names(s.results) == answered_names(s.specs),
        s.results.len() + skipped_count(s.specs) == s.specs.len(),
{
    assert(s.specs.take(s.cursor as int) == s.specs);
    lemma_answered_or_skipped(s.specs);
    assert(result_names(s.results).len() == s.results.len());
}

/// A dry run never asks for a request, and none of its results has a count.
pub proof fn lemma_dry_run_makes_no_request(s: RunView)
    requires
        inv(s),
        s.flags.dry_run,
    ensures
        !(action_of(s) is Fetch),
        all_unknown(s.results),
        all_unknown(advance(s).results),
{
    lemma_advance_inv(s);
}

/// A run of a list of query specs.
pub struct Aggregator {
    specs: Vec<QuerySpec>,
    flags: BuggleFlags,
    cursor: usize,
    awaiting: bool,
    results: Vec<BuggleResult>,
}

impl View for Aggregator {
    type V = RunView;

    closed spec fn view(&self) -> RunView {
        RunView {
            specs: self.specs.deep_view(),
            flags: self.flags,
            cursor: self.cursor as nat,
            awaiting: self.awaiting,
            results: self.results.deep_view(),
        }
    }
}

impl Aggregator {
    /// A run of `specs` under `flags`, before its first step.
    pub fn new(specs: Vec<QuerySpec>, flags: BuggleFlags) -> (run: Aggregator)
        ensures
            run@ == start(specs.deep_view(), flags),
            inv(run@),
    {
        let run = Aggregator { specs, flags, cursor: 0, awaiting: false, results: Vec::new() };
        proof {
            assert(run.results.deep_view() == Seq::<ResultView>::empty());
            lemma_start_inv(specs.deep_view(), flags);
        }
        run
    }

    /// Whether the outcome of a request is awaited.
    pub fn is_awaiting(&self) -> (awaiting: bool)
        ensures
            awaiting == self@.awaiting,
    {
        self.awaiting
    }

    /// Whether every spec has been dealt with.
    pub fn is_finished(&self) -> (done: bool)
        ensures
            done == finished(self@),
    {
        self.cursor >= self.specs.len()
    }

    /// Says what to do next, and deals with the spec at the cursor where it needs no
    /// request. While an outcome is awaited the answer stays the same request.
    pub fn next_action(&mut self) -> (action: Action)
        requires
            inv(old(self)@),
        ensures
            action@ == action_of(old(self)@),
            final(self)@ == advance(old(self)@),
            inv(final(self)@),
            old(self)@.flags.dry_run ==> !(action is Fetch),
    {
        proof {
            lemma_advance_inv(self@);
        }
        if self.cursor >= self.specs.len() {
            return Action::Done;
        }
        let ghost before = self@;
        let p = plan_query(&self.specs[self.cursor], &self.flags);
        assert(self.specs.deep_view()[self.cursor as int] == self.specs[self.cursor as int]@);
        match p {
            QueryPlan::Skip { notice } => {
                self.cursor = self.cursor + 1;
                Action::Proceed { diagnostic: Some(notice) }
            },
            QueryPlan::Settled { diagnostic, result } => {
                self.results.push(result);
                self.cursor = self.cursor + 1;
                assert(self.results.deep_view() == before.results.push(result@));
                Action::Proceed { diagnostic }
            },
            QueryPlan::Fetch { diagnostic, url } => {
                self.awaiting = true;
                Action::Fetch { diagnostic, url }
            },
        }
    }

    /// Takes the outcome of the request that was asked for, and files the result under
    /// the name of the spec at the cursor. Where no outcome is awaited nothing changes.
    pub fn deliver(&mut self, outcome: &FetchOutcome)
        requires
            inv(old(self)@),
        ensures
            final(self)@ == deliver(old(self)@, outcome_count(*outcome)),
            inv(final(self)@),
    {
        proof {
            lemma_deliver_inv(self@, outcome_count(*outcome));
        }
        if self.awaiting && self.cursor < self.specs.len() {
            let ghost before = self@;
            let result = query_result(self.specs[self.cursor].name.clone(), outcome);
            assert(self.specs.deep_view()[self.cursor as int] == self.specs[self.cursor as int]@);
            self.results.push(result);
            self.cursor = self.cursor + 1;
            self.awaiting = false;
            assert(self.results.deep_view() == before.results.push(result@));
        }
    }

    /// Ends the run and hands out its results, in the order of the specs.
    pub fn into_results(self) -> (results: Vec<BuggleResult>)
        ensures
            results.deep_view() == self@.results,
            inv(self@) && finished(self@) ==> result_names(results.deep_view())
                == answered_names(self@.specs) && results.len() + skipped_count(self@.specs)
                == self@.specs.len(),
            inv(self@) && self@.flags.dry_run ==> all_unknown(results.deep_view()),
    {
        proof {
            if inv(self@) && finished(self@) {
                lemma_finished_run_keeps_order(self@);
            }
        }
        self.results
    }
}

} // verus!
