use vstd::prelude::*;

use crate::batch::ResultBatch;
use crate::error::ErrorCode;

verus! {

/// What the offload loop must do next.
pub enum OffloadAction {
    /// Run this statement on the engine and report the outcome.
    Execute(String),
    /// Every CTE of the query has been dealt with.
    Finished,
}

/// The statements that an offload run hands to the engine: the text of
/// every CTE that was reconstructed, in list order.
pub open spec fn ok_statements(ctes: Seq<Result<String, ErrorCode>>) -> Seq<String>
    decreases ctes.len(),
{
    if ctes.len() == 0 {
        Seq::empty()
    } else {
        let head = ok_statements(ctes.drop_last());
        match ctes.last() {
            Ok(sql) => head.push(sql),
            Err(_) => head,
        }
    }
}

/// The outcome of each CTE, in list order, given the engine's answers to
/// the handed-out statements in the order they were handed out: a failed
/// reconstruction keeps its error, every other CTE takes the next answer.
pub open spec fn merged(
    ctes: Seq<Result<String, ErrorCode>>,
    answers: Seq<Result<ResultBatch, ErrorCode>>,
) -> Seq<Result<ResultBatch, ErrorCode>>
    decreases ctes.len(),
{
    if ctes.len() == 0 {
        Seq::empty()
    } else {
        match ctes.last() {
            Ok(_) => merged(ctes.drop_last(), answers.drop_last()).push(answers.last()),
            Err(e) => merged(ctes.drop_last(), answers).push(Err(e)),
        }
    }
}

/// No more statements are handed out than there are CTEs.
pub proof fn lemma_ok_statements_len(ctes: Seq<Result<String, ErrorCode>>)
    ensures
        ok_statements(ctes).len() <= ctes.len(),
    decreases ctes.len(),
{
    if ctes.len() > 0 {
        lemma_ok_statements_len(ctes.drop_last());
    }
}

/// The statements of a prefix of the CTEs come first, in the same order,
/// among the statements of all of them.
pub proof fn lemma_ok_statements_prefix(ctes: Seq<Result<String, ErrorCode>>, k: int)
    requires
        0 <= k <= ctes.len(),
    ensures
        ok_statements(ctes.take(k)).len() <= ok_statements(ctes).len(),
        ok_statements(ctes).take(ok_statements(ctes.take(k)).len() as int) == ok_statements(
            ctes.take(k),
        ),
    decreases ctes.len() - k,
{
    if k == ctes.len() {
        assert(ctes.take(k) =~= ctes);
    } else {
        lemma_ok_statements_prefix(ctes, k + 1);
        assert(ctes.take(k + 1).drop_last() =~= ctes.take(k));
        let all = ok_statements(ctes);
        let short = ok_statements(ctes.take(k));
        let long = ok_statements(ctes.take(k + 1));
        assert(all.take(short.len() as int) =~= long.take(short.len() as int));
        assert(long.take(short.len() as int) =~= short);
    }
}

/// The CTE at position `k`, when it was reconstructed, is handed out right
/// after the statements of the CTEs before it, whatever became of those.
pub proof fn lemma_ok_statement_position(ctes: Seq<Result<String, ErrorCode>>, k: int)
    requires
        0 <= k < ctes.len(),
        ctes[k] is Ok,
    ensures
        ok_statements(ctes.take(k)).len() < ok_statements(ctes).len(),
        ok_statements(ctes)[ok_statements(ctes.take(k)).len() as int] == ctes[k]->Ok_0,
{
    lemma_ok_statements_prefix(ctes, k + 1);
    assert(ctes.take(k + 1).drop_last() =~= ctes.take(k));
    assert(ctes.take(k + 1).last() == ctes[k]);
    let all = ok_statements(ctes);
    let short = ok_statements(ctes.take(k));
    let long = ok_statements(ctes.take(k + 1));
    assert(long == short.push(ctes[k]->Ok_0));
    assert(all.take(long.len() as int)[short.len() as int] == long[short.len() as int]);
}

/// One offload attempt over the CTEs of a query.
///
/// Each CTE is handled on its own and in list order: a CTE whose text could
/// not be reconstructed is recorded with its error and skipped, every other
/// one is handed out for execution, whatever became of the ones before it.
/// The run never fails as a whole.
pub struct Offload {
    ctes: Vec<Result<String, ErrorCode>>,
    next: usize,
    pending: bool,
    outcomes: Vec<Result<ResultBatch, ErrorCode>>,
    executed: Ghost<Seq<String>>,
    answers: Ghost<Seq<Result<ResultBatch, ErrorCode>>>,
}

impl Offload {
    /// The CTEs, as reconstructed, in list order.
    pub closed spec fn ctes(&self) -> Seq<Result<String, ErrorCode>> {
        self.ctes@
    }

    /// The outcome recorded for each CTE dealt with so far, in list order.
    pub closed spec fn outcomes(&self) -> Seq<Result<ResultBatch, ErrorCode>> {
        self.outcomes@
    }

    /// The statements handed out for execution so far, in order.
    pub closed spec fn executed(&self) -> Seq<String> {
        self.executed@
    }

    /// The outcomes reported for the handed-out statements, in order.
    pub closed spec fn answers(&self) -> Seq<Result<ResultBatch, ErrorCode>> {
        self.answers@
    }

    /// Whether a statement has been handed out and its outcome is awaited.
    pub closed spec fn awaiting(&self) -> bool {
        self.pending
    }

    /// Whether every CTE has an outcome.
    pub open spec fn finished(&self) -> bool {
        !self.awaiting() && self.outcomes().len() == self.ctes().len()
    }

    /// The run's invariant: outcomes exist for a prefix of the CTEs, a failed
    /// reconstruction keeps its error, exactly the reconstructed statements
    /// of that prefix (and the one awaited) were handed out, and every other
    /// outcome is the answer reported for its statement.
    pub closed spec fn wf(&self) -> bool {
        &&& self.next <= self.ctes@.len()
        &&& self.outcomes@.len() == self.next
        &&& self.pending ==> self.next < self.ctes@.len() && self.ctes@[self.next as int] is Ok
        &&& forall|i: int|
            0 <= i < self.next ==> (#[trigger] self.ctes@[i] matches Err(e)
                ==> self.outcomes@[i] == Err::<ResultBatch, ErrorCode>(e))
        &&& self.executed@ == ok_statements(
            self.ctes@.take(if self.pending { self.next + 1 } else { self.next as int }),
        )
        &&& self.answers@.len() == ok_statements(self.ctes@.take(self.next as int)).len()
        &&& self.outcomes@ == merged(self.ctes@.take(self.next as int), self.answers@)
    }

    /// A run that has dealt with none of `ctes` yet.
    pub fn new(ctes: Vec<Result<String, ErrorCode>>) -> (r: Offload)
        ensures
            r.wf(),
            r.ctes() == ctes@,
            r.outcomes().len() == 0,
            r.executed().len() == 0,
            r.answers().len() == 0,
            !r.awaiting(),
    {
        let r = Offload {
            ctes,
            next: 0,
            pending: false,
            outcomes: Vec::new(),
            executed: Ghost(Seq::empty()),
            answers: Ghost(Seq::empty()),
        };
        assert(r.ctes@.take(0) =~= Seq::<Result<String, ErrorCode>>::empty());
        r
    }

    /// Records the failed reconstructions ahead and hands out the next
    /// statement to run, or reports that the run is over. Nothing is handed
    /// out when no reconstructed CTE is left.
    pub fn next_action(&mut self) -> (a: OffloadAction)
        requires
            old(self).wf(),
            !old(self).awaiting(),
        ensures
            final(self).wf(),
            final(self).ctes() == old(self).ctes(),
            final(self).answers() == old(self).answers(),
            old(self).outcomes().len() <= final(self).outcomes().len(),
            final(self).outcomes().take(old(self).outcomes().len() as int)
                == old(self).outcomes(),
            forall|k: int|
                old(self).outcomes().len() <= k < final(self).outcomes().len() ==> {
                    &&& #[trigger] final(self).ctes()[k] is Err
                    &&& final(self).outcomes()[k] == Err::<ResultBatch, ErrorCode>(
                        final(self).ctes()[k]->Err_0,
                    )
                },
            a matches OffloadAction::Execute(sql) ==> {
                &&& final(self).outcomes().len() < final(self).ctes().len()
                &&& final(self).ctes()[final(self).outcomes().len() as int] == Ok::<
                    String,
                    ErrorCode,
                >(sql)
                &&& final(self).awaiting()
                &&& final(self).executed() == old(self).executed().push(sql)
            },
            a is Finished ==> {
                &&& final(self).finished()
                &&& final(self).executed() == old(self).executed()
            },
            old(self).executed() == ok_statements(old(self).ctes()) ==> a is Finished,
    {
        let ghost start = self.outcomes@;
        let n = self.ctes.len();
        while self.next < n
            invariant
                self.wf(),
                !self.pending,
                n == self.ctes@.len(),
                self.ctes@ == old(self).ctes@,
                self.executed@ == old(self).executed@,
                self.answers@ == old(self).answers@,
                start == old(self).outcomes@,
                start.len() <= self.outcomes@.len(),
                self.outcomes@.take(start.len() as int) == start,
                forall|k: int| start.len() <= k < self.next ==> #[trigger] self.ctes@[k] is Err,
            decreases n - self.next,
        {
            let i = self.next;
            assert(self.ctes@.take(i + 1).drop_last() == self.ctes@.take(i as int));
            match &self.ctes[i] {
                Ok(sql) => {
                    let handed = sql.clone();
                    proof {
                        lemma_ok_statements_prefix(self.ctes@, i + 1);
                    }
                    self.pending = true;
                    self.executed = Ghost(self.executed@.push(handed));
                    return OffloadAction::Execute(handed);
                },
                Err(e) => {
                    let e = *e;
                    assert(self.ctes@.take(i + 1).last() == self.ctes@[i as int]);
                    self.outcomes.push(Err(e));
                    self.next = i + 1;
                    assert(self.outcomes@.take(start.len() as int) =~= start);
                },
            }
        }
        assert(self.ctes@.take(self.next as int) =~= self.ctes@);
        OffloadAction::Finished
    }

    /// Records the outcome of the statement handed out last.
    pub fn report(&mut self, outcome: Result<ResultBatch, ErrorCode>)
        requires
            old(self).wf(),
            old(self).awaiting(),
        ensures
            final(self).wf(),
            !final(self).awaiting(),
            final(self).ctes() == old(self).ctes(),
            final(self).executed() == old(self).executed(),
            final(self).answers() == old(self).answers().push(outcome),
            final(self).outcomes() == old(self).outcomes().push(outcome),
    {
        let n = self.ctes.len();
        let ghost i = self.next as int;
        assert(i < n);
        assert(self.ctes@.take(i + 1).drop_last() == self.ctes@.take(i));
        assert(self.ctes@.take(i + 1).last() == self.ctes@[i]);
        let ghost prior = self.answers@;
        self.outcomes.push(outcome);
        self.answers = Ghost(self.answers@.push(outcome));
        assert(self.answers@.drop_last() =~= prior);
        self.next = self.next + 1;
        self.pending = false;
    }

    /// What a finished run has done: every reconstructed CTE was handed out
    /// once, in list order, whatever the engine answered for the others, and
    /// every CTE has an outcome, failed reconstructions keeping their error.
    pub proof fn lemma_finished_run(&self)
        requires
            self.wf(),
            self.finished(),
        ensures
            self.executed() == ok_statements(self.ctes()),
            self.executed().len() <= self.ctes().len(),
            self.outcomes().len() == self.ctes().len(),
            self.answers().len() == self.executed().len(),
            self.outcomes() == merged(self.ctes(), self.answers()),
            forall|k: int|
                0 <= k < self.ctes().len() ==> (#[trigger] self.ctes()[k] matches Err(e)
                    ==> self.outcomes()[k] == Err::<ResultBatch, ErrorCode>(e)),
            forall|k: int|
                0 <= k < self.ctes().len() && #[trigger] self.ctes()[k] is Ok ==> {
                    &&& ok_statements(self.ctes().take(k)).len() < self.executed().len()
                    &&& self.executed()[ok_statements(self.ctes().take(k)).len() as int]
                        == self.ctes()[k]->Ok_0
                },
    {
        assert(self.ctes@.take(self.next as int) =~= self.ctes@);
        lemma_ok_statements_len(self.ctes@);
        assert forall|k: int| 0 <= k < self.ctes().len() && #[trigger] self.ctes()[k] is Ok implies {
            &&& ok_statements(self.ctes().take(k)).len() < self.executed().len()
            &&& self.executed()[ok_statements(self.ctes().take(k)).len() as int]
                == self.ctes()[k]->Ok_0
        } by {
            lemma_ok_statement_position(self.ctes@, k);
        }
    }

    /// A query without CTEs hands nothing to the engine: a fresh run over
    /// an empty list has already handed out all it ever will, so its first
    /// `next_action` is `Finished`.
    pub proof fn lemma_no_ctes_runs_nothing(&self)
        requires
            self.wf(),
            !self.awaiting(),
            self.ctes().len() == 0,
        ensures
            self.executed().len() == 0,
            self.executed() == ok_statements(self.ctes()),
            self.finished(),
    {
        assert(self.ctes@.take(0) =~= self.ctes@);
    }

    /// Ends the run, handing back one outcome per CTE in list order.
    pub fn into_outcomes(self) -> (r: Vec<Result<ResultBatch, ErrorCode>>)
        ensures
            r@ == self.outcomes(),
    {
        self.outcomes
    }
}

} // verus!
