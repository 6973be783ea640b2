//! Scenario scripts and the run that performs them: each call of `Run::step` takes the
//! answer to the last action and says what the network is to do next.
use vstd::prelude::*;
use crate::block::Digest;
use crate::block::Tamper;
use crate::failure::Failure;
use crate::status::TxState;
use crate::status::is_committed;
use crate::status::is_pending;

verus! {

/// Work for the network of test nodes; nodes are named by their index.
#[derive(Clone, Copy, PartialEq, Eq, Structural, Debug)]
pub enum Action {
    /// `node` mines `count` blocks on its tip.
    GenerateBlocks { node: usize, count: u64 },
    /// `node` connects to `peer`.
    Connect { node: usize, peer: usize },
    /// `node` disconnects from `peer`.
    Disconnect { node: usize, peer: usize },
    /// Every node disconnects from every other.
    DisconnectAll,
    /// Wait until `node` and `peer` both have their tip at height `number`.
    WaitForSync { node: usize, peer: usize, number: u64 },
    /// Wait until every node has its tip at height `number`.
    WaitForSyncAll { number: u64 },
    /// `node` connects to `peer` and waits until it bans `peer`.
    ConnectAndWaitBan { node: usize, peer: usize },
    /// The first node mines a block and every node is given it, so that none stays in
    /// initial block download.
    ExitIbdMode,
    /// Wait `millis` milliseconds.
    Sleep { millis: u64 },
    /// `node` builds a transaction spending its tip's cellbase; it becomes the scenario's
    /// transaction.
    NewSpendingTransaction { node: usize },
    /// `node` builds a transaction spending an output of the transaction `tx_hash`; it
    /// becomes the scenario's transaction.
    NewTransactionSpending { node: usize, tx_hash: Digest },
    /// `node` is given the scenario's transaction.
    SubmitTransaction { node: usize },
    /// `node` builds a block template, which becomes the block the scenario holds for it.
    NewBlock { node: usize },
    /// The block the scenario holds for `node`, altered as `tamper` says (see
    /// `prepare_block`), is handed to `node`, to be verified or not.
    SubmitBlock { node: usize, tamper: Tamper, verify: bool },
    /// `node` builds a block template, from which the scenario's uncle is made (see
    /// `construct_uncle`).
    ConstructUncle { node: usize },
    /// `node` is given the scenario's uncle.
    SubmitUncle { node: usize },
    /// `node` builds a block template naming the scenario's uncle, two milliseconds after
    /// the block the scenario holds for `after` where that is given (see `fork_with_uncle`);
    /// it becomes the block the scenario holds for `node`.
    NewBlockWithUncle { node: usize, after: Option<usize> },
    /// Ask `node` the height of its tip; the answer is a `Number`.
    QueryTipNumber { node: usize },
    /// Ask `node` the finalization delay length of its consensus; the answer is a `Number`.
    QueryFinalizationDelayLength { node: usize },
    /// Ask `node` the hash of its header at height `number`; the answer is a `Header`.
    QueryHeaderHash { node: usize, number: u64 },
    /// Ask `node` the status of the scenario's transaction; the answer is a `Status`.
    QueryTransactionStatus { node: usize },
    /// `to` is given the block of `from` at height `number`.
    CopyBlock { from: usize, to: usize, number: u64 },
    /// The scenario passed.
    Finish,
    /// The scenario failed.
    Fail(Failure),
}

/// What the network answers to the last action.
#[derive(Clone, Copy, PartialEq, Eq, Structural, Debug)]
pub enum Answer {
    /// The action is done, and it asked for nothing.
    Ack,
    /// A height or a length.
    Number(u64),
    /// A header hash, or `None` where the node has no header at that height.
    Header(Option<Digest>),
    /// A transaction status, or `None` where the node does not know the transaction.
    Status(Option<TxState>),
}

/// What the scenario expects a node to report of its transaction.
#[derive(Clone, Copy, PartialEq, Eq, Structural, Debug)]
pub enum Expectation {
    /// The node does not know the transaction.
    Absent,
    /// The node knows the transaction, whatever its status.
    Present,
    /// The transaction is committed to the node's canonical chain.
    Committed,
    /// The transaction is pending in the node's pool.
    Pending,
}

/// A line of a scenario script.
#[derive(Clone, Copy, PartialEq, Eq, Structural, Debug)]
pub enum Step {
    /// Work that asks for no answer.
    Do(Action),
    /// The tip of `node` must be at height `number`.
    ExpectTipNumber { node: usize, number: u64 },
    /// Wait until every node has its tip at the height of the tip of `node`.
    WaitForSyncAllAtTipOf { node: usize },
    /// Remember the finalization delay length of `node`.
    LoadFinalizationDelayLength { node: usize },
    /// Remember the height of the tip of `node` as the fixed point.
    LoadFixedPoint { node: usize },
    /// `node` mines `times` times the finalization delay length plus `extra` blocks.
    GenerateFinalizationBlocks { node: usize, times: u64, extra: u64 },
    /// What `node` reports of the scenario's transaction must meet `expected`.
    ExpectTransaction { node: usize, expected: Expectation },
    /// The first three nodes must have three different headers at height `number`.
    ExpectDistinctHeaders { number: u64 },
    /// `to` is given each block of `from` from the fixed point up to the tip of `from`.
    CopyChain { from: usize, to: usize },
}

/// Where a run stands.
#[derive(Clone, Copy, PartialEq, Eq, Structural, Debug)]
pub enum Outcome {
    Running,
    Finished,
    Failed(Failure),
}

/// The state of a run: the step it is at, how far into that step (`phase` 0: not begun),
/// what it remembered, and its outcome.
#[derive(Clone, Copy, PartialEq, Eq, Structural, Debug)]
pub struct Run {
    pub pc: usize,
    pub phase: u8,
    pub finalization: u64,
    pub fixed_point: u64,
    pub cursor: u64,
    pub last: u64,
    pub first_hash: Digest,
    pub second_hash: Digest,
    pub outcome: Outcome,
}

/// The state of a run that has not begun.
pub open spec fn initial_run() -> Run {
    Run {
        pc: 0,
        phase: 0,
        finalization: 0,
        fixed_point: 0,
        cursor: 0,
        last: 0,
        first_hash: Digest(0, 0, 0, 0),
        second_hash: Digest(0, 0, 0, 0),
        outcome: Outcome::Running,
    }
}

/// The run failing with `failure`.
pub open spec fn fail(run: Run, failure: Failure) -> (Run, Action) {
    (Run { outcome: Outcome::Failed(failure), ..run }, Action::Fail(failure))
}

/// The run moved to the start of the next step.
pub open spec fn next_step(run: Run) -> Run {
    Run { pc: (run.pc + 1) as usize, phase: 0, ..run }
}

/// The first action of the step at `run.pc`, or `Finish` past the last step.
pub open spec fn begin(script: Seq<Step>, run: Run) -> (Run, Action) {
    if run.pc >= script.len() {
        (Run { outcome: Outcome::Finished, ..run }, Action::Finish)
    } else {
        match script[run.pc as int] {
            Step::Do(action) => (next_step(run), action),
            Step::ExpectTipNumber { node, number } => (
                Run { phase: 1, ..run },
                Action::QueryTipNumber { node },
            ),
            Step::WaitForSyncAllAtTipOf { node } => (
                Run { phase: 1, ..run },
                Action::QueryTipNumber { node },
            ),
            Step::LoadFinalizationDelayLength { node } => (
                Run { phase: 1, ..run },
                Action::QueryFinalizationDelayLength { node },
            ),
            Step::LoadFixedPoint { node } => (
                Run { phase: 1, ..run },
                Action::QueryTipNumber { node },
            ),
            Step::GenerateFinalizationBlocks { node, times, extra } => {
                let count = extra + times * run.finalization;
                if count <= u64::MAX {
                    (next_step(run), Action::GenerateBlocks { node, count: count as u64 })
                } else {
                    fail(run, Failure::ArithmeticOverflow)
                }
            },
            Step::ExpectTransaction { node, expected } => (
                Run { phase: 1, ..run },
                Action::QueryTransactionStatus { node },
            ),
            Step::ExpectDistinctHeaders { number } => (
                Run { phase: 1, ..run },
                Action::QueryHeaderHash { node: 0, number },
            ),
            Step::CopyChain { from, to } => (
                Run { phase: 1, ..run },
                Action::QueryTipNumber { node: from },
            ),
        }
    }
}

/// Whether a reported status meets an expectation.
pub open spec fn meets(expected: Expectation, status: Option<TxState>) -> bool {
    match expected {
        Expectation::Absent => status is None,
        Expectation::Present => status is Some,
        Expectation::Committed => status == Some(TxState::Committed),
        Expectation::Pending => status == Some(TxState::Pending),
    }
}

/// The failure for a status that does not meet an expectation (a known transaction always
/// meets `Present`, so for it only `None` fails).
pub open spec fn status_failure(node: usize, expected: Expectation, status: Option<TxState>) -> Failure {
    match status {
        None => Failure::TransactionMissing { node },
        Some(reported) => match expected {
            Expectation::Absent => Failure::TransactionPresent { node },
            Expectation::Present => Failure::TransactionMissing { node },
            Expectation::Committed => Failure::UnexpectedStatus {
                node,
                wanted: TxState::Committed,
                reported,
            },
            Expectation::Pending => Failure::UnexpectedStatus {
                node,
                wanted: TxState::Pending,
                reported,
            },
        },
    }
}

/// What a begun step does with the answer to its last action.
pub open spec fn resume(script: Seq<Step>, run: Run, answer: Answer) -> (Run, Action)
    recommends
        run.pc < script.len(),
{
    match script[run.pc as int] {
        Step::ExpectTipNumber { node, number } => match answer {
            Answer::Number(actual) => if actual == number {
                begin(script, next_step(run))
            } else {
                fail(run, Failure::TipNumberMismatch { node, expected: number, actual })
            },
            _ => fail(run, Failure::UnexpectedAnswer),
        },
        Step::WaitForSyncAllAtTipOf { node } => match answer {
            Answer::Number(number) => (next_step(run), Action::WaitForSyncAll { number }),
            _ => fail(run, Failure::UnexpectedAnswer),
        },
        Step::LoadFinalizationDelayLength { node } => match answer {
            Answer::Number(length) => begin(
                script,
                next_step(Run { finalization: length, ..run }),
            ),
            _ => fail(run, Failure::UnexpectedAnswer),
        },
        Step::LoadFixedPoint { node } => match answer {
            Answer::Number(number) => begin(
                script,
                next_step(Run { fixed_point: number, ..run }),
            ),
            _ => fail(run, Failure::UnexpectedAnswer),
        },
        Step::ExpectTransaction { node, expected } => match answer {
            Answer::Status(status) => if meets(expected, status) {
                begin(script, next_step(run))
            } else {
                fail(run, status_failure(node, expected, status))
            },
            _ => fail(run, Failure::UnexpectedAnswer),
        },
        Step::ExpectDistinctHeaders { number } => match answer {
            Answer::Header(None) => fail(
                run,
                Failure::HeaderMissing { node: (run.phase - 1) as usize, number },
            ),
            Answer::Header(Some(hash)) => if run.phase == 1 {
                (
                    Run { phase: 2, first_hash: hash, ..run },
                    Action::QueryHeaderHash { node: 1, number },
                )
            } else if run.phase == 2 {
                (
                    Run { phase: 3, second_hash: hash, ..run },
                    Action::QueryHeaderHash { node: 2, number },
                )
            } else if run.first_hash != run.second_hash && run.first_hash != hash
                && run.second_hash != hash {
                begin(script, next_step(run))
            } else {
                fail(run, Failure::SameHeaderHashes { number })
            },
            _ => fail(run, Failure::UnexpectedAnswer),
        },
        Step::CopyChain { from, to } => if run.phase == 1 {
            match answer {
                Answer::Number(last) => if run.fixed_point <= last {
                    (
                        Run { phase: 2, last, cursor: run.fixed_point, ..run },
                        Action::CopyBlock { from, to, number: run.fixed_point },
                    )
                } else {
                    begin(script, next_step(run))
                },
                _ => fail(run, Failure::UnexpectedAnswer),
            }
        } else if run.cursor < run.last {
            (
                Run { cursor: (run.cursor + 1) as u64, ..run },
                Action::CopyBlock { from, to, number: (run.cursor + 1) as u64 },
            )
        } else {
            begin(script, next_step(run))
        },
        _ => begin(script, next_step(run)),
    }
}

/// One move of a run: the state after it and the action it asks for.
pub open spec fn advance(script: Seq<Step>, run: Run, answer: Answer) -> (Run, Action) {
    match run.outcome {
        Outcome::Finished => (run, Action::Finish),
        Outcome::Failed(failure) => (run, Action::Fail(failure)),
        Outcome::Running => if run.phase == 0 || run.pc >= script.len() {
            begin(script, Run { phase: 0, ..run })
        } else {
            resume(script, run, answer)
        },
    }
}

impl Run {
    /// A run that has not begun.
    pub fn new() -> (r: Run)
        ensures
            r == initial_run(),
    {
        Run {
            pc: 0,
            phase: 0,
            finalization: 0,
            fixed_point: 0,
            cursor: 0,
            last: 0,
            first_hash: Digest(0, 0, 0, 0),
            second_hash: Digest(0, 0, 0, 0),
            outcome: Outcome::Running,
        }
    }

    fn fail_with(&mut self, failure: Failure) -> (action: Action)
        ensures
            (*final(self), action) == fail(*old(self), failure),
    {
        self.outcome = Outcome::Failed(failure);
        Action::Fail(failure)
    }

    fn begin_step(&mut self, script: &Vec<Step>) -> (action: Action)
        ensures
            (*final(self), action) == begin(script@, *old(self)),
    {
        if self.pc >= script.len() {
            self.outcome = Outcome::Finished;
            return Action::Finish;
        }
        match script[self.pc] {
            Step::Do(action) => {
                self.pc = self.pc + 1;
                self.phase = 0;
                action
            },
            Step::ExpectTipNumber { node, number } => {
                self.phase = 1;
                Action::QueryTipNumber { node }
            },
            Step::WaitForSyncAllAtTipOf { node } => {
                self.phase = 1;
                Action::QueryTipNumber { node }
            },
            Step::LoadFinalizationDelayLength { node } => {
                self.phase = 1;
                Action::QueryFinalizationDelayLength { node }
            },
            Step::LoadFixedPoint { node } => {
                self.phase = 1;
                Action::QueryTipNumber { node }
            },
            Step::GenerateFinalizationBlocks { node, times, extra } => {
                match times.checked_mul(self.finalization) {
                    Some(product) => match extra.checked_add(product) {
                        Some(count) => {
                            self.pc = self.pc + 1;
                            self.phase = 0;
                            Action::GenerateBlocks { node, count }
                        },
                        None => self.fail_with(Failure::ArithmeticOverflow),
                    },
                    None => {
                        assert(times * self.finalization > u64::MAX);
                        assert(extra + times * self.finalization > u64::MAX);
                        self.fail_with(Failure::ArithmeticOverflow)
                    },
                }
            },
            Step::ExpectTransaction { node, expected } => {
                self.phase = 1;
                Action::QueryTransactionStatus { node }
            },
            Step::ExpectDistinctHeaders { number } => {
                self.phase = 1;
                Action::QueryHeaderHash { node: 0, number }
            },
            Step::CopyChain { from, to } => {
                self.phase = 1;
                Action::QueryTipNumber { node: from }
            },
        }
    }

    fn check_status(&mut self, script: &Vec<Step>, node: usize, expected: Expectation, status: Option<TxState>) -> (action: Action)
        requires
            old(self).pc < script.len(),
            old(self).outcome == Outcome::Running,
        ensures
            meets(expected, status) ==> (*final(self), action) == begin(script@, next_step(*old(self))),
            !meets(expected, status) ==> (*final(self), action) == fail(*old(self), status_failure(node, expected, status)),
    {
        let met = match status {
            None => match expected {
                Expectation::Absent => true,
                _ => false,
            },
            Some(reported) => match expected {
                Expectation::Absent => false,
                Expectation::Present => true,
                Expectation::Committed => is_committed(reported),
                Expectation::Pending => is_pending(reported),
            },
        };
        if met {
            self.pc = self.pc + 1;
            self.phase = 0;
            self.begin_step(script)
        } else {
            let failure = match status {
                None => Failure::TransactionMissing { node },
                Some(reported) => match expected {
                    Expectation::Absent => Failure::TransactionPresent { node },
                    Expectation::Present => Failure::TransactionMissing { node },
                    Expectation::Committed => Failure::UnexpectedStatus {
                        node,
                        wanted: TxState::Committed,
                        reported,
                    },
                    Expectation::Pending => Failure::UnexpectedStatus {
                        node,
                        wanted: TxState::Pending,
                        reported,
                    },
                },
            };
            self.fail_with(failure)
        }
    }

    fn resume_step(&mut self, script: &Vec<Step>, answer: Answer) -> (action: Action)
        requires
            old(self).pc < script.len(),
            old(self).outcome == Outcome::Running,
            old(self).phase > 0,
        ensures
            (*final(self), action) == resume(script@, *old(self), answer),
    {
        match script[self.pc] {
            Step::ExpectTipNumber { node, number } => match answer {
                Answer::Number(actual) => {
                    if actual == number {
                        self.pc = self.pc + 1;
                        self.phase = 0;
                        self.begin_step(script)
                    } else {
                        self.fail_with(Failure::TipNumberMismatch { node, expected: number, actual })
                    }
                },
                _ => self.fail_with(Failure::UnexpectedAnswer),
            },
            Step::WaitForSyncAllAtTipOf { node } => match answer {
                Answer::Number(number) => {
                    self.pc = self.pc + 1;
                    self.phase = 0;
                    Action::WaitForSyncAll { number }
                },
                _ => self.fail_with(Failure::UnexpectedAnswer),
            },
            Step::LoadFinalizationDelayLength { node } => match answer {
                Answer::Number(length) => {
                    self.finalization = length;
                    self.pc = self.pc + 1;
                    self.phase = 0;
                    self.begin_step(script)
                },
                _ => self.fail_with(Failure::UnexpectedAnswer),
            },
            Step::LoadFixedPoint { node } => match answer {
                Answer::Number(number) => {
                    self.fixed_point = number;
                    self.pc = self.pc + 1;
                    self.phase = 0;
                    self.begin_step(script)
                },
                _ => self.fail_with(Failure::UnexpectedAnswer),
            },
            Step::ExpectTransaction { node, expected } => match answer {
                Answer::Status(status) => self.check_status(script, node, expected, status),
                _ => self.fail_with(Failure::UnexpectedAnswer),
            },
            Step::ExpectDistinctHeaders { number } => match answer {
                Answer::Header(None) => {
                    let node = (self.phase - 1) as usize;
                    self.fail_with(Failure::HeaderMissing { node, number })
                },
                Answer::Header(Some(hash)) => {
                    if self.phase == 1 {
                        self.phase = 2;
                        self.first_hash = hash;
                        Action::QueryHeaderHash { node: 1, number }
                    } else if self.phase == 2 {
                        self.phase = 3;
                        self.second_hash = hash;
                        Action::QueryHeaderHash { node: 2, number }
                    } else if self.first_hash != self.second_hash && self.first_hash != hash
                        && self.second_hash != hash {
                        self.pc = self.pc + 1;
                        self.phase = 0;
                        self.begin_step(script)
                    } else {
                        self.fail_with(Failure::SameHeaderHashes { number })
                    }
                },
                _ => self.fail_with(Failure::UnexpectedAnswer),
            },
            Step::CopyChain { from, to } => {
                if self.phase == 1 {
                    match answer {
                        Answer::Number(last) => {
                            if self.fixed_point <= last {
                                self.phase = 2;
                                self.last = last;
                                self.cursor = self.fixed_point;
                                Action::CopyBlock { from, to, number: self.fixed_point }
                            } else {
                                self.pc = self.pc + 1;
                                self.phase = 0;
                                self.begin_step(script)
                            }
                        },
                        _ => self.fail_with(Failure::UnexpectedAnswer),
                    }
                } else if self.cursor < self.last {
                    self.cursor = self.cursor + 1;
                    Action::CopyBlock { from, to, number: self.cursor }
                } else {
                    self.pc = self.pc + 1;
                    self.phase = 0;
                    self.begin_step(script)
                }
            },
            _ => {
                self.pc = self.pc + 1;
                self.phase = 0;
                self.begin_step(script)
            },
        }
    }

    /// One move of the run: takes the answer to the last action (anything, before the first
    /// move) and returns the next action; a finished or failed run keeps saying so.
    pub fn step(&mut self, script: &Vec<Step>, answer: Answer) -> (action: Action)
        ensures
            (*final(self), action) == advance(script@, *old(self), answer),
    {
        match self.outcome {
            Outcome::Finished => Action::Finish,
            Outcome::Failed(failure) => Action::Fail(failure),
            Outcome::Running => {
                if self.phase == 0 || self.pc >= script.len() {
                    self.phase = 0;
                    self.begin_step(script)
                } else {
                    self.resume_step(script, answer)
                }
            },
        }
    }
}


/// The actions a run asks for, from `run` on, when the network answers with `answers`
/// (one action for each answer).
pub open spec fn replay(script: Seq<Step>, run: Run, answers: Seq<Answer>) -> Seq<Action>
    decreases answers.len(),
{
    if answers.len() == 0 {
        Seq::empty()
    } else {
        let (after, action) = advance(script, run, answers[0]);
        seq![action] + replay(script, after, answers.drop_first())
    }
}

/// Whether every step of a script is plain work.
pub open spec fn all_plain(script: Seq<Step>) -> bool {
    forall|i: int| 0 <= i < script.len() ==> #[trigger] script[i] is Do
}

/// The actions of a script of plain steps.
pub open spec fn plain_actions(script: Seq<Step>) -> Seq<Action> {
    script.map_values(|step: Step| step->Do_0)
}

proof fn lemma_plain_from(script: Seq<Step>, run: Run, answers: Seq<Answer>)
    requires
        script.len() <= usize::MAX,
        all_plain(script),
        run.outcome == Outcome::Running,
        run.phase == 0,
        run.pc <= script.len(),
        answers.len() == script.len() - run.pc + 1,
    ensures
        replay(script, run, answers) == plain_actions(script).skip(run.pc as int).push(
            Action::Finish,
        ),
    decreases answers.len(),
{
    let (after, action) = advance(script, run, answers[0]);
    if run.pc == script.len() {
        assert(replay(script, after, answers.drop_first()) == Seq::<Action>::empty());
        assert(replay(script, run, answers) =~= plain_actions(script).skip(run.pc as int).push(
            Action::Finish,
        ));
    } else {
        assert(script[run.pc as int] is Do);
        lemma_plain_from(script, after, answers.drop_first());
        assert(replay(script, run, answers) =~= plain_actions(script).skip(run.pc as int).push(
            Action::Finish,
        ));
    }
}

/// A script of plain work is performed as written: whatever the network answers, the run
/// asks for the script's actions, in order, and then finishes.
pub proof fn plain_script_is_performed_in_order(script: Seq<Step>, answers: Seq<Answer>)
    requires
        script.len() <= usize::MAX,
        all_plain(script),
        answers.len() == script.len() + 1,
    ensures
        replay(script, initial_run(), answers) == plain_actions(script).push(Action::Finish),
{
    lemma_plain_from(script, initial_run(), answers);
    assert(plain_actions(script).skip(0) =~= plain_actions(script));
}

/// A failed run stays failed: whatever the network answers, it keeps reporting the same
/// failure.
pub proof fn failure_is_final(script: Seq<Step>, run: Run, failure: Failure, answers: Seq<Answer>)
    requires
        run.outcome == Outcome::Failed(failure),
    ensures
        replay(script, run, answers) == Seq::new(answers.len(), |i: int| Action::Fail(failure)),
    decreases answers.len(),
{
    if answers.len() > 0 {
        failure_is_final(script, run, failure, answers.drop_first());
    }
    assert(replay(script, run, answers) =~= Seq::new(
        answers.len(),
        |i: int| Action::Fail(failure),
    ));
}

/// A finished run stays finished, whatever the network answers.
pub proof fn finish_is_final(script: Seq<Step>, run: Run, answers: Seq<Answer>)
    requires
        run.outcome == Outcome::Finished,
    ensures
        replay(script, run, answers) == Seq::new(answers.len(), |i: int| Action::Finish),
    decreases answers.len(),
{
    if answers.len() > 0 {
        finish_is_final(script, run, answers.drop_first());
    }
    assert(replay(script, run, answers) =~= Seq::new(answers.len(), |i: int| Action::Finish));
}

proof fn lemma_copy_rest(script: Seq<Step>, run: Run, answers: Seq<Answer>)
    requires
        run.outcome == Outcome::Running,
        run.pc < script.len(),
        script[run.pc as int] is CopyChain,
        run.phase == 2,
        run.cursor <= run.last,
        answers.len() == run.last - run.cursor,
    ensures
        replay(script, run, answers) == Seq::new(
            answers.len(),
            |i: int|
                Action::CopyBlock {
                    from: script[run.pc as int]->CopyChain_from,
                    to: script[run.pc as int]->CopyChain_to,
                    number: (run.cursor + 1 + i) as u64,
                },
        ),
    decreases answers.len(),
{
    if answers.len() > 0 {
        let (after, action) = advance(script, run, answers[0]);
        lemma_copy_rest(script, after, answers.drop_first());
    }
    assert(replay(script, run, answers) =~= Seq::new(
        answers.len(),
        |i: int|
            Action::CopyBlock {
                from: script[run.pc as int]->CopyChain_from,
                to: script[run.pc as int]->CopyChain_to,
                number: (run.cursor + 1 + i) as u64,
            },
    ));
}

/// Copying a chain hands over each block from the fixed point up to the reported tip, once
/// and in order of height.
pub proof fn copy_chain_hands_over_each_block_in_order(
    script: Seq<Step>,
    run: Run,
    last: u64,
    answers: Seq<Answer>,
)
    requires
        run.outcome == Outcome::Running,
        run.pc < script.len(),
        script[run.pc as int] is CopyChain,
        run.phase == 1,
        run.fixed_point <= last,
        answers.len() == last - run.fixed_point + 1,
        answers[0] == Answer::Number(last),
    ensures
        replay(script, run, answers) == Seq::new(
            answers.len(),
            |i: int|
                Action::CopyBlock {
                    from: script[run.pc as int]->CopyChain_from,
                    to: script[run.pc as int]->CopyChain_to,
                    number: (run.fixed_point + i) as u64,
                },
        ),
{
    let (after, action) = advance(script, run, answers[0]);
    lemma_copy_rest(script, after, answers.drop_first());
    assert(replay(script, run, answers) =~= Seq::new(
        answers.len(),
        |i: int|
            Action::CopyBlock {
                from: script[run.pc as int]->CopyChain_from,
                to: script[run.pc as int]->CopyChain_to,
                number: (run.fixed_point + i) as u64,
            },
    ));
}

/// Whether an action names only nodes below `n`.
pub open spec fn action_within(action: Action, n: nat) -> bool {
    match action {
        Action::GenerateBlocks { node, .. } => node < n,
        Action::Connect { node, peer } => node < n && peer < n,
        Action::Disconnect { node, peer } => node < n && peer < n,
        Action::WaitForSync { node, peer, .. } => node < n && peer < n,
        Action::ConnectAndWaitBan { node, peer } => node < n && peer < n,
        Action::ExitIbdMode => n > 0,
        Action::NewSpendingTransaction { node } => node < n,
        Action::NewTransactionSpending { node, .. } => node < n,
        Action::SubmitTransaction { node } => node < n,
        Action::NewBlock { node } => node < n,
        Action::SubmitBlock { node, .. } => node < n,
        Action::ConstructUncle { node } => node < n,
        Action::SubmitUncle { node } => node < n,
        Action::NewBlockWithUncle { node, after } => node < n && (after matches Some(other) ==> other < n),
        Action::QueryTipNumber { node } => node < n,
        Action::QueryFinalizationDelayLength { node } => node < n,
        Action::QueryHeaderHash { node, .. } => node < n,
        Action::QueryTransactionStatus { node } => node < n,
        Action::CopyBlock { from, to, .. } => from < n && to < n,
        _ => true,
    }
}

/// Whether a script line names only nodes below `n`.
pub open spec fn step_within(step: Step, n: nat) -> bool {
    match step {
        Step::Do(action) => action_within(action, n),
        Step::ExpectTipNumber { node, .. } => node < n,
        Step::WaitForSyncAllAtTipOf { node } => node < n,
        Step::LoadFinalizationDelayLength { node } => node < n,
        Step::LoadFixedPoint { node } => node < n,
        Step::GenerateFinalizationBlocks { node, .. } => node < n,
        Step::ExpectTransaction { node, .. } => node < n,
        Step::ExpectDistinctHeaders { .. } => 3 <= n,
        Step::CopyChain { from, to } => from < n && to < n,
    }
}

/// Whether a script names only the nodes of a network of `n` nodes.
pub open spec fn script_within(script: Seq<Step>, n: nat) -> bool {
    forall|i: int| 0 <= i < script.len() ==> #[trigger] step_within(script[i], n)
}


/// A run of a script that names only the nodes of a network of `n` nodes asks only for work
/// on those nodes, whatever state it is in and whatever the network answered.
pub proof fn runs_stay_within_the_network(script: Seq<Step>, run: Run, answer: Answer, n: nat)
    requires
        script_within(script, n),
    ensures
        action_within(advance(script, run, answer).1, n),
{
    if run.pc < script.len() {
        assert(step_within(script[run.pc as int], n));
    }
    let next = next_step(run).pc;
    if next < script.len() {
        assert(step_within(script[next as int], n));
    }
}


/// The state of a run after it got `answers`, one move for each.
pub open spec fn state_after(script: Seq<Step>, run: Run, answers: Seq<Answer>) -> Run
    decreases answers.len(),
{
    if answers.len() == 0 {
        run
    } else {
        state_after(script, advance(script, run, answers[0]).0, answers.drop_first())
    }
}

/// The distinct-header check asks nodes 0, 1 and 2, in that order, for their header at the
/// step's height. Where two of the three reported hashes are equal, the run fails with
/// `SameHeaderHashes`; where all three differ, the run goes past the step.
pub proof fn distinct_headers_fail_exactly_on_a_repeated_hash(
    script: Seq<Step>,
    run: Run,
    first: Answer,
    h0: Digest,
    h1: Digest,
    h2: Digest,
)
    requires
        script.len() <= usize::MAX,
        run.outcome == Outcome::Running,
        run.phase == 0,
        run.pc < script.len(),
        script[run.pc as int] is ExpectDistinctHeaders,
    ensures
        ({
            let number = script[run.pc as int]->ExpectDistinctHeaders_number;
            let answers = seq![first, Answer::Header(Some(h0)), Answer::Header(Some(h1)), Answer::Header(Some(h2))];
            let actions = replay(script, run, answers);
            let after = state_after(script, run, answers);
            &&& actions.len() == 4
            &&& actions[0] == Action::QueryHeaderHash { node: 0, number }
            &&& actions[1] == Action::QueryHeaderHash { node: 1, number }
            &&& actions[2] == Action::QueryHeaderHash { node: 2, number }
            &&& (h0 == h1 || h0 == h2 || h1 == h2) ==> actions[3] == Action::Fail(
                Failure::SameHeaderHashes { number },
            ) && after.outcome == Outcome::Failed(Failure::SameHeaderHashes { number })
            &&& !(h0 == h1 || h0 == h2 || h1 == h2) ==> after.pc > run.pc
        }),
{
    let answers = seq![first, Answer::Header(Some(h0)), Answer::Header(Some(h1)), Answer::Header(Some(h2))];
    let (r1, a1) = advance(script, run, answers[0]);
    let (r2, a2) = advance(script, r1, answers[1]);
    let (r3, a3) = advance(script, r2, answers[2]);
    let (r4, a4) = advance(script, r3, answers[3]);
    let rest1 = answers.drop_first();
    let rest2 = rest1.drop_first();
    let rest3 = rest2.drop_first();
    assert(rest1[0] == answers[1]);
    assert(rest2[0] == answers[2]);
    assert(rest3[0] == answers[3]);
    assert(rest3.drop_first().len() == 0);
    assert(replay(script, r4, rest3.drop_first()) == Seq::<Action>::empty());
    assert(replay(script, r3, rest3) =~= seq![a4]);
    assert(replay(script, r2, rest2) =~= seq![a3, a4]);
    assert(replay(script, r1, rest1) =~= seq![a2, a3, a4]);
    assert(replay(script, run, answers) =~= seq![a1, a2, a3, a4]);
    assert(state_after(script, r4, rest3.drop_first()) == r4);
    assert(state_after(script, r3, rest3) == r4);
    assert(state_after(script, r2, rest2) == r4);
    assert(state_after(script, r1, rest1) == r4);
    assert(state_after(script, run, answers) == r4);
    let number = script[run.pc as int]->ExpectDistinctHeaders_number;
    assert(a1 == Action::QueryHeaderHash { node: 0, number });
    assert(r1.phase == 1 && r1.pc == run.pc && r1.outcome == Outcome::Running);
    assert(a2 == Action::QueryHeaderHash { node: 1, number });
    assert(r2.phase == 2 && r2.first_hash == h0 && r2.pc == run.pc);
    assert(a3 == Action::QueryHeaderHash { node: 2, number });
    assert(r3.phase == 3 && r3.second_hash == h1 && r3.first_hash == h0 && r3.pc == run.pc);
}

} // verus!
