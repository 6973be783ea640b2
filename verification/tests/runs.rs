use chain_forks::block::Digest;
use chain_forks::failure::Failure;
use chain_forks::script::Action;
use chain_forks::script::Answer;
use chain_forks::script::Expectation;
use chain_forks::script::Outcome;
use chain_forks::script::Run;
use chain_forks::script::Step;
use chain_forks::status::TxState;

fn drive(script: &Vec<Step>, answers: &[Answer]) -> Vec<Action> {
    let mut run = Run::new();
    let mut out = Vec::new();
    for answer in answers {
        out.push(run.step(script, *answer));
    }
    out
}

#[test]
fn plain_steps_are_performed_in_order() {
    let script = vec![
        Step::Do(Action::GenerateBlocks { node: 0, count: 2 }),
        Step::Do(Action::Connect { node: 1, peer: 0 }),
        Step::Do(Action::WaitForSyncAll { number: 2 }),
    ];
    let actions = drive(&script, &[Answer::Ack, Answer::Number(7), Answer::Ack, Answer::Ack, Answer::Ack]);
    assert_eq!(
        actions,
        vec![
            Action::GenerateBlocks { node: 0, count: 2 },
            Action::Connect { node: 1, peer: 0 },
            Action::WaitForSyncAll { number: 2 },
            Action::Finish,
            Action::Finish,
        ]
    );
}

#[test]
fn empty_script_finishes_at_once() {
    assert_eq!(drive(&vec![], &[Answer::Ack]), vec![Action::Finish]);
}

#[test]
fn tip_check_passes_on_the_expected_height_and_fails_otherwise() {
    let script = vec![Step::ExpectTipNumber { node: 1, number: 15 }, Step::Do(Action::DisconnectAll)];
    assert_eq!(
        drive(&script, &[Answer::Ack, Answer::Number(15), Answer::Ack]),
        vec![Action::QueryTipNumber { node: 1 }, Action::DisconnectAll, Action::Finish]
    );
    let failure = Failure::TipNumberMismatch { node: 1, expected: 15, actual: 14 };
    assert_eq!(
        drive(&script, &[Answer::Ack, Answer::Number(14), Answer::Ack, Answer::Number(15)]),
        vec![
            Action::QueryTipNumber { node: 1 },
            Action::Fail(failure),
            Action::Fail(failure),
            Action::Fail(failure),
        ]
    );
}

#[test]
fn an_answer_of_the_wrong_kind_fails() {
    let script = vec![Step::ExpectTipNumber { node: 0, number: 1 }];
    assert_eq!(
        drive(&script, &[Answer::Ack, Answer::Status(None)]),
        vec![Action::QueryTipNumber { node: 0 }, Action::Fail(Failure::UnexpectedAnswer)]
    );
}

#[test]
fn wait_at_tip_of_uses_the_reported_height() {
    let script = vec![Step::WaitForSyncAllAtTipOf { node: 1 }];
    assert_eq!(
        drive(&script, &[Answer::Ack, Answer::Number(4), Answer::Ack]),
        vec![Action::QueryTipNumber { node: 1 }, Action::WaitForSyncAll { number: 4 }, Action::Finish]
    );
}

#[test]
fn finalization_blocks_scale_with_the_delay() {
    let script = vec![
        Step::LoadFinalizationDelayLength { node: 0 },
        Step::GenerateFinalizationBlocks { node: 0, times: 2, extra: 1 },
    ];
    assert_eq!(
        drive(&script, &[Answer::Ack, Answer::Number(10), Answer::Ack]),
        vec![
            Action::QueryFinalizationDelayLength { node: 0 },
            Action::GenerateBlocks { node: 0, count: 21 },
            Action::Finish,
        ]
    );
    assert_eq!(
        drive(&script, &[Answer::Ack, Answer::Number(u64::MAX / 2 + 1)]),
        vec![Action::QueryFinalizationDelayLength { node: 0 }, Action::Fail(Failure::ArithmeticOverflow)]
    );
}

#[test]
fn copy_chain_gives_each_block_from_the_fixed_point_to_the_tip() {
    let script = vec![Step::LoadFixedPoint { node: 0 }, Step::CopyChain { from: 1, to: 0 }];
    let actions = drive(&script, &[Answer::Ack, Answer::Number(3), Answer::Number(5), Answer::Ack, Answer::Ack, Answer::Ack]);
    assert_eq!(
        actions,
        vec![
            Action::QueryTipNumber { node: 0 },
            Action::QueryTipNumber { node: 1 },
            Action::CopyBlock { from: 1, to: 0, number: 3 },
            Action::CopyBlock { from: 1, to: 0, number: 4 },
            Action::CopyBlock { from: 1, to: 0, number: 5 },
            Action::Finish,
        ]
    );
    let empty = drive(&script, &[Answer::Ack, Answer::Number(6), Answer::Number(5)]);
    assert_eq!(empty, vec![Action::QueryTipNumber { node: 0 }, Action::QueryTipNumber { node: 1 }, Action::Finish]);
}

#[test]
fn transaction_expectations() {
    let absent = vec![Step::ExpectTransaction { node: 0, expected: Expectation::Absent }];
    assert_eq!(drive(&absent, &[Answer::Ack, Answer::Status(None)])[1], Action::Finish);
    assert_eq!(
        drive(&absent, &[Answer::Ack, Answer::Status(Some(TxState::Unknown))])[1],
        Action::Fail(Failure::TransactionPresent { node: 0 })
    );
    let present = vec![Step::ExpectTransaction { node: 3, expected: Expectation::Present }];
    assert_eq!(drive(&present, &[Answer::Ack, Answer::Status(Some(TxState::Pending))])[1], Action::Finish);
    assert_eq!(drive(&present, &[Answer::Ack, Answer::Status(Some(TxState::Committed))])[1], Action::Finish);
    assert_eq!(
        drive(&present, &[Answer::Ack, Answer::Status(None)])[1],
        Action::Fail(Failure::TransactionMissing { node: 3 })
    );
    let committed = vec![Step::ExpectTransaction { node: 3, expected: Expectation::Committed }];
    assert_eq!(drive(&committed, &[Answer::Ack, Answer::Status(Some(TxState::Committed))])[1], Action::Finish);
    assert_eq!(
        drive(&committed, &[Answer::Ack, Answer::Status(None)])[1],
        Action::Fail(Failure::TransactionMissing { node: 3 })
    );
    assert_eq!(
        drive(&committed, &[Answer::Ack, Answer::Status(Some(TxState::Pending))])[1],
        Action::Fail(Failure::UnexpectedStatus { node: 3, wanted: TxState::Committed, reported: TxState::Pending })
    );
    let pending = vec![Step::ExpectTransaction { node: 1, expected: Expectation::Pending }];
    assert_eq!(drive(&pending, &[Answer::Ack, Answer::Status(Some(TxState::Pending))])[1], Action::Finish);
    assert_eq!(
        drive(&pending, &[Answer::Ack, Answer::Status(Some(TxState::Proposed))])[1],
        Action::Fail(Failure::UnexpectedStatus { node: 1, wanted: TxState::Pending, reported: TxState::Proposed })
    );
}

#[test]
fn distinct_headers() {
    let script = vec![Step::ExpectDistinctHeaders { number: 2 }];
    let h = |n| Answer::Header(Some(Digest(0, 0, 0, n)));
    assert_eq!(
        drive(&script, &[Answer::Ack, h(1), h(2), h(3)]),
        vec![
            Action::QueryHeaderHash { node: 0, number: 2 },
            Action::QueryHeaderHash { node: 1, number: 2 },
            Action::QueryHeaderHash { node: 2, number: 2 },
            Action::Finish,
        ]
    );
    assert_eq!(drive(&script, &[Answer::Ack, h(1), h(2), h(1)])[3], Action::Fail(Failure::SameHeaderHashes { number: 2 }));
    assert_eq!(drive(&script, &[Answer::Ack, h(1), Answer::Header(None)])[2], Action::Fail(Failure::HeaderMissing { node: 1, number: 2 }));
}

#[test]
fn a_finished_run_stays_finished() {
    let script = vec![];
    let mut run = Run::new();
    assert_eq!(run.step(&script, Answer::Ack), Action::Finish);
    assert_eq!(run.outcome, Outcome::Finished);
    assert_eq!(run.step(&script, Answer::Number(1)), Action::Finish);
}
