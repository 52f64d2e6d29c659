use spectre::orchestrator::{RunAction, TraceRun};

#[test]
fn single_transaction_single_block_single_witness() {
    let mut run = TraceRun::new(1);
    assert!(matches!(run.next_action(), RunAction::StopMiner));
    run.on_miner_stopped();
    assert!(matches!(run.next_action(), RunAction::Submit(0)));
    run.on_submitted();
    assert!(matches!(run.next_action(), RunAction::StartMiner));
    run.on_miner_started();
    assert!(matches!(run.next_action(), RunAction::AwaitReceipt(0)));
    run.on_receipt(1);
    assert!(matches!(run.next_action(), RunAction::DumpWitness(1)));
    run.on_witness(vec![0xaa, 0xbb]);
    assert!(run.is_finished());
    let witnesses = run.into_witnesses();
    assert_eq!(witnesses.len(), 1);
    assert_eq!(witnesses[0].block_number, 1);
    assert_eq!(witnesses[0].payload, vec![0xaa, 0xbb]);
}

#[test]
fn transactions_in_one_block_share_one_witness() {
    // Three transactions land in block 7: exactly one witness comes out.
    let mut run = TraceRun::new(3);
    run.on_miner_stopped();
    for i in 0..3 {
        assert!(matches!(run.next_action(), RunAction::Submit(k) if k == i));
        run.on_submitted();
    }
    run.on_miner_started();
    for _ in 0..3 {
        match run.next_action() {
            RunAction::AwaitReceipt(_) => run.on_receipt(7),
            RunAction::DumpWitness(7) => run.on_witness(Vec::new()),
            a => panic!("unexpected action: {:?}", a),
        }
        if matches!(run.next_action(), RunAction::DumpWitness(_)) {
            run.on_witness(Vec::new());
        }
    }
    assert!(run.is_finished());
    let witnesses = run.into_witnesses();
    assert_eq!(witnesses.len(), 1);
    assert_eq!(witnesses[0].block_number, 7);
}

#[test]
fn witnesses_follow_first_observation_order() {
    let mut run = TraceRun::new(3);
    run.on_miner_stopped();
    for _ in 0..3 {
        run.on_submitted();
    }
    run.on_miner_started();
    run.on_receipt(9);
    run.on_witness(vec![9]);
    run.on_receipt(8);
    run.on_witness(vec![8]);
    run.on_receipt(9);
    assert!(run.is_finished());
    let witnesses = run.into_witnesses();
    assert_eq!(witnesses.len(), 2);
    assert_eq!(witnesses[0].block_number, 9);
    assert_eq!(witnesses[1].block_number, 8);
}

#[test]
fn mining_resumes_only_after_the_whole_batch() {
    // The resume action is never offered before every transaction has been
    // submitted.
    let mut run = TraceRun::new(2);
    run.on_miner_stopped();
    assert!(matches!(run.next_action(), RunAction::Submit(0)));
    run.on_submitted();
    assert!(!matches!(run.next_action(), RunAction::StartMiner));
    assert!(matches!(run.next_action(), RunAction::Submit(1)));
    run.on_submitted();
    assert!(matches!(run.next_action(), RunAction::StartMiner));
}
