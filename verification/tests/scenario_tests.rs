use partial_eth_key_cracker::assembler::enumerate_candidates;
use partial_eth_key_cracker::identity::derive_public_identity;
use partial_eth_key_cracker::messages::Tick;
use partial_eth_key_cracker::partition::split_candidates;
use partial_eth_key_cracker::progress::SearchState;
use partial_eth_key_cracker::verification::{Directive, Phase, QueryOutcome, Verification};
use partial_eth_key_cracker::worker::{CandidateAction, SearchMode, Worker, WorkerStep};

#[test]
fn known_target_is_found_within_256_derivations() {
    let template = vec![0u8; 32];
    let mut secret = vec![0u8; 32];
    secret[0] = 1;
    let target = derive_public_identity(&secret).unwrap();
    let candidates = enumerate_candidates(&template, 0, 1);
    assert_eq!(candidates.len(), 256);
    let mut state = SearchState::new(1, 0).unwrap();
    let mut parts = split_candidates(&candidates, 1);
    let mut worker =
        Worker::new(parts.remove(0), SearchMode::KnownTarget { address: target.clone() });
    let mut derivations = 0;
    let mut found = None;
    loop {
        match worker.step() {
            WorkerStep::CheckMemory => {}
            WorkerStep::Act(action) => {
                derivations += 1;
                match action {
                    CandidateAction::Found { private_key, address } => {
                        found = Some((private_key, address));
                        break;
                    }
                    CandidateAction::Count(message) => {
                        assert!(state.handle_count(message));
                    }
                    CandidateAction::Verify(_) => panic!("no node is asked in this mode"),
                }
            }
            WorkerStep::Finished => break,
        }
    }
    assert_eq!(found, Some((secret, target)));
    assert!(derivations <= 256);
    assert_eq!(derivations, 2);
    assert_eq!(state.processed_count, 1);
}

#[test]
fn empty_oracle_counts_all_65536_candidates() {
    let template = vec![0u8; 32];
    let candidates = enumerate_candidates(&template, 0, 2);
    let generated = candidates.len();
    let mut state = SearchState::new(2, 0).unwrap();
    let mut parts = split_candidates(&candidates, 1);
    assert_eq!(parts.len(), 1);
    let mut worker = Worker::new(
        parts.remove(0),
        SearchMode::RemoteOracle { full_node: String::from("http://localhost:8545") },
    );
    let mut counted: u32 = 0;
    let mut matches: u32 = 0;
    let mut memory_checks: u32 = 0;
    loop {
        match worker.step() {
            WorkerStep::CheckMemory => memory_checks += 1,
            WorkerStep::Act(CandidateAction::Count(message)) => {
                assert!(state.handle_count(message));
                counted += 1;
            }
            WorkerStep::Act(CandidateAction::Verify(request)) => {
                let mut verification = Verification::new(request);
                assert!(verification.begin());
                match verification.conclude(&QueryOutcome::Balance(vec![0u8; 32])) {
                    Directive::Count(message) => {
                        assert!(state.handle_count(message));
                        counted += 1;
                    }
                    Directive::Found { .. } => matches += 1,
                    other => panic!("unexpected directive {:?}", other),
                }
            }
            WorkerStep::Act(CandidateAction::Found { .. }) => matches += 1,
            WorkerStep::Finished => break,
        }
    }
    assert_eq!(counted, 65536);
    assert_eq!(matches, 0);
    assert_eq!(memory_checks, 6);
    assert_eq!(generated, 65536);
    assert_eq!(state.processed_count, 65536);
    assert_eq!(state.handle_tick(Tick, 1).percent, 100);
}

#[test]
fn three_failures_then_an_empty_balance() {
    let mut secret = vec![0u8; 32];
    secret[0] = 5;
    let address = derive_public_identity(&secret).unwrap();
    let mut worker = Worker::new(
        vec![secret.clone()],
        SearchMode::RemoteOracle { full_node: String::from("http://localhost:8545") },
    );
    let request = match worker.step() {
        WorkerStep::Act(CandidateAction::Verify(request)) => request,
        other => panic!("unexpected step {:?}", other),
    };
    assert_eq!(request.private_key, secret);
    assert_eq!(request.address, address);
    let mut state = SearchState::new(0, 0).unwrap();
    let mut verification = Verification::new(request);
    let mut calls = 0;
    let mut retries = 0;
    let mut waited_ms: u64 = 0;
    let mut resolutions = 0;
    while verification.begin() {
        calls += 1;
        let outcome =
            if calls <= 3 { QueryOutcome::Failed } else { QueryOutcome::Balance(vec![0u8; 32]) };
        match verification.conclude(&outcome) {
            Directive::RetryAfter { delay_ms } => {
                assert!(delay_ms < 10000);
                waited_ms += delay_ms;
                retries += 1;
                assert!(verification.requeue());
            }
            Directive::Count(message) => {
                assert!(state.handle_count(message));
                resolutions += 1;
            }
            other => panic!("unexpected directive {:?}", other),
        }
    }
    assert_eq!(calls, 4);
    assert_eq!(retries, 3);
    assert_eq!(verification.retries, 3);
    assert_eq!(resolutions, 1);
    assert_eq!(verification.phase, Phase::ResolvedEmpty);
    assert!(waited_ms < 3 * 10000);
    assert_eq!(state.processed_count, 1);
}
