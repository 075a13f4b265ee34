use musig2_party::instance::{InstanceError, Musig2Instance};
use musig2_party::keys::{KeyPair, PublicKey};
use musig2_party::rounds::{ProceedError, SignResult};
use musig2_party::signature::{verify, KeyAgg};
use musig2_party::simulation::Simulation;
use musig2_party::state_machine::{IsCritical, StateMachine};

fn seed(tag: u8) -> [u8; 32] {
    [tag; 32]
}

fn three_parties(message: &[u8]) -> (Vec<KeyPair>, Simulation<Musig2Instance>) {
    let kps = vec![
        KeyPair::create_from_seed(&seed(11)).unwrap(),
        KeyPair::create_from_seed(&seed(22)).unwrap(),
        KeyPair::create_from_seed(&seed(33)).unwrap(),
    ];
    let mut sim = Simulation::new();
    sim.enable_benchmarks(true);
    for i in 0..3u16 {
        sim.add_party(Musig2Instance::with_fixed_seed(
            i + 1,
            3,
            message.to_vec(),
            kps[i as usize],
            seed(100 + i as u8),
            None,
        ));
    }
    (kps, sim)
}

fn run_three(message: &[u8]) -> (Vec<KeyPair>, Vec<SignResult>) {
    let (kps, mut sim) = three_parties(message);
    let results = sim.run().expect("simulation failed");
    assert!(sim.benchmark_results().is_some());
    assert_eq!(sim.inconsistency_warnings, 0);
    (kps, results)
}

#[test]
fn simulate_musig_protocol() {
    let message = Vec::from("test".as_bytes());
    let (kps, results) = run_three(&message);
    assert_eq!(results.len(), 3);

    // All three parties agree bit-for-bit on (r, s) and the commitment.
    for k in 1..3 {
        assert_eq!(results[k].r.serialize(), results[0].r.serialize());
        assert_eq!(results[k].s.serialize(), results[0].s.serialize());
        assert_eq!(results[k].commit, results[0].commit);
    }

    // The signature verifies against the aggregate key and the commitment.
    let pks: Vec<PublicKey> = kps.iter().map(|kp| kp.public_key).collect();
    let key_agg = KeyAgg::key_aggregation_n(&pks, 0).unwrap();
    assert!(verify(
        &results[0].s,
        &results[0].r.x_coor(),
        &key_agg.x_tilde,
        &results[0].commit,
    )
    .is_ok());
}

#[test]
fn repeated_runs_with_fixed_seeds_are_identical() {
    let message = Vec::from("test".as_bytes());
    let (_, first) = run_three(&message);
    let (_, second) = run_three(&message);
    assert_eq!(first[0].r.serialize(), second[0].r.serialize());
    assert_eq!(first[0].s.serialize(), second[0].s.serialize());
    assert_eq!(first[0].commit, second[0].commit);

    // A different message gives a different signature.
    let (_, other) = run_three(b"other message");
    assert_ne!(first[0].s.serialize(), other[0].s.serialize());
}

#[test]
fn two_party_simulation_also_signs() {
    let kps = vec![
        KeyPair::create_from_seed(&seed(1)).unwrap(),
        KeyPair::create_from_seed(&seed(2)).unwrap(),
    ];
    let mut sim = Simulation::new();
    for i in 0..2u16 {
        sim.add_party(Musig2Instance::with_fixed_seed(
            i + 1,
            2,
            b"pair".to_vec(),
            kps[i as usize],
            seed(50 + i as u8),
            Some(1_000),
        ));
    }
    let results = sim.run().expect("simulation failed");
    assert_eq!(results.len(), 2);
    assert_eq!(results[0].s.serialize(), results[1].s.serialize());
}

#[test]
fn silent_party_is_named_by_the_timeout_error() {
    // Parties 1 and 2 proceed and exchange their first-round broadcasts;
    // party 3 never sends anything before the deadline.
    let message = b"test".to_vec();
    let kp1 = KeyPair::create_from_seed(&seed(71)).unwrap();
    let kp2 = KeyPair::create_from_seed(&seed(72)).unwrap();
    let mut p1 = Musig2Instance::with_fixed_seed(1, 3, message.clone(), kp1, seed(81), Some(10));
    let mut p2 = Musig2Instance::with_fixed_seed(2, 3, message, kp2, seed(82), Some(10));

    assert!(p1.proceed().is_ok());
    assert!(p2.proceed().is_ok());
    let out1 = p1.take_message_queue();
    let out2 = p2.take_message_queue();
    assert_eq!(out1.len(), 1);
    assert_eq!(out2.len(), 1);
    assert!(p1.handle_incoming(out2.into_iter().next().unwrap()).is_ok());
    assert!(p2.handle_incoming(out1.into_iter().next().unwrap()).is_ok());

    // Neither can proceed: party 3's contribution is missing.
    assert!(!p1.wants_to_proceed());
    assert!(!p2.wants_to_proceed());

    for p in [&p1, &p2] {
        match p.round_timeout_reached() {
            InstanceError::Proceed(ProceedError::PartiesDidntRevealItsSeed { party_ind }) => {
                assert_eq!(party_ind, vec![3]);
            }
            other => panic!("expected a timeout error naming party 3, got {:?}", other),
        }
    }
}

#[test]
fn duplicate_and_foreign_messages_are_non_critical() {
    let message = b"test".to_vec();
    let kp1 = KeyPair::create_from_seed(&seed(91)).unwrap();
    let kp2 = KeyPair::create_from_seed(&seed(92)).unwrap();
    let mut p1 = Musig2Instance::with_fixed_seed(1, 3, message.clone(), kp1, seed(93), None);
    let mut p2 = Musig2Instance::with_fixed_seed(2, 3, message, kp2, seed(94), None);
    assert!(p1.proceed().is_ok());
    assert!(p2.proceed().is_ok());
    let out2 = p2.take_message_queue();
    let msg = out2.into_iter().next().unwrap();
    assert!(p1.handle_incoming(msg.clone()).is_ok());
    let err = p1.handle_incoming(msg).unwrap_err();
    assert!(!err.is_critical());
}

#[test]
fn stalled_simulation_ends_with_timeout_error_not_a_hang() {
    // Two of three parties are simulated; the third never joins, so the run
    // cannot complete. It must end with a timeout-derived error naming the
    // silent party instead of spinning forever.
    let kps = vec![
        KeyPair::create_from_seed(&seed(61)).unwrap(),
        KeyPair::create_from_seed(&seed(62)).unwrap(),
    ];
    let mut sim = Simulation::new();
    for i in 0..2u16 {
        sim.add_party(Musig2Instance::with_fixed_seed(
            i + 1,
            3,
            b"test".to_vec(),
            kps[i as usize],
            seed(63 + i as u8),
            Some(10),
        ));
    }
    match sim.run() {
        Err(InstanceError::Proceed(ProceedError::PartiesDidntRevealItsSeed { party_ind })) => {
            assert_eq!(party_ind, vec![3]);
        }
        other => panic!("expected a timeout error naming party 3, got {:?}", other),
    }
}
