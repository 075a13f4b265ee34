use musig2_party::async_protocol::{AsyncProtocol, BadStateMachineReason, BlindWatcher, Error, ProtocolWatcher, When};
use musig2_party::instance::{InstanceError, Musig2Instance};
use musig2_party::keys::KeyPair;
use musig2_party::rounds::ProceedError;
use musig2_party::state_machine::StateMachine;

type E = Error<InstanceError, (), ()>;

fn party(i: u16, n: u16, timeout: Option<u64>) -> Musig2Instance {
    let kp = KeyPair::create_from_seed(&[40 + i as u8; 32]).unwrap();
    Musig2Instance::with_fixed_seed(i, n, b"test".to_vec(), kp, [60 + i as u8; 32], timeout)
}

#[test]
fn second_run_returns_exhausted() {
    let mut ap = AsyncProtocol::new(party(1, 2, None));
    let first: Result<Option<u64>, E> = ap.begin();
    assert!(first.is_ok());
    let second: Result<Option<u64>, E> = ap.begin();
    assert!(matches!(second, Err(Error::Exhausted)));
    // Still exhausted on every further attempt; nothing re-executes.
    let third: Result<Option<u64>, E> = ap.begin();
    assert!(matches!(third, Err(Error::Exhausted)));
}

#[test]
fn two_executors_drive_the_protocol_to_completion() {
    let mut ap1 = AsyncProtocol::new(party(1, 2, Some(1_000)));
    let mut ap2 = AsyncProtocol::new(party(2, 2, Some(1_000)));

    let t1: Result<Option<u64>, E> = ap1.begin();
    let t2: Result<Option<u64>, E> = ap2.begin();
    assert_eq!(t1.unwrap(), Some(1_000));
    assert_eq!(t2.unwrap(), Some(1_000));

    let mut out1 = None;
    let mut out2 = None;
    // Alternate: proceed, exchange outgoing messages, check for completion.
    for _ in 0..8 {
        ap1.proceed_if_needed::<(), ()>().unwrap();
        ap2.proceed_if_needed::<(), ()>().unwrap();
        let m1 = ap1.take_outgoing::<(), ()>().unwrap();
        let m2 = ap2.take_outgoing::<(), ()>().unwrap();
        for m in m2 {
            ap1.handle_message::<(), ()>(m).unwrap();
        }
        for m in m1 {
            ap2.handle_message::<(), ()>(m).unwrap();
        }
        ap1.refresh_timer::<(), ()>().unwrap();
        ap2.refresh_timer::<(), ()>().unwrap();
        if out1.is_none() {
            out1 = ap1.finish_if_possible::<(), ()>();
        }
        if out2.is_none() {
            out2 = ap2.finish_if_possible::<(), ()>();
        }
        if out1.is_some() && out2.is_some() {
            break;
        }
    }
    let r1 = out1.expect("party 1 never finished").expect("party 1 failed");
    let r2 = out2.expect("party 2 never finished").expect("party 2 failed");
    assert_eq!(r1.s.serialize(), r2.s.serialize());
    assert_eq!(r1.r.serialize(), r2.r.serialize());
}

#[test]
fn timeout_becomes_the_machines_own_error() {
    // One party of three collects only one of two expected messages.
    let mut ap1 = AsyncProtocol::new(party(1, 3, Some(10)));
    let begun: Result<Option<u64>, E> = ap1.begin();
    assert_eq!(begun.unwrap(), Some(10));
    ap1.proceed_if_needed::<(), ()>().unwrap();
    let _ = ap1.take_outgoing::<(), ()>().unwrap();

    let mut other = party(2, 3, Some(10));
    other.proceed().unwrap();
    for m in other.take_message_queue() {
        ap1.handle_message::<(), ()>(m).unwrap();
    }

    // The deadline elapsed with party 3 still silent: the timeout error
    // carries the machine's own description of what is missing.
    let err: E = ap1.on_timeout();
    match err {
        Error::HandleIncomingTimeout(InstanceError::Proceed(
            ProceedError::PartiesDidntRevealItsSeed { party_ind },
        )) => assert_eq!(party_ind, vec![3]),
        other => panic!("unexpected error: {:?}", other),
    }
}

struct CountingWatcher {
    seen: usize,
}

impl ProtocolWatcher<InstanceError> for CountingWatcher {
    fn caught_non_critical_error(&mut self, _when: When, _err: InstanceError) {
        self.seen += 1;
    }
}

#[test]
fn watcher_swap_keeps_the_machine() {
    let ap = AsyncProtocol::<Musig2Instance, BlindWatcher>::new(party(1, 2, None));
    let mut ap = ap.set_watcher(CountingWatcher { seen: 0 });
    let begun: Result<Option<u64>, E> = ap.begin();
    assert!(begun.is_ok());
    ap.proceed_if_needed::<(), ()>().unwrap();
    let out = ap.take_outgoing::<(), ()>().unwrap();
    assert_eq!(out.len(), 1);
    // Feeding the same broadcast twice: the duplicate is non-critical and
    // goes to the watcher instead of ending the run.
    let mut peer = party(2, 2, None);
    peer.proceed().unwrap();
    let msgs = peer.take_message_queue();
    let m = msgs.into_iter().next().unwrap();
    ap.handle_message::<(), ()>(m.clone()).unwrap();
    ap.handle_message::<(), ()>(m).unwrap();
    assert_eq!(ap.watcher.seen, 1);
}

#[test]
fn error_descriptions_name_the_kind() {
    let exhausted: E = Error::Exhausted;
    assert_eq!(exhausted.describe(), "async runtime is exhausted");
    let eof: E = Error::RecvEof;
    assert_eq!(eof.describe(), "receive next message: unexpected eof");
    assert_eq!(
        BadStateMachineReason::ProtocolFinishedButNoResult.describe(),
        "couldn't obtain protocol output although it is completed"
    );
}
