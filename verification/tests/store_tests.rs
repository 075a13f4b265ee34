use musig2_party::message_store::{BroadcastMsgsStore, StoreError};
use musig2_party::state_machine::Msg;

fn msg(sender: u16, body: u32) -> Msg<u32> {
    Msg { sender, receiver: None, body }
}

#[test]
fn store_becomes_ready_after_distinct_senders() {
    let mut store: BroadcastMsgsStore<u32> = BroadcastMsgsStore::new(1, 3);
    assert!(!store.is_ready());
    assert!(store.wants_more());
    assert!(store.push(msg(2, 22)).is_ok());
    assert!(!store.is_ready());
    assert!(store.push(msg(3, 33)).is_ok());
    assert!(store.is_ready());
    assert!(!store.wants_more());
}

#[test]
fn store_rejects_duplicate_self_and_out_of_range_without_mutating() {
    let mut store: BroadcastMsgsStore<u32> = BroadcastMsgsStore::new(2, 3);
    assert!(store.push(msg(1, 11)).is_ok());

    assert_eq!(store.push(msg(1, 99)), Err(StoreError::DuplicateMsg));
    assert_eq!(store.push(msg(2, 99)), Err(StoreError::MsgFromSelf));
    assert_eq!(store.push(msg(0, 99)), Err(StoreError::UnknownSender));
    assert_eq!(store.push(msg(4, 99)), Err(StoreError::UnknownSender));

    // Prior state is untouched: still exactly party 3 missing.
    assert_eq!(store.missing(), vec![3]);
    assert!(store.push(msg(3, 33)).is_ok());
    assert!(store.is_ready());

    // The earlier accepted body survived the refused pushes.
    let batch = store.finish();
    assert_eq!(batch.msgs, vec![11, 33]);
}

#[test]
fn extraction_order_is_ascending_by_sender() {
    // Party 3 of 5 collects from 1, 2, 4, 5, pushed out of order.
    let mut store: BroadcastMsgsStore<u32> = BroadcastMsgsStore::new(3, 5);
    assert!(store.push(msg(5, 55)).is_ok());
    assert!(store.push(msg(1, 11)).is_ok());
    assert!(store.push(msg(4, 44)).is_ok());
    assert!(store.push(msg(2, 22)).is_ok());
    assert!(store.is_ready());
    let batch = store.finish();
    assert_eq!(batch.msgs, vec![11, 22, 44, 55]);
}

#[test]
fn missing_lists_absent_senders_in_ascending_order() {
    let mut store: BroadcastMsgsStore<u32> = BroadcastMsgsStore::new(2, 4);
    assert_eq!(store.missing(), vec![1, 3, 4]);
    assert!(store.push(msg(3, 33)).is_ok());
    assert_eq!(store.missing(), vec![1, 4]);
    assert!(store.push(msg(1, 11)).is_ok());
    assert!(store.push(msg(4, 44)).is_ok());
    assert_eq!(store.missing(), Vec::<u16>::new());
}
