use pallet_ocw::{DispatchError, Event, Origin, Pallet, Payload, WorkDone, WORK_DONE_CAPACITY};

#[test]
fn unsigned_submission_records_number() {
    let mut p = Pallet::new(WORK_DONE_CAPACITY);
    assert_eq!(p.submit_number_unsigned(Origin::Unsigned, 42), Ok(()));
    assert_eq!(p.number(), vec![42]);
    assert_eq!(p.events.len(), 1);
    assert!(matches!(p.events[0], Event::NewNumber(None, 42)));
}

#[test]
fn signed_origin_is_refused() {
    let mut p = Pallet::new(WORK_DONE_CAPACITY);
    assert_eq!(p.submit_number_unsigned(Origin::Signed([1u8; 32]), 42), Err(DispatchError::BadOrigin));
    assert_eq!(p.submit_number_unsigned(Origin::Root, 42), Err(DispatchError::BadOrigin));
    assert!(p.number().is_empty());
    assert!(p.events.is_empty());
}

#[test]
fn signed_payload_submission_records_number() {
    let mut p = Pallet::new(WORK_DONE_CAPACITY);
    let payload = Payload::new(9, [3u8; 32]);
    assert_eq!(p.submit_number_unsigned_with_signed_payload(Origin::Unsigned, payload, [0u8; 64]), Ok(()));
    assert_eq!(p.number(), vec![9]);
    assert!(matches!(p.events[0], Event::NewNumber(None, 9)));
    assert_eq!(
        p.submit_number_unsigned_with_signed_payload(Origin::Root, payload, [0u8; 64]),
        Err(DispatchError::BadOrigin)
    );
    assert_eq!(p.number(), vec![9]);
}

#[test]
fn work_done_evicts_oldest() {
    let mut w = WorkDone::new(3);
    for n in 1..=4u64 {
        w.append_or_replace(n);
    }
    assert_eq!(w.to_vec(), vec![2, 3, 4]);
    assert_eq!(w.len(), 3);
    assert_eq!(w.capacity(), 3);
}

#[test]
fn work_done_keeps_order_below_capacity() {
    let mut w = WorkDone::new(WORK_DONE_CAPACITY);
    w.append_or_replace(5);
    w.append_or_replace(5);
    w.append_or_replace(1);
    assert_eq!(w.to_vec(), vec![5, 5, 1]);
}

#[test]
fn work_done_capacity_one() {
    let mut w = WorkDone::new(1);
    w.append_or_replace(1);
    w.append_or_replace(2);
    assert_eq!(w.to_vec(), vec![2]);
}

#[test]
fn work_done_capacity_zero_stays_empty() {
    let mut w = WorkDone::new(0);
    w.append_or_replace(1);
    assert!(w.to_vec().is_empty());
}
