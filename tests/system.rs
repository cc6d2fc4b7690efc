use flow_beat::system::{count_accepted, shutdown};

#[test]
fn one_trigger_reaches_every_receiver() {
    let (mut trigger, rx) = shutdown(2);
    let audio_rx = rx.clone();
    let window_rx = rx;
    assert!(!trigger.has_fired());
    assert_eq!(trigger.fire(), 2);
    assert!(trigger.has_fired());
    assert!(audio_rx.try_recv().is_ok());
    assert!(window_rx.try_recv().is_ok());
    assert!(audio_rx.try_recv().is_err());
}

#[test]
fn no_trigger_wakes_no_receiver() {
    let (trigger, rx) = shutdown(2);
    assert!(!trigger.has_fired());
    assert!(rx.try_recv().is_err());
    assert!(rx.clone().try_recv().is_err());
}

#[test]
fn second_trigger_is_a_no_op() {
    let (mut trigger, rx) = shutdown(1);
    assert_eq!(trigger.fire(), 1);
    assert_eq!(trigger.fire(), 0);
    assert!(rx.try_recv().is_ok());
    assert!(rx.try_recv().is_err());
}

#[test]
fn take_owed_counts_receivers_once() {
    let (mut trigger, _rx) = shutdown(3);
    assert_eq!(trigger.take_owed(), 3);
    assert_eq!(trigger.take_owed(), 0);
    assert_eq!(trigger.fire(), 0);
}

#[test]
fn accepted_attempts_are_counted() {
    assert_eq!(count_accepted(&vec![]), 0);
    assert_eq!(count_accepted(&vec![true, false, true, true]), 3);
    assert_eq!(count_accepted(&vec![false, false]), 0);
}
