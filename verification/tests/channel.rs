use spmv_oneshot::oneshot::is_only_owner;
use spmv_oneshot::{
    Flags, Oneshot, PeekAsync, Peeker, Polled, ReceiveAsync, Receiver, RxError, TxError,
};

type Chan<T> = Oneshot<T, &'static str>;

fn receive_now<T>(
    rx: &mut Receiver,
    oneshot: &mut Chan<T>,
    waker: &'static str,
) -> Polled<Result<T, RxError<()>>> {
    poll_receive(rx.receive_async(), oneshot, waker)
}

fn poll_receive<T>(
    wait: ReceiveAsync<'_>,
    oneshot: &mut Chan<T>,
    waker: &'static str,
) -> Polled<Result<T, RxError<()>>> {
    wait.may_cancel_with()
        .poll(oneshot, waker, || false, || false, || true)
}

fn poll_peek<'a, T>(
    wait: PeekAsync<'_>,
    oneshot: &'a mut Chan<T>,
    waker: &'static str,
) -> Polled<Result<&'a T, RxError<()>>> {
    wait.may_cancel_with().poll(oneshot, waker, || false, || true)
}

fn flag_default_(flags: &Flags) {
    let v = flags.value();
    assert!(Flags::expect_mutex_released(v));
    assert!(Flags::expect_data_invalid(v));
    assert!(Flags::expect_tx_not_expire(v));
    assert!(Flags::expect_tx_open(v));
    assert!(Flags::expect_rx_open(v));
}

#[test]
fn tx_rx_smoke() {
    let mut oneshot = Chan::<usize>::new(0);
    flag_default_(oneshot.flags());
    assert!(!oneshot.is_triggered());
    assert!(!oneshot.is_data_ready());

    let Some((tx, mut rx)) = oneshot.try_split(|| 1, || 0) else {
        panic!("try_split failed");
    };
    assert!(tx.can_send(&oneshot));
    assert!(rx.can_receive(&oneshot));
    assert!(!rx.is_data_ready(&oneshot));

    const SEND_CONT: usize = 42;
    let recv_fut = rx.receive_async();
    assert!(tx.can_send(&oneshot));

    assert!(tx.send(&mut oneshot, SEND_CONT).wait().is_ok());
    let Polled::Ready(second_recv) = poll_receive(recv_fut, &mut oneshot, "rx") else {
        panic!("pending");
    };
    assert!(second_recv.is_ok());
    assert!(second_recv.unwrap() == SEND_CONT);

    assert!(!tx.can_send(&oneshot));
    assert!(tx.send(&mut oneshot, 0).wait().is_err());
}

#[test]
fn peeker_smoke() {
    let mut oneshot = Chan::<usize>::new(0);
    let Some((tx, rx)) = oneshot.try_split(|| 1, || 0) else {
        panic!("try_split failed");
    };
    assert!(tx.can_send(&oneshot));
    assert!(rx.can_receive(&oneshot));
    assert!(!rx.is_data_ready(&oneshot));

    const SEND_CONT: usize = 42;
    let Ok(mut peeker) = rx.try_into(&mut oneshot) else { panic!() };
    assert!(tx.can_send(&oneshot));
    assert!(peeker.can_peek(&oneshot));
    assert!(!peeker.is_data_ready(&oneshot));
    assert!(tx.send(&mut oneshot, SEND_CONT).wait().is_ok());
    let wait = peeker.peek_async(&mut oneshot);
    let Polled::Ready(peek_res) = poll_peek(wait, &mut oneshot, "peeker") else {
        panic!("pending");
    };
    assert!(peek_res.is_ok_and(|u| *u == SEND_CONT));

    assert!(!tx.can_send(&oneshot));
    assert!(tx.send(&mut oneshot, 0).wait().is_err());
    assert!(peeker.can_peek(&oneshot));
    assert!(peeker.is_data_ready(&oneshot));
    assert!(peeker
        .try_peek(&oneshot)
        .ok()
        .flatten()
        .is_some_and(|u| *u == SEND_CONT));
}

#[test]
fn direct_oneshot_peek_smoke() {
    let mut chan = Chan::<()>::new(0);
    let mut peeker = chan.peeker();
    let wait = peeker.peek_async(&mut chan);
    let mut fut = wait.may_cancel_with();
    assert!(matches!(fut.poll(&mut chan, "rx", || false, || true), Polled::Pending));
    assert!(chan.send(()).wait().is_ok());
    assert_eq!(chan.take_woken(), vec!["rx"]);
    let Polled::Ready(x) = fut.poll(&mut chan, "rx", || false, || true) else {
        panic!("pending");
    };
    assert!(x.is_ok());
}

#[test]
fn multiple_peeker_smoke() {
    const PEEKER_CNT: usize = 16usize;

    let mut chan = Chan::<()>::new(0);
    let (tx, rx) = chan.try_split(|| 1, || 0).unwrap();
    let first = rx.try_into(&mut chan).unwrap();
    let mut peekers = Vec::<Peeker>::new();
    for _ in 0..PEEKER_CNT {
        peekers.push(first.clone(&mut chan));
    }
    assert_eq!(first.alias_count(&chan), PEEKER_CNT + 1);
    for peeker in peekers.iter_mut() {
        let wait = peeker.peek_async(&mut chan);
        assert!(matches!(poll_peek(wait, &mut chan, "peeker"), Polled::Pending));
    }
    assert!(tx.send(&mut chan, ()).wait().is_ok());
    assert_eq!(chan.take_woken().len(), PEEKER_CNT);
    for peeker in peekers.iter_mut() {
        let wait = peeker.peek_async(&mut chan);
        let Polled::Ready(x) = poll_peek(wait, &mut chan, "peeker") else {
            panic!("pending");
        };
        assert!(x.is_ok());
    }
    for peeker in peekers {
        peeker.drop(&mut chan);
    }
    assert_eq!(first.alias_count(&chan), 1);
}

#[test]
fn split_and_peek() {
    let mut oneshot = Chan::<()>::new(0);
    let (_tx, rx) = oneshot.split();
    let peeker = rx.try_into(&mut oneshot).unwrap();
    assert!(matches!(peeker.try_peek(&oneshot), Ok(None)));
}

#[test]
fn split_only_with_one_owner() {
    let mut oneshot = Chan::<u8>::new(0);
    assert!(oneshot.try_split(|| 2, || panic!()).is_none());
    assert!(oneshot.try_split(|| 1, || 1).is_none());
    assert_eq!(oneshot.receiver_count(), 0);
    assert!(oneshot.try_split(|| 1, || 0).is_some());
    assert!(oneshot.try_split(|| 0, || 0).is_some());
    assert_eq!(oneshot.receiver_count(), 2);
    assert!(!is_only_owner(|| 2, || panic!()));
    assert!(!is_only_owner(|| 1, || 3));
    assert!(is_only_owner(|| 1, || 0));
}

#[test]
fn a_single_message_is_received_once() {
    let mut oneshot = Chan::<u8>::new(0);
    let (tx, mut rx) = oneshot.split();
    assert!(matches!(receive_now(&mut rx, &mut oneshot, "a"), Polled::Pending));
    assert_eq!(tx.send(&mut oneshot, 7).wait(), Ok(()));
    assert!(oneshot.is_triggered());
    assert!(oneshot.is_data_ready());
    assert_eq!(tx.send(&mut oneshot, 8).wait(), Err(TxError::Stuffed(8)));
    assert!(matches!(receive_now(&mut rx, &mut oneshot, "b"), Polled::Ready(Ok(7))));
    assert!(oneshot.is_triggered());
    assert!(!oneshot.is_data_ready());
    assert_eq!(oneshot.try_send(9), Err(TxError::Stuffed(9)));
    assert!(matches!(
        receive_now(&mut rx, &mut oneshot, "c"),
        Polled::Ready(Err(RxError::Drained(())))
    ));
    assert!(matches!(oneshot.try_peek(), Err(RxError::Drained(()))));
    assert!(!oneshot.can_send());
    tx.drop(&mut oneshot);
    assert!(matches!(
        receive_now(&mut rx, &mut oneshot, "d"),
        Polled::Ready(Err(RxError::Drained(())))
    ));
    assert!(matches!(oneshot.try_peek(), Err(RxError::Drained(()))));
}

#[test]
fn sender_that_leaves_without_sending() {
    let mut oneshot = Chan::<u8>::new(0);
    let (tx, mut rx) = oneshot.split();
    assert!(matches!(receive_now(&mut rx, &mut oneshot, "rx"), Polled::Pending));
    tx.drop(&mut oneshot);
    assert_eq!(oneshot.take_woken(), vec!["rx"]);
    assert!(!rx.can_receive(&oneshot));
    assert!(matches!(
        receive_now(&mut rx, &mut oneshot, "rx"),
        Polled::Ready(Err(RxError::Divorced(())))
    ));
    assert!(matches!(oneshot.try_peek(), Err(RxError::Divorced(()))));
}

#[test]
fn message_outlives_the_sender() {
    let mut oneshot = Chan::<u8>::new(0);
    let (tx, mut rx) = oneshot.split();
    assert_eq!(tx.send(&mut oneshot, 5).wait(), Ok(()));
    tx.drop(&mut oneshot);
    assert!(rx.can_receive(&oneshot));
    assert!(matches!(oneshot.try_peek(), Ok(Some(5))));
    assert!(matches!(receive_now(&mut rx, &mut oneshot, "rx"), Polled::Ready(Ok(5))));
    assert!(!rx.can_receive(&oneshot));
}

#[test]
fn nobody_listens() {
    let mut oneshot = Chan::<u8>::new(0);
    let (tx, rx) = oneshot.split();
    rx.drop(&mut oneshot);
    assert!(!tx.can_send(&oneshot));
    assert_eq!(tx.send(&mut oneshot, 3).wait(), Err(TxError::Divorced(3)));
    assert!(!oneshot.is_triggered());
}

#[test]
fn peekers_listen_in_place_of_the_receiver() {
    let mut oneshot = Chan::<u8>::new(0);
    let (tx, rx) = oneshot.split();
    let first = rx.try_into(&mut oneshot).unwrap();
    let second = first.clone(&mut oneshot);
    first.drop(&mut oneshot);
    assert!(tx.can_send(&oneshot));
    second.drop(&mut oneshot);
    assert!(!tx.can_send(&oneshot));
    assert_eq!(oneshot.try_send(1), Err(TxError::Divorced(1)));
}

#[test]
fn send_that_is_cancelled() {
    let mut oneshot = Chan::<u8>::new(0);
    assert_eq!(oneshot.send(1).may_cancel_with(false), Err(TxError::Cancelled));
    assert!(oneshot.can_send());
    assert!(oneshot.try_lock_value());
    assert!(!oneshot.try_lock_value());
    assert_eq!(oneshot.try_send(2), Err(TxError::Cancelled));
    assert!(oneshot.can_send());
    assert_eq!(oneshot.send(3).may_cancel_with(true), Ok(()));
    assert!(!oneshot.unlock_value());
    assert!(matches!(oneshot.try_peek(), Ok(Some(3))));
    assert!(oneshot.try_lock_value());
}

#[test]
fn wait_that_is_cancelled() {
    let mut oneshot = Chan::<u8>::new(0);
    let (tx, mut rx) = oneshot.split();
    let mut fut = rx.receive_async().may_cancel_with();
    let r = fut.poll(&mut oneshot, "rx", || true, || panic!(), || panic!());
    assert!(matches!(r, Polled::Ready(Err(RxError::Cancelled))));
    assert!(fut.asks_is_cancelled(&oneshot));
    assert!(fut.asks_cancellation(&oneshot));
    let r = fut.poll(&mut oneshot, "rx", || false, || true, || panic!());
    assert!(matches!(r, Polled::Ready(Err(RxError::Cancelled))));
    let r = fut.poll(&mut oneshot, "rx", || false, || false, || false);
    assert!(matches!(r, Polled::Ready(Err(RxError::Cancelled))));
    let r = fut.poll(&mut oneshot, "rx", || false, || false, || true);
    assert!(matches!(r, Polled::Pending));
    assert!(fut.asks_is_cancelled(&oneshot));
    assert!(!fut.asks_cancellation(&oneshot));
    let r = fut.poll(&mut oneshot, "again", || false, || panic!(), || panic!());
    assert!(matches!(r, Polled::Pending));
    assert_eq!(tx.send(&mut oneshot, 1).wait(), Ok(()));
    assert_eq!(oneshot.take_woken(), vec!["rx"]);
    assert!(!fut.asks_is_cancelled(&oneshot));
    // A message that is there is received, cancelled or not.
    let r = fut.poll(&mut oneshot, "rx", || panic!(), || panic!(), || panic!());
    assert!(matches!(r, Polled::Ready(Ok(1))));
    let r = fut.poll(&mut oneshot, "rx", || true, || panic!(), || panic!());
    assert!(matches!(r, Polled::Ready(Err(RxError::Cancelled))));
    let r = fut.poll(&mut oneshot, "rx", || false, || panic!(), || panic!());
    assert!(matches!(r, Polled::Ready(Err(RxError::Drained(())))));
}

#[test]
fn look_that_is_cancelled() {
    let mut oneshot = Chan::<u8>::new(0);
    let mut peeker = oneshot.peeker();
    let mut fut = peeker.peek_async(&mut oneshot).may_cancel_with();
    assert!(fut.asks_cancellation(&oneshot));
    let r = fut.poll(&mut oneshot, "p", || true, || panic!());
    assert!(matches!(r, Polled::Ready(Err(RxError::Cancelled))));
    let r = fut.poll(&mut oneshot, "p", || false, || false);
    assert!(matches!(r, Polled::Ready(Err(RxError::Cancelled))));
    let r = fut.poll(&mut oneshot, "p", || false, || true);
    assert!(matches!(r, Polled::Pending));
    let r = fut.poll(&mut oneshot, "q", || panic!(), || panic!());
    assert!(matches!(r, Polled::Pending));
    assert_eq!(oneshot.try_send(4), Ok(()));
    assert_eq!(oneshot.take_woken(), vec!["p"]);
    let r = fut.poll(&mut oneshot, "p", || panic!(), || panic!());
    assert!(matches!(r, Polled::Ready(Ok(4))));
    assert!(oneshot.is_data_ready());
}

#[test]
fn waiters_are_woken_in_order_and_once() {
    let mut oneshot = Chan::<u8>::new(0);
    let (tx, mut rx) = oneshot.split();
    let mut one = oneshot.peeker();
    let mut two = oneshot.peeker();
    let mut three = oneshot.peeker();
    let wait = two.peek_async(&mut oneshot);
    assert!(matches!(poll_peek(wait, &mut oneshot, "two"), Polled::Pending));
    assert!(matches!(receive_now(&mut rx, &mut oneshot, "rx"), Polled::Pending));
    let wait = one.peek_async(&mut oneshot);
    assert!(matches!(poll_peek(wait, &mut oneshot, "one"), Polled::Pending));
    let wait = three.peek_async(&mut oneshot);
    assert!(matches!(poll_peek(wait, &mut oneshot, "three"), Polled::Pending));
    // A new wait of the same peeker keeps the place of the one before.
    let wait = two.peek_async(&mut oneshot);
    assert!(matches!(poll_peek(wait, &mut oneshot, "two again"), Polled::Pending));
    one.drop(&mut oneshot);
    let _ = three.peek_async(&mut oneshot);
    assert!(oneshot.take_woken().is_empty());
    assert_eq!(tx.send(&mut oneshot, 1).wait(), Ok(()));
    assert_eq!(oneshot.take_woken(), vec!["two again", "rx"]);
    tx.drop(&mut oneshot);
    assert!(oneshot.take_woken().is_empty());
}

#[test]
fn ends_of_one_channel_are_paired() {
    let mut a = Chan::<u8>::new(1);
    let mut b = Chan::<u8>::new(2);
    let (tx_a, rx_a) = a.split();
    let (tx_b, rx_b) = b.split();
    assert!(rx_a.is_paired_with(&tx_a));
    assert!(!rx_a.is_paired_with(&tx_b));
    let peeker_a = rx_a.try_into(&mut a).unwrap();
    let peeker_b = rx_b.try_into(&mut b).unwrap();
    assert!(peeker_a.is_paired_with(&tx_a));
    assert!(!peeker_a.is_paired_with(&tx_b));
    let clone_a = peeker_a.clone(&mut a);
    assert!(peeker_a == clone_a);
    assert!(peeker_a != peeker_b);
}

#[test]
fn channel_that_is_given_up() {
    let mut oneshot = Chan::<u8>::new(0);
    let mut peeker = oneshot.peeker();
    let wait = peeker.peek_async(&mut oneshot);
    assert!(matches!(poll_peek(wait, &mut oneshot, "p"), Polled::Pending));
    assert_eq!(oneshot.drop(), (None, vec!["p"]));

    let mut oneshot = Chan::<u8>::new(0);
    assert_eq!(oneshot.try_send(6), Ok(()));
    assert_eq!(oneshot.drop(), (Some(6), vec![]));

    let mut oneshot = Chan::<u8>::new(0);
    let (_tx, mut rx) = oneshot.split();
    assert_eq!(oneshot.try_send(6), Ok(()));
    assert!(matches!(receive_now(&mut rx, &mut oneshot, "rx"), Polled::Ready(Ok(6))));
    assert_eq!(oneshot.drop(), (None, vec![]));
}

#[test]
fn look_after_the_message_was_received() {
    let mut oneshot = Chan::<u8>::new(0);
    let (tx, mut rx) = oneshot.split();
    let mut peeker = oneshot.peeker();
    assert_eq!(tx.send(&mut oneshot, 1).wait(), Ok(()));
    assert!(matches!(peeker.try_peek(&oneshot), Ok(Some(1))));
    assert!(matches!(receive_now(&mut rx, &mut oneshot, "rx"), Polled::Ready(Ok(1))));
    assert!(matches!(peeker.try_peek(&oneshot), Err(RxError::Drained(()))));
    let wait = peeker.peek_async(&mut oneshot);
    assert!(matches!(
        poll_peek(wait, &mut oneshot, "p"),
        Polled::Ready(Err(RxError::Drained(())))
    ));
}

#[test]
fn clone_and_its_end() {
    let mut oneshot = Chan::<u8>::new(3);
    let (tx, _rx) = oneshot.split();
    let mut peeker = oneshot.peeker();
    let wait = peeker.peek_async(&mut oneshot);
    assert!(matches!(poll_peek(wait, &mut oneshot, "p"), Polled::Pending));
    let clone = peeker.clone(&mut oneshot);
    assert!(clone == peeker);
    assert!(clone.is_paired_with(&tx));
    assert_ne!(clone.wake_slot(), peeker.wake_slot());
    assert_eq!(clone.alias_count(&oneshot), 2);
    assert!(matches!(clone.try_peek(&oneshot), Ok(None)));
    clone.drop(&mut oneshot);
    assert_eq!(peeker.alias_count(&oneshot), 1);
    // The peeker still waits, and the clone did not.
    assert_eq!(tx.send(&mut oneshot, 9).wait(), Ok(()));
    assert_eq!(oneshot.take_woken(), vec!["p"]);
    let clone = peeker.clone(&mut oneshot);
    assert!(matches!(clone.try_peek(&oneshot), Ok(Some(9))));
    clone.drop(&mut oneshot);
    assert!(oneshot.is_triggered());
    assert!(matches!(peeker.try_peek(&oneshot), Ok(Some(9))));
}

#[test]
fn wake_slots_are_used_again() {
    let mut oneshot = Chan::<u8>::new(0);
    let (_tx, rx) = oneshot.split();
    let a = oneshot.peeker();
    let b = oneshot.peeker();
    let slot = a.wake_slot();
    assert_ne!(slot, rx.waker_slot());
    assert_ne!(slot, b.wake_slot());
    assert_eq!(oneshot.receiver_count(), 1);
    a.drop(&mut oneshot);
    for _ in 0..100 {
        let c = b.clone(&mut oneshot);
        assert_eq!(c.wake_slot(), slot);
        c.drop(&mut oneshot);
    }
    let d = rx.try_into(&mut oneshot).unwrap();
    assert_eq!(oneshot.receiver_count(), 0);
    assert_eq!(oneshot.peeker_count(), 2);
    assert_ne!(d.wake_slot(), b.wake_slot());
}

#[test]
fn new_receiver_after_a_conversion() {
    let mut oneshot = Chan::<u8>::new(0);
    let (tx, rx) = oneshot.split();
    let peeker = rx.try_into(&mut oneshot).unwrap();
    assert!(Flags::expect_rx_open(oneshot.flags().value()));
    assert!(tx.can_send(&oneshot));
    peeker.drop(&mut oneshot);
    // Nobody is there.
    assert!(!tx.can_send(&oneshot));
    assert_eq!(tx.send(&mut oneshot, 1).wait(), Err(TxError::Divorced(1)));
    tx.drop(&mut oneshot);
    let (tx, mut rx) = oneshot.split();
    assert!(tx.can_send(&oneshot));
    assert_eq!(tx.send(&mut oneshot, 2).wait(), Ok(()));
    assert!(matches!(receive_now(&mut rx, &mut oneshot, "rx"), Polled::Ready(Ok(2))));
    // Once something was sent, that is the reason for a refusal.
    let peeker = rx.try_into(&mut oneshot).unwrap();
    peeker.drop(&mut oneshot);
    assert_eq!(tx.send(&mut oneshot, 3).wait(), Err(TxError::Stuffed(3)));
}

#[test]
fn new_peeker_after_a_conversion() {
    let mut oneshot = Chan::<u8>::new(0);
    let (tx, rx) = oneshot.split();
    rx.try_into(&mut oneshot).unwrap().drop(&mut oneshot);
    assert!(!tx.can_send(&oneshot));
    let peeker = oneshot.peeker();
    assert_eq!(tx.send(&mut oneshot, 2).wait(), Ok(()));
    assert!(matches!(peeker.try_peek(&oneshot), Ok(Some(2))));
}

#[test]
fn channel_that_was_never_split() {
    let mut oneshot = Chan::<u8>::new(0);
    assert!(oneshot.can_send());
    oneshot.peeker().drop(&mut oneshot);
    assert!(oneshot.can_send());
    assert_eq!(oneshot.try_send(4), Ok(()));
    assert!(!oneshot.can_send());
}

#[test]
fn receiver_that_was_given_up_leaves_a_peeker() {
    let mut oneshot = Chan::<u8>::new(0);
    let (tx, rx) = oneshot.split();
    let peeker = oneshot.peeker();
    rx.drop(&mut oneshot);
    assert!(tx.can_send(&oneshot));
    peeker.drop(&mut oneshot);
    assert!(!tx.can_send(&oneshot));
}
