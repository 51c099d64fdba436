use spmv_oneshot::flags::{
    K_DATA_VALID_FLAG, K_MUTEX_ACQ_FLAG, K_PEEKERS_NUM_MASK, K_RX_CLOSED_FLAG, K_TX_CLOSED_FLAG,
    K_TX_EXPIRE_FLAG,
};
use spmv_oneshot::Flags;

fn flag_default_test_(flags: &Flags) {
    let v = flags.value();

    assert!(Flags::expect_mutex_released(v));

    // data is not valid by default
    assert!(Flags::expect_data_invalid(v));

    // tx expire flag is off by default
    assert!(Flags::expect_tx_not_expire(v));

    // tx is open by default
    assert!(Flags::expect_tx_open(v));

    // rx is open by default
    assert!(Flags::expect_rx_open(v));
}

#[test]
fn flag_default_test() {
    let flags = Flags::new(0);
    flag_default_test_(&flags);
}

#[test]
fn set_flag_test() {
    let mut flags = Flags::new(0);

    flag_default_test_(&flags);

    assert!(flags.try_set_data_valid(false).is_err());
    assert!(flags.try_set_data_valid(true).is_ok());
    assert!(flags.try_set_data_valid(true).is_err());
    assert!(flags.try_set_data_valid(false).is_ok());

    assert!(flags.try_set_tx_closed().is_ok());
    assert!(flags.try_set_tx_closed().is_err());
    assert!(flags.try_set_tx_closed().is_err());

    assert!(flags.try_set_rx_closed().is_ok());
    assert!(flags.try_set_rx_closed().is_err());
    assert!(flags.try_set_rx_closed().is_err());
}

#[test]
fn flags_take_up_the_word() {
    assert_eq!(K_MUTEX_ACQ_FLAG, 1usize << (usize::BITS - 1));
    assert_eq!(K_DATA_VALID_FLAG, 1usize << (usize::BITS - 2));
    assert_eq!(K_TX_EXPIRE_FLAG, 1usize << (usize::BITS - 3));
    assert_eq!(K_TX_CLOSED_FLAG, 1usize << (usize::BITS - 4));
    assert_eq!(K_RX_CLOSED_FLAG, 1usize << (usize::BITS - 5));
    assert_eq!(K_PEEKERS_NUM_MASK, K_RX_CLOSED_FLAG - 1);
    let all = K_MUTEX_ACQ_FLAG | K_DATA_VALID_FLAG | K_TX_EXPIRE_FLAG | K_TX_CLOSED_FLAG
        | K_RX_CLOSED_FLAG | K_PEEKERS_NUM_MASK;
    assert_eq!(all, usize::MAX);
}

#[test]
fn refused_exchange_returns_the_word() {
    let mut flags = Flags::new(0);
    assert_eq!(flags.try_set_sent(), Ok(0));
    let word = K_DATA_VALID_FLAG | K_TX_EXPIRE_FLAG;
    assert_eq!(flags.value(), word);
    assert_eq!(flags.try_set_sent(), Err(word));
    assert_eq!(flags.value(), word);
    assert_eq!(flags.try_set_data_valid(false), Ok(word));
    assert_eq!(flags.value(), K_TX_EXPIRE_FLAG);
    assert_eq!(flags.try_set_sent(), Err(K_TX_EXPIRE_FLAG));
}

#[test]
fn sending_needs_an_audience() {
    assert!(Flags::expect_can_send(0));
    assert!(!Flags::expect_can_send(K_RX_CLOSED_FLAG));
    assert!(Flags::expect_can_send(K_RX_CLOSED_FLAG | 1));
    assert!(Flags::expect_can_send(K_TX_CLOSED_FLAG));
    assert!(!Flags::expect_can_send(K_TX_EXPIRE_FLAG));
    assert!(!Flags::expect_can_send(K_DATA_VALID_FLAG));
}

#[test]
fn receiving_needs_a_message_or_a_sender() {
    assert!(Flags::expect_can_receive(0));
    assert!(!Flags::expect_can_receive(K_TX_CLOSED_FLAG));
    assert!(Flags::expect_can_receive(K_TX_CLOSED_FLAG | K_DATA_VALID_FLAG));
    assert!(Flags::expect_can_peek(0));
    assert!(!Flags::expect_can_peek(K_TX_CLOSED_FLAG));
    assert!(Flags::expect_can_peek(K_TX_CLOSED_FLAG | K_DATA_VALID_FLAG));
}

#[test]
fn peekers_are_counted_beside_the_flags() {
    let mut flags = Flags::new(K_RX_CLOSED_FLAG | K_MUTEX_ACQ_FLAG);
    assert_eq!(flags.increase_peeker_count(), 0);
    assert_eq!(flags.increase_peeker_count(), 1);
    assert_eq!(flags.peeker_count(), 2);
    assert_eq!(flags.value(), K_RX_CLOSED_FLAG | K_MUTEX_ACQ_FLAG | 2);
    assert_eq!(flags.decrease_peeker_count(), 2);
    assert_eq!(flags.decrease_peeker_count(), 1);
    assert_eq!(flags.value(), K_RX_CLOSED_FLAG | K_MUTEX_ACQ_FLAG);
}

#[test]
fn peeker_count_has_its_limits() {
    assert!(Flags::expect_incr_peekers_count_legal(K_PEEKERS_NUM_MASK - 1));
    assert!(!Flags::expect_incr_peekers_count_legal(K_PEEKERS_NUM_MASK));
    assert!(!Flags::expect_decr_peekers_count_legal(K_RX_CLOSED_FLAG));
    assert!(Flags::expect_decr_peekers_count_legal(1));
    assert_eq!(
        Flags::desire_incr_peeker_count(K_TX_CLOSED_FLAG | K_PEEKERS_NUM_MASK),
        K_TX_CLOSED_FLAG
    );
    assert_eq!(Flags::write_peekers_count(K_TX_CLOSED_FLAG | 3, K_RX_CLOSED_FLAG | 5), K_TX_CLOSED_FLAG | 5);
}

#[test]
fn lock_signal() {
    let word = K_TX_EXPIRE_FLAG | 4;
    assert!(Flags::is_released(word));
    let held = Flags::make_acquired(word);
    assert_eq!(held, K_MUTEX_ACQ_FLAG | word);
    assert!(Flags::is_acquired(held));
    assert_eq!(Flags::make_released(held), word);
    let mut flags = Flags::new(word);
    assert!(flags.try_acquire());
    assert!(!flags.try_acquire());
    assert!(flags.release());
    assert!(!flags.release());
    assert_eq!(flags.value(), word);
}

#[test]
fn flags_as_text() {
    let flags = Flags::new(0);
    assert_eq!(
        flags.fmt(),
        "Acq(false), DataValid(false), TxClosed(false), RxClosed(false), PeekerNum(0)"
    );
    let flags = Flags::new(K_MUTEX_ACQ_FLAG | K_DATA_VALID_FLAG | K_RX_CLOSED_FLAG | 1203);
    assert_eq!(
        flags.fmt(),
        "Acq(true), DataValid(true), TxClosed(false), RxClosed(true), PeekerNum(1203)"
    );
}
