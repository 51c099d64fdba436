use spmv_oneshot::{RxError, TxError};

#[test]
fn tx_error_gives_the_message_back() {
    assert_eq!(TxError::Divorced(3).try_into_inner(), Ok(3));
    assert_eq!(TxError::Stuffed(4).try_into_inner(), Ok(4));
    assert_eq!(TxError::<u8>::Cancelled.try_into_inner(), Err(TxError::Cancelled));
}

#[test]
fn tx_error_maps_the_message() {
    assert_eq!(TxError::Divorced(3).map_inner(|x: i32| x + 1), TxError::Divorced(4));
    assert_eq!(TxError::Stuffed(3).map_inner(|x: i32| x * 2), TxError::Stuffed(6));
    assert_eq!(TxError::Cancelled.map_inner(|x: i32| x + 1), TxError::Cancelled);
}

#[test]
fn rx_error_gives_back_what_it_carries() {
    assert!(matches!(RxError::Divorced(3).try_into_inner(), Ok(3)));
    assert!(matches!(RxError::Drained(4).try_into_inner(), Ok(4)));
    assert!(matches!(RxError::<u8>::Cancelled.try_into_inner(), Err(RxError::Cancelled)));
}

#[test]
fn rx_error_rebinds_what_it_carries() {
    assert!(matches!(RxError::Divorced(3).rebind(|x: i32| x + 1), RxError::Divorced(4)));
    assert!(matches!(RxError::Drained(3).rebind(|x: i32| x * 2), RxError::Drained(6)));
    assert!(matches!(RxError::Cancelled.rebind(|x: i32| x + 1), RxError::Cancelled));
}

#[test]
fn rx_error_as_text() {
    let text = |x: i32| x.to_string();
    assert_eq!(RxError::Divorced(7).rebind(text).fmt(), "ReceiverError::Divoced(7)");
    assert_eq!(RxError::Drained(-7).rebind(text).fmt(), "ReceiverError::Drained(-7)");
    assert_eq!(RxError::Cancelled.rebind(text).fmt(), "ReceiverError::Cancelled");
}
