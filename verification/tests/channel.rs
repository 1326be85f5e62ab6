use rtlsdr::channel::{Channel, Received, TrySendError};

#[test]
fn items_come_out_in_the_order_they_went_in() {
    let mut c: Channel<u32> = Channel::new(None);
    assert_eq!(c.try_send(1), Ok(()));
    assert_eq!(c.try_send(2), Ok(()));
    assert_eq!(c.try_recv(), Received::Item(1));
    assert_eq!(c.try_send(3), Ok(()));
    assert_eq!(c.try_recv(), Received::Item(2));
    assert_eq!(c.try_recv(), Received::Item(3));
    assert_eq!(c.try_recv(), Received::Empty);
}

#[test]
fn full_channel_hands_the_item_back() {
    let mut c: Channel<u32> = Channel::new(Some(2));
    assert_eq!(c.try_send(1), Ok(()));
    assert_eq!(c.try_send(2), Ok(()));
    assert!(!c.would_accept());
    assert_eq!(c.try_send(3), Err(TrySendError::Full(3)));
    assert_eq!(c.try_recv(), Received::Item(1));
    assert!(c.would_accept());
    assert_eq!(c.try_send(3), Ok(()));
    assert_eq!(c.try_recv(), Received::Item(2));
    assert_eq!(c.try_recv(), Received::Item(3));
}

#[test]
fn what_was_sent_outlives_the_sender() {
    let mut c: Channel<u32> = Channel::new(Some(2));
    assert_eq!(c.try_send(7), Ok(()));
    c.add_sender();
    assert_eq!(c.senders(), 2);
    c.drop_sender();
    c.drop_sender();
    assert_eq!(c.try_recv(), Received::Item(7));
    assert_eq!(c.try_recv(), Received::Disconnected);
}

#[test]
fn channel_stays_open_while_a_sender_is_left() {
    let mut c: Channel<u32> = Channel::new(None);
    c.add_sender();
    c.drop_sender();
    assert_eq!(c.senders(), 1);
    assert_eq!(c.try_recv(), Received::Empty);
}

#[test]
fn nothing_is_taken_once_the_receiver_is_gone() {
    let mut c: Channel<u32> = Channel::new(Some(1));
    assert_eq!(c.try_send(1), Ok(()));
    c.drop_receiver();
    assert_eq!(c.try_send(2), Err(TrySendError::Disconnected(2)));
    assert_eq!(c.try_recv(), Received::Empty);
}
