//! The single-slot overwrite mailbox: latest value wins, a receive
//! clears the slot.

use coopsched::button::ButtonDirection;
use coopsched::channel::Channel;

#[test]
fn overwrite_keeps_latest_value() {
    let mut ch: Channel<u32> = Channel::new();
    ch.send(7);
    ch.send(9);
    assert_eq!(ch.receive(), Some(9));
    assert_eq!(ch.receive(), None);
}

#[test]
fn receive_on_empty_is_none() {
    let mut ch: Channel<u32> = Channel::new();
    assert_eq!(ch.receive(), None);
}

#[test]
fn sender_and_receiver_handles_share_the_slot() {
    let mut ch: Channel<ButtonDirection> = Channel::new();
    let sender = ch.get_sender();
    let receiver = ch.get_receiver();
    sender.send(&mut ch, ButtonDirection::Left);
    sender.send(&mut ch, ButtonDirection::Right);
    assert_eq!(receiver.receive(&mut ch), Some(ButtonDirection::Right));
    assert_eq!(receiver.receive(&mut ch), None);
}
