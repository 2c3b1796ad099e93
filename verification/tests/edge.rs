//! The edge wake bridge: immediate resolution on an already-matching
//! level, exactly one wake per fired edge, and slot reset.

use coopsched::future::Poll;
use coopsched::gpiote::{InputChannel, PinState, INVALID_TASK_ID};
use coopsched::kernel::Kernel;

#[test]
fn wait_resolves_without_interrupt_when_level_matches() {
    let mut k = Kernel::new(1);
    k.init();
    let mut input = InputChannel::new(&mut k.gpiote);
    // The pin is already low: no suspension, no interrupt involved.
    assert!(matches!(input.wait_for(PinState::Low, 0, &mut k), Ok(Poll::Ready(()))));
    assert_eq!(k.gpiote.channels[0].wake_slot, INVALID_TASK_ID);
    assert_eq!(k.next_ready(), None);
}

#[test]
fn falling_edge_delivers_exactly_one_wake() {
    let mut k = Kernel::new(1);
    k.init();
    let mut input = InputChannel::new(&mut k.gpiote);
    // Raise the pin first; the stray rising edge is cleared with no wake,
    // since no task has registered on the channel yet.
    k.gpiote.set_pin_level(0, true);
    k.gpiote_interrupt().unwrap();
    assert_eq!(k.next_ready(), None);

    // Now the wait stays pending and records the waiting task.
    assert!(matches!(input.wait_for(PinState::Low, 0, &mut k), Ok(Poll::Pending)));
    assert_eq!(k.gpiote.channels[0].wake_slot, 0);

    // The falling edge fires the channel: exactly one wake, and the slot
    // reverts to "no one waiting".
    k.gpiote.set_pin_level(0, false);
    k.gpiote_interrupt().unwrap();
    assert_eq!(k.gpiote.channels[0].wake_slot, INVALID_TASK_ID);
    assert_eq!(k.next_ready(), Some(0));
    assert_eq!(k.next_ready(), None);

    // The woken task's next poll sees the level it waited for.
    assert!(matches!(input.wait_for(PinState::Low, 0, &mut k), Ok(Poll::Ready(()))));
}

#[test]
fn channels_are_claimed_in_order() {
    let mut k = Kernel::new(2);
    let a = InputChannel::new(&mut k.gpiote);
    let b = InputChannel::new(&mut k.gpiote);
    assert_eq!(a.channel_id, 0);
    assert_eq!(b.channel_id, 1);
    assert!(k.gpiote.channels[0].enabled);
    assert!(k.gpiote.channels[1].enabled);
}

#[test]
fn second_waiter_overwrites_the_slot() {
    let mut k = Kernel::new(2);
    k.init();
    let mut input = InputChannel::new(&mut k.gpiote);
    k.gpiote.set_pin_level(0, true);
    k.gpiote_interrupt().unwrap();
    assert!(matches!(input.wait_for(PinState::Low, 0, &mut k), Ok(Poll::Pending)));
    assert!(matches!(input.wait_for(PinState::Low, 1, &mut k), Ok(Poll::Pending)));
    // One slot per channel: the later registration wins.
    assert_eq!(k.gpiote.channels[0].wake_slot, 1);
}
