//! The application-facing pieces driven end to end over the simulated
//! hardware: button debounce, display animation, timers under the drain
//! loop, and tone parameters.

use coopsched::button::{ButtonDirection, ButtonState, ButtonTask};
use coopsched::channel::Channel;
use coopsched::future::{OurFuture, Poll};
use coopsched::gpiote::InputChannel;
use coopsched::kernel::{poll_ready_tasks, run_tasks, Kernel};
use coopsched::light::controller::LedController;
use coopsched::light::matrix::LedMatrix;
use coopsched::light::task::LedTask;
use coopsched::sound::Sound;
use coopsched::time::{Timer, TimerState};

#[test]
fn millis_conversion_uses_the_tick_base() {
    // 32768 ticks per second: 100 ms is 3276.8 ticks, rounded down; the
    // durations are genuinely converted, not handed back as millisecond
    // counts.
    assert_eq!(Sound::new(1, 100).duration(), 3276);
    assert_eq!(Sound::new(1, 500).duration(), 16384);
    assert_eq!(Sound::new(1, 0).duration(), 0);
    assert_eq!(Sound::new(1, 1000).duration(), 32768);
}

#[test]
fn sound_period_and_duration() {
    let s = Sound::new(500, 50);
    assert_eq!(s.period(), 2000);
    assert_eq!(s.duration(), 1638);
    let s2 = Sound::new(300, 50);
    assert_eq!(s2.period(), 3333);
}

#[test]
fn timer_suspends_then_completes_on_time() {
    let mut k = Kernel::new(1);
    k.init();
    let mut t = Timer::new(100, &k);
    assert!(matches!(t.state, TimerState::Init));
    assert!(!t.is_ready(&k));
    // First poll registers the deadline and suspends.
    assert!(matches!(t.poll(0, &mut k), Ok(Poll::Pending)));
    k.advance_time(99).unwrap();
    assert!(matches!(t.poll(0, &mut k), Ok(Poll::Pending)));
    k.advance_time(1).unwrap();
    assert!(t.is_ready(&k));
    assert!(matches!(t.poll(0, &mut k), Ok(Poll::Ready(()))));
}

#[test]
fn drain_loop_polls_woken_timers() {
    let mut k = Kernel::new(2);
    k.init();
    let mut tasks = vec![Timer::new(100, &k), Timer::new(200, &k)];
    // Starting the executor primes both identities: each task gets its
    // initial poll and suspends on its deadline.
    assert_eq!(run_tasks(&mut k, &mut tasks, 10).0, Ok(2));
    // Nothing ready until time passes.
    assert_eq!(poll_ready_tasks(&mut k, &mut tasks, 10).0, Ok(0));
    k.advance_time(250).unwrap();
    assert_eq!(poll_ready_tasks(&mut k, &mut tasks, 10).0, Ok(2));
}

#[test]
fn button_press_sends_direction_then_debounces() {
    let mut k = Kernel::new(1);
    k.init();
    let input = InputChannel::new(&mut k.gpiote);
    let mut ch: Channel<ButtonDirection> = Channel::new();
    let sender = ch.get_sender();
    let mut btn = ButtonTask::new(input, ButtonDirection::Left, sender);

    // Button released (active low): raise the pin, clear the stray edge.
    k.gpiote.set_pin_level(0, true);
    k.gpiote_interrupt().unwrap();

    // Initial poll: waiting for the press.
    assert!(matches!(btn.poll(0, &mut k, &mut ch), Ok(Poll::Pending)));
    assert!(matches!(btn.state, ButtonState::WaitForPress));
    assert_eq!(ch.receive(), None);

    // Press: the falling edge wakes the task; its poll reports the
    // direction and starts the debounce delay.
    k.gpiote.set_pin_level(0, false);
    k.gpiote_interrupt().unwrap();
    assert_eq!(k.next_ready(), Some(0));
    assert!(matches!(btn.poll(0, &mut k, &mut ch), Ok(Poll::Pending)));
    assert_eq!(ch.receive(), Some(ButtonDirection::Left));
    assert!(matches!(btn.state, ButtonState::Debounce(_)));

    // While the delay runs, polls stay pending and send nothing.
    k.advance_time(1000).unwrap();
    assert!(matches!(btn.poll(0, &mut k, &mut ch), Ok(Poll::Pending)));
    assert!(matches!(btn.state, ButtonState::Debounce(_)));
    assert_eq!(ch.receive(), None);

    // Delay over (100 ms = 3276 ticks), button still held: watch for the
    // release.
    k.advance_time(3000).unwrap();
    assert_eq!(k.next_ready(), Some(0));
    assert!(matches!(btn.poll(0, &mut k, &mut ch), Ok(Poll::Pending)));
    assert!(matches!(btn.state, ButtonState::WaitForRelease));

    // Release: back to watching for the next press.
    k.gpiote.set_pin_level(0, true);
    k.gpiote_interrupt().unwrap();
    assert_eq!(k.next_ready(), Some(0));
    assert!(matches!(btn.poll(0, &mut k, &mut ch), Ok(Poll::Pending)));
    assert!(matches!(btn.state, ButtonState::WaitForPress));
    assert_eq!(ch.receive(), None);
}

#[test]
fn animation_toggles_on_the_blink_cadence() {
    let mut k = Kernel::new(1);
    k.init();
    let mut c = LedController::new(LedMatrix::new());
    assert_eq!(c.operator.col, vec![true, true, true, true, true]);
    // First poll toggles the active column and arms the interval.
    assert!(matches!(c.poll(0, &mut k), Ok(Poll::Pending)));
    assert_eq!(c.operator.col[0], false);
    // Mid-interval polls leave it alone.
    k.advance_time(1000).unwrap();
    assert!(matches!(c.poll(0, &mut k), Ok(Poll::Pending)));
    assert_eq!(c.operator.col[0], false);
    // After the 500 ms interval (16384 ticks) it toggles back.
    k.advance_time(16000).unwrap();
    assert!(matches!(c.poll(0, &mut k), Ok(Poll::Pending)));
    assert_eq!(c.operator.col[0], true);
}

#[test]
fn received_press_shifts_the_active_column() {
    let mut k = Kernel::new(1);
    k.init();
    let mut ch: Channel<ButtonDirection> = Channel::new();
    let receiver = ch.get_receiver();
    let controller = LedController::new(LedMatrix::new());
    let mut led = LedTask::new(controller, receiver);

    assert!(matches!(led.poll(0, &mut k, &mut ch), Ok(Poll::Pending)));
    assert_eq!(led.controller.operator.active_col, 0);

    ch.send(ButtonDirection::Right);
    assert!(matches!(led.poll(0, &mut k, &mut ch), Ok(Poll::Pending)));
    assert_eq!(led.controller.operator.active_col, 1);
    assert_eq!(ch.receive(), None);

    // Left from column 0 wraps to the rightmost column.
    ch.send(ButtonDirection::Left);
    ch.send(ButtonDirection::Left);
    assert!(matches!(led.poll(0, &mut k, &mut ch), Ok(Poll::Pending)));
    assert_eq!(led.controller.operator.active_col, 0);
    ch.send(ButtonDirection::Left);
    assert!(matches!(led.poll(0, &mut k, &mut ch), Ok(Poll::Pending)));
    assert_eq!(led.controller.operator.active_col, 4);
}
