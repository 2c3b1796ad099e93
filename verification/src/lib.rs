//! Core of a cooperative, single-threaded task executor for a bare-metal
//! target: a bounded FIFO ready queue with integer task identities, a
//! monotonic 64-bit clock reconstructed from a narrow wrapping hardware
//! counter plus an overflow epoch, a deadline manager that multiplexes many
//! software timers onto one hardware compare register, an edge-triggered
//! input wake bridge, and a single-slot overwrite mailbox for inter-task
//! messages.
//!
//! Hardware registers (counter, compare, event flags, pin levels) are held
//! as plain values in model types, so the scheduling decisions taken on them
//! are verified; the bounded collections come from `heapless`, reached
//! through a small trusted layer.

pub mod button;
pub mod channel;
pub mod executor;
pub mod future;
pub mod gpiote;
pub mod kernel;
pub mod light;
pub mod sound;
pub mod ticker;
pub mod time;
pub mod wakeup;
