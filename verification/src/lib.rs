//! Cooperative firmware core: a tick-driven task scheduler, a serial
//! transmit ring buffer with its drain state machine, and a GPIO register
//! model. The hardware-facing layers (timer, USART and port registers,
//! interrupt masking) live outside this crate; every state transition the
//! firmware performs on shared data is implemented and specified here.

pub mod gpio;
pub mod ring;
pub mod scheduler;
pub mod serial;
pub mod ticks;
