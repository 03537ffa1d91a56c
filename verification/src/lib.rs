//! Core logic of an interrupt-driven streaming firmware: a critical-section
//! cell that hands peripheral handles to interrupt context, an edge-triggered
//! toggle service, a timer/DAC/DMA streaming pipeline descriptor, and a PWM
//! duty-cycle configuration. Register writes and other hardware effects live
//! outside this crate; everything here is plain verified state logic.

pub mod cell;
pub mod dac;
pub mod dma;
pub mod errors;
pub mod gpio;
pub mod pipeline;
pub mod pwm;
pub mod service;
pub mod startup;
pub mod timer;
