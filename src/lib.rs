//! Sampling a push button that shares its line with the chip-select of the
//! external flash bus.
//!
//! The hardware cannot be touched from verified code, so the sampling protocol
//! is a state machine: [`poll::BootselPoll`] is handed the reply to the last
//! hardware action and answers with the next action to perform. A driver that
//! owns the registers runs it until it asks to finish or to fault.

pub mod action;
pub mod poll;
