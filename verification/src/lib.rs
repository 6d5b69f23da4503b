//! Critical sections for a single-core MSP430-style processor, built on
//! masking of maskable interrupts rather than on locks.
//!
//! The processor state visible to this crate — the status register with its
//! global interrupt-enable (GIE) flag — is modeled by [`register::Core`].
//! Masking and unmasking act on that model, and the save/restore discipline
//! that makes nested critical sections correct is stated in contracts and
//! proved. On real hardware the two primitive transitions are the `dint` and
//! `eint` instructions; binding them to a target stays outside this crate.

pub mod critical_section;
pub mod interrupt;
pub mod register;
