//! Driver logic for an on-chip non-volatile memory controller.
//!
//! The controller sits between the memory buses and the flash. This crate
//! holds everything the driver decides: the flash geometry and its banks, the
//! guard that keeps erase and write requests out of the boot-protected range,
//! the order of register accesses of every operation, the decoding of the
//! sticky error flags, and the bit-field views of the fixed calibration
//! regions.
//!
//! No register is touched from here. An operation is a value of
//! [`operation::Operation`]: it names the next register access as an
//! [`operation::Action`], the caller performs it and hands back what the
//! hardware answered as a [`operation::Response`].
//!
//! - [`nvm`] takes the requests and refuses what the guard forbids.
//! - [`script`] says which steps an operation takes, [`operation`] how each
//!   step is carried out access by access, and [`trace`] what a whole run
//!   comes to.
//! - [`guard`], [`geometry`], [`registers`] and [`error`] hold the ranges,
//!   sizes, register values and errors that these speak of.
//! - [`regions`] decodes the user page and the calibration areas.
pub mod geometry;
pub mod registers;
pub mod error;
pub mod guard;
pub mod script;
pub mod operation;
pub mod regions;
pub mod nvm;
pub mod trace;
