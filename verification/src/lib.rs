//! The native-function bridge of a Move-style virtual machine.
//!
//! - [`layout`] describes how types are encoded, and [`constant_size`]
//!   decides from a layout alone whether every value of the type serializes
//!   to the same number of bytes.
//! - [`bcs`] holds the two serialization natives. A native never touches the
//!   virtual machine: it is told what the host's operations gave and answers
//!   with the next thing to do ([`protocol`]), so that every decision, every
//!   amount billed ([`gas`]) and every value returned ([`value`]) is made
//!   here. [`runs`] states what follows for whole calls.
//! - [`table`] builds the dispatch table and rejects colliding keys, and
//!   [`natives`] lays down which groups of natives the framework's table is
//!   made of.

pub mod bcs;
pub mod constant_size;
pub mod gas;
pub mod layout;
pub mod natives;
pub mod protocol;
pub mod runs;
pub mod status;
pub mod table;
pub mod value;
