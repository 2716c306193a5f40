//! The decisions of a dynamic-DNS updater, apart from the network.
//!
//! A run keeps one record of a registrar's directory at an address: either a
//! value that it is given, or the caller's own address. The library cuts the
//! domain name, finds the record in a listing, compares addresses, and says
//! at every step what is to be asked of which service next. Its caller does
//! the asking, and reads and writes addresses as text.

pub mod address;
pub mod domain;
pub mod failure;
pub mod laws;
pub mod record;
pub mod updater;
