//! Addresses and identities of peers, and what is known of the network between
//! them.

pub mod addr;
pub mod addr_book;
pub mod identity;
pub mod keys;
pub mod lan;
pub mod nat_diag;
