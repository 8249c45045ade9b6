//! Deterministic building blocks for driving a simulated ledger in tests.
//!
//! The library decides and computes; it never talks to a ledger. Its
//! callers hold the credentials, sign what the library has planned,
//! submit it, and hand back what the ledger answered.
//!
//! - [`dispatch`]: the eight-byte identifier that routes a call to its
//!   handler.
//! - [`instruction`], [`transaction`]: instructions, and the unsigned
//!   transactions that carry them.
//! - [`client`], [`token`], [`setup`]: the transactions of the program
//!   under test, of the token fixtures and of the credential fixtures,
//!   and the reader of a token account's balance.
//! - [`programs`]: what the system and token programs' own builders
//!   return.
//! - [`state`]: typed records behind a discriminator.
//! - [`clock`]: fast-forwarding the simulated clock.
//! - [`keys`], [`encoding`]: addresses and little-endian integers.

pub mod client;
pub mod clock;
pub mod dispatch;
pub mod encoding;
pub mod instruction;
pub mod keys;
pub mod programs;
pub mod setup;
pub mod state;
pub mod token;
pub mod transaction;
