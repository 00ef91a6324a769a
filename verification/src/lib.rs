//! A token-streaming ledger: a sender locks a deposit that accrues linearly to a
//! recipient between a start and an end time, gated by a cliff.
//!
//! The crate holds the ledger's state and every decision the contract makes; the
//! host that runs it performs the authorisations, token transfers and events
//! that each operation reports back.

pub mod account;
pub mod accrual;
pub mod laws;
pub mod ledger;
pub mod stream;
pub mod types;

pub use account::Account;
pub use accrual::calculate_accrued_amount;
pub use ledger::{Config, FluxoraStream, Receipt, Transfer};
pub use stream::{Stream, StreamModel};
pub use types::{StreamError, StreamEvent, StreamStatus};
