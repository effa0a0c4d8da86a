//! Reservations with an escrowed payment and a loyalty reward.
//!
//! A business creates a reservation, a customer confirms it by paying, and
//! the business later resolves it as a completed visit, which earns the
//! customer a loyalty reward, or as a no-show.

pub mod contract;
pub mod error;
pub mod escrow;
pub mod history;
pub mod laws;
pub mod model;
pub mod principal;
pub mod reservation;
pub mod status;

pub use contract::ReserveLContract;
pub use error::ContractError;
pub use escrow::{Transfer, TransferError, LOYALTY_REWARD};
pub use principal::Approvals;
pub use reservation::{Configuration, Reservation};
pub use status::ReservationStatus;
