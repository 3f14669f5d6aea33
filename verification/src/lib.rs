//! A two-party conditional payment hold ("escrow").
//!
//! A buyer's commitment of an amount is recorded and held in a pending state
//! until either the buyer authorizes release to the seller, or either party
//! triggers a refund back to the buyer. The host runtime that supplies
//! atomic transactions, timestamps and cryptographic signer verification is
//! an external collaborator: it hands this library plain values (a
//! timestamp, the set of principals whose authorization it has verified) and
//! persists the state object the library returns.

pub mod auth;
pub mod contract;
pub mod errors;
pub mod escrow;
pub mod laws;
pub mod principal;
pub mod store;

pub use auth::AuthContext;
pub use contract::EscrowContract;
pub use errors::Error;
pub use escrow::Escrow;
pub use principal::Principal;
pub use store::EscrowBook;
pub use store::Store;
