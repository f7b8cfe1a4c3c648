//! A rental-marketplace ledger: landlords list properties, tenants enter
//! escrow-backed rental agreements, rent is collected on a fixed cadence, and
//! agreements are terminated, renewed, transferred or extended under a
//! one-directional state machine.
//!
//! Every operation is a pure state transition. The caller supplies the
//! current time, the already-verified caller identity and the payer's
//! spendable balance; the library returns the new records together with the
//! fund movement that must be executed in the same atomic unit.
pub mod engine;
pub mod laws;
pub mod oracle;
pub mod text;
pub mod types;
