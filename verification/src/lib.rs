//! Preflight-checked submission of a plain value transfer.
//!
//! A [`executor::TransferExecutor`] begins an attempt: it resolves the sender
//! from its credentials and the recipient from its textual address. From then
//! on the attempt is a state machine. It names the call to the chain client
//! that is due ([`executor::Action`]), takes the client's answer
//! ([`executor::Event`]) and either names the next call or ends with a
//! [`transfer::TransferOutcome`] or a [`transfer::TransferError`]. The library
//! itself never touches the network: whoever drives an attempt makes the
//! calls, so the same attempt runs against a node or against a script.
//!
//! The steps are fixed. The sender's balance must cover the amount, or the
//! attempt ends with `InsufficientFunds` and nothing is submitted. The fee cap
//! is the quoted gas price plus the configured priority fee, at the gas limit
//! of a plain transfer. After the submission the attempt waits for the
//! receipt until the configured deadline; a wait that runs out, or is
//! cancelled, ends in `Dropped`, which is an outcome and no error.
//!
//! [`trace`] states what holds of whole runs, whatever the client answers.

pub mod address;
pub mod amount;
pub mod credentials;
pub mod executor;
pub mod fee;
pub mod trace;
pub mod transfer;
