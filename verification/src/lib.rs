//! Two-party wagering escrow state machine.
//!
//! Two participants each lock an equal entry fee into a jointly owned race
//! account; each reports a race result, a deterministic rule settles the
//! winner, and the winner withdraws the pooled stake exactly once.  The
//! record layout and the five guarded transitions are verified here; the
//! surrounding ledger (account storage and atomic value transfer) is an
//! external collaborator that executes the fund movements these functions
//! request.

pub mod address;
pub mod race;
pub mod transitions;
pub mod laws;
