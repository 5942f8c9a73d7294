//! The race record: the data the escrow state machine stores per wager,
//! together with its well-formedness invariant.

use vstd::prelude::*;

verus! {

broadcast use vstd::array::group_array_axioms;

/// A 32-byte account identifier, the plain-value form of a ledger address.
/// Participants, the asset mint, the winner and the program itself are all
/// named by such keys.
#[derive(Clone, Copy, PartialEq, Eq, Debug)]
pub struct AccountId {
    pub bytes: [u8; 32],
}

/// Decides whether two account identifiers name the same account.
pub fn account_id_eq(a: &AccountId, b: &AccountId) -> (r: bool)
    ensures
        r == (a == b),
{
    let mut i: usize = 0;
    while i < 32
        invariant
            i <= 32,
            forall|j: int| 0 <= j < i ==> a.bytes@[j] == b.bytes@[j],
        decreases 32 - i,
    {
        if a.bytes[i] != b.bytes[i] {
            return false;
        }
        i += 1;
    }
    proof {
        assert(a.bytes =~= b.bytes);
    }
    true
}

/// One participant's reported race outcome: finish time in milliseconds
/// (lower is better), coins collected (higher is better, used only to break
/// ties), and a 32-byte commitment hash binding the submission to off-band
/// evidence such as a recorded input trace.
#[derive(Clone, Copy, PartialEq, Eq, Debug)]
pub struct RaceResult {
    pub finish_time_ms: u64,
    pub coins_collected: u64,
    pub input_hash: [u8; 32],
}

/// The lifecycle stage of a race.  Transitions are strictly forward:
/// `Waiting` (one participant escrowed) to `Active` (both escrowed) to
/// `Settled` (winner recorded).
#[derive(Clone, Copy, PartialEq, Eq, Structural, Debug)]
pub enum RaceStatus {
    Waiting,
    Active,
    Settled,
}

/// Orders the lifecycle stages; used to state that `status` never moves
/// backwards.
pub open spec fn status_rank(s: RaceStatus) -> int {
    match s {
        RaceStatus::Waiting => 0,
        RaceStatus::Active => 1,
        RaceStatus::Settled => 2,
    }
}

/// One race record: a wager jointly owned by its two participants, held by
/// the ledger account that also holds the escrowed funds.
#[verifier::ext_equal]
#[derive(Clone, PartialEq, Eq, Debug)]
pub struct Race {
    /// Opaque identifier, part of the account derivation input; immutable.
    pub race_id: String,
    /// Identifier of the currency/asset used for the fee; informational.
    pub token_mint: AccountId,
    /// Fixed per-participant stake in the smallest asset unit; immutable.
    pub entry_fee_sol: u64,
    /// The creating participant.
    pub player1: AccountId,
    /// The second participant; absent until joined.
    pub player2: Option<AccountId>,
    /// Lifecycle stage.
    pub status: RaceStatus,
    /// First participant's reported outcome; write-once.
    pub player1_result: Option<RaceResult>,
    /// Second participant's reported outcome; write-once.
    pub player2_result: Option<RaceResult>,
    /// Set exactly once, by settlement.
    pub winner: Option<AccountId>,
    /// Funds currently held in escrow for this race.
    pub escrow_amount: u64,
    /// Creation timestamp; informational.
    pub created_at: i64,
    /// Disambiguating byte from the account address derivation.
    pub bump: u8,
}

impl Race {
    /// Well-formedness of a race record.  Creation establishes it and every
    /// transition preserves it:
    /// - the entry fee is positive and small enough that the doubled stake
    ///   still fits in a `u64`;
    /// - before the second participant joins, exactly one fee is escrowed and
    ///   nothing else is recorded;
    /// - while the race is active, both fees are escrowed and no winner is
    ///   recorded;
    /// - once settled, both results and the winner (one of the two
    ///   participants) are recorded, and the escrow holds either the full
    ///   pooled stake or, after the claim, nothing.
    pub open spec fn wf(self) -> bool {
        &&& 1 <= self.entry_fee_sol <= u64::MAX / 2
        &&& match self.status {
            RaceStatus::Waiting => {
                &&& self.player2 is None
                &&& self.player1_result is None
                &&& self.player2_result is None
                &&& self.winner is None
                &&& self.escrow_amount == self.entry_fee_sol
            },
            RaceStatus::Active => {
                &&& self.player2 is Some
                &&& self.winner is None
                &&& self.escrow_amount == 2 * self.entry_fee_sol
            },
            RaceStatus::Settled => {
                &&& self.player2 is Some
                &&& self.player1_result is Some
                &&& self.player2_result is Some
                &&& (self.winner == Some(self.player1) || self.winner == self.player2)
                &&& (self.escrow_amount == 2 * self.entry_fee_sol || self.escrow_amount == 0)
            },
        }
    }
}

} // verus!
