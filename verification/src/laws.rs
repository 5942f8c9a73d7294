//! Laws of the escrow state machine, stated and proved over the spec
//! functions that give the transitions their meaning.

use vstd::prelude::*;

use crate::race::{AccountId, Race, RaceStatus};
use crate::transitions::{
    SolracerError, spec_claim_prize, spec_join_race, spec_settle_race, spec_submit_result,
};

verus! {

/// Law: joining a well-formed waiting race escrows exactly twice the entry
/// fee, and the record stays well-formed.
pub proof fn lemma_join_doubles_escrow(race: Race, player2: AccountId)
    requires
        race.wf(),
        spec_join_race(race, player2) is Ok,
    ensures
        spec_join_race(race, player2)->Ok_0.escrow_amount == 2 * race.entry_fee_sol,
        spec_join_race(race, player2)->Ok_0.wf(),
{
}

/// Law: a participant's second submission is refused with
/// `ResultAlreadySubmitted`, whatever it reports, and the slot keeps the
/// first submission.
pub proof fn lemma_resubmit_rejected(
    race: Race,
    player: AccountId,
    t1: u64,
    c1: u64,
    h1: [u8; 32],
    t2: u64,
    c2: u64,
    h2: [u8; 32],
)
    requires
        spec_submit_result(race, player, t1, c1, h1) is Ok,
    ensures
        ({
            let raced = spec_submit_result(race, player, t1, c1, h1)->Ok_0;
            &&& spec_submit_result(raced, player, t2, c2, h2) == Err::<Race, SolracerError>(
                SolracerError::ResultAlreadySubmitted,
            )
            &&& (player == race.player1 ==> raced.player1_result->Some_0.finish_time_ms == t1
                && raced.player1_result->Some_0.coins_collected == c1
                && raced.player1_result->Some_0.input_hash == h1)
            &&& (player != race.player1 ==> raced.player2_result->Some_0.finish_time_ms == t1
                && raced.player2_result->Some_0.coins_collected == c1
                && raced.player2_result->Some_0.input_hash == h1)
        }),
{
}

/// Law: an active race with a missing result cannot be settled; the attempt
/// is refused with `ResultsNotComplete`.
pub proof fn lemma_settle_needs_both_results(race: Race)
    requires
        race.status == RaceStatus::Active,
        race.player1_result is None || race.player2_result is None,
    ensures
        spec_settle_race(race) == Err::<Race, SolracerError>(SolracerError::ResultsNotComplete),
{
}

/// Law: a race settles at most once; settling the settled record is refused
/// with `InvalidRaceStatus`, so the recorded winner is immutable.
pub proof fn lemma_settle_twice_rejected(race: Race)
    requires
        spec_settle_race(race) is Ok,
    ensures
        spec_settle_race(spec_settle_race(race)->Ok_0) == Err::<Race, SolracerError>(
            SolracerError::InvalidRaceStatus,
        ),
{
}

/// Law: on a settled race, a claim by anyone other than the stored winner is
/// refused with `NotWinner` (and, the executable contract adds, leaves the
/// record untouched).
pub proof fn lemma_claim_by_non_winner_rejected(race: Race, claimant: AccountId)
    requires
        race.status == RaceStatus::Settled,
        race.winner != Some(claimant),
    ensures
        spec_claim_prize(race, claimant) == Err::<(Race, u64), SolracerError>(
            SolracerError::NotWinner,
        ),
{
}

/// Law: the winner's claim pays out the whole escrow and zeroes it, keeping
/// the record well-formed.
pub proof fn lemma_claim_empties_escrow(race: Race, claimant: AccountId)
    requires
        race.wf(),
        spec_claim_prize(race, claimant) is Ok,
    ensures
        spec_claim_prize(race, claimant)->Ok_0.1 == race.escrow_amount,
        spec_claim_prize(race, claimant)->Ok_0.0.escrow_amount == 0,
        spec_claim_prize(race, claimant)->Ok_0.0.wf(),
{
}

/// Law: after a successful claim, the same claim still succeeds but moves
/// zero funds; the zeroed escrow is authoritative and can never be drained
/// again.
pub proof fn lemma_second_claim_moves_nothing(race: Race, claimant: AccountId)
    requires
        spec_claim_prize(race, claimant) is Ok,
    ensures
        ({
            let claimed = spec_claim_prize(race, claimant)->Ok_0.0;
            &&& spec_claim_prize(claimed, claimant) is Ok
            &&& spec_claim_prize(claimed, claimant)->Ok_0.1 == 0
            &&& spec_claim_prize(claimed, claimant)->Ok_0.0.escrow_amount == 0
        }),
{
}

} // verus!
