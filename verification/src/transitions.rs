//! The five guarded transitions of the escrow state machine.
//!
//! Each executable function validates its preconditions against the stored
//! record, applies the transition, and reports the fund movement the ledger
//! must perform atomically with it.  A failed call returns the violated
//! precondition's error and leaves the record unchanged.  The meaning of
//! every transition is given by a `spec` function of the same shape, so that
//! laws about sequences of operations can be stated and proved over those
//! spec functions alone.

use vstd::prelude::*;

use crate::race::{AccountId, Race, RaceResult, RaceStatus, account_id_eq, status_rank};

verus! {

/// Why a transition was refused.  Every error aborts the whole operation:
/// no partial write, no fund movement.
#[derive(Clone, Copy, PartialEq, Eq, Structural, Debug)]
pub enum SolracerError {
    /// The operation is not permitted in the record's current status.
    InvalidRaceStatus,
    /// The second participant slot is already occupied.
    Player2AlreadySet,
    /// A result was submitted by an account that is neither participant.
    PlayerNotInRace,
    /// This participant's result slot is already populated.
    ResultAlreadySubmitted,
    /// Settlement was attempted before both results exist.
    ResultsNotComplete,
    /// A claim was attempted by an account other than the stored winner.
    NotWinner,
}

/// The record produced by race creation: one participant, one fee escrowed,
/// waiting for an opponent.
pub open spec fn spec_create_race(
    race_id: String,
    token_mint: AccountId,
    entry_fee_sol: u64,
    player1: AccountId,
    created_at: i64,
    bump: u8,
) -> Race {
    Race {
        race_id,
        token_mint,
        entry_fee_sol,
        player1,
        player2: None,
        status: RaceStatus::Waiting,
        player1_result: None,
        player2_result: None,
        winner: None,
        escrow_amount: entry_fee_sol,
        created_at,
        bump,
    }
}

/// The outcome of a join attempt: the second participant is admitted only
/// while the race is waiting and the second slot is empty; their fee is then
/// added to the escrow and the race becomes active.
pub open spec fn spec_join_race(race: Race, player2: AccountId) -> Result<Race, SolracerError> {
    if race.status != RaceStatus::Waiting {
        Err(SolracerError::InvalidRaceStatus)
    } else if race.player2 is Some {
        Err(SolracerError::Player2AlreadySet)
    } else {
        Ok(Race {
            player2: Some(player2),
            status: RaceStatus::Active,
            escrow_amount: (race.escrow_amount + race.entry_fee_sol) as u64,
            ..race
        })
    }
}

/// Whether `player` is registered in `race`.
pub open spec fn spec_is_participant(race: Race, player: AccountId) -> bool {
    player == race.player1 || race.player2 == Some(player)
}

/// The outcome of a result submission: only a registered participant of an
/// active race may report, exactly once, into their own slot.  A caller who
/// is registered in both slots reports as the first participant.
pub open spec fn spec_submit_result(
    race: Race,
    player: AccountId,
    finish_time_ms: u64,
    coins_collected: u64,
    input_hash: [u8; 32],
) -> Result<Race, SolracerError> {
    let result = RaceResult { finish_time_ms, coins_collected, input_hash };
    if race.status != RaceStatus::Active {
        Err(SolracerError::InvalidRaceStatus)
    } else if !spec_is_participant(race, player) {
        Err(SolracerError::PlayerNotInRace)
    } else if player == race.player1 {
        if race.player1_result is Some {
            Err(SolracerError::ResultAlreadySubmitted)
        } else {
            Ok(Race { player1_result: Some(result), ..race })
        }
    } else {
        if race.player2_result is Some {
            Err(SolracerError::ResultAlreadySubmitted)
        } else {
            Ok(Race { player2_result: Some(result), ..race })
        }
    }
}

/// The settlement rule, applied in strict order: the strictly lower finish
/// time wins; on an exact time tie, the first participant wins unless the
/// second collected strictly more coins.
pub open spec fn spec_player1_wins(r1: RaceResult, r2: RaceResult) -> bool {
    ||| r1.finish_time_ms < r2.finish_time_ms
    ||| (r1.finish_time_ms == r2.finish_time_ms && r1.coins_collected >= r2.coins_collected)
}

/// The outcome of a settlement attempt: an active race with both results
/// present is settled, recording the winner picked by `spec_player1_wins`.
/// Settlement is a pure function of stored state, so no caller identity is
/// involved.
pub open spec fn spec_settle_race(race: Race) -> Result<Race, SolracerError> {
    if race.status != RaceStatus::Active {
        Err(SolracerError::InvalidRaceStatus)
    } else if !(race.player1_result is Some && race.player2_result is Some) {
        Err(SolracerError::ResultsNotComplete)
    } else {
        let winner = if spec_player1_wins(race.player1_result->Some_0, race.player2_result->Some_0) {
            race.player1
        } else {
            race.player2->Some_0
        };
        Ok(Race { winner: Some(winner), status: RaceStatus::Settled, ..race })
    }
}

/// The outcome of a claim attempt: once settled, the stored winner (and only
/// the stored winner) empties the escrow.  The second component is the
/// amount the ledger must transfer to the claimant; after a successful claim
/// it is zero forever, so a repeated claim is a no-op rather than a second
/// drain.
pub open spec fn spec_claim_prize(race: Race, claimant: AccountId) -> Result<
    (Race, u64),
    SolracerError,
> {
    if race.status != RaceStatus::Settled {
        Err(SolracerError::InvalidRaceStatus)
    } else if race.winner != Some(claimant) {
        Err(SolracerError::NotWinner)
    } else {
        Ok((Race { escrow_amount: 0, ..race }, race.escrow_amount))
    }
}

/// Creates the race record for its first participant: status `Waiting`, one
/// entry fee recorded as escrowed.  The caller must, atomically with this,
/// have the ledger transfer `entry_fee_sol` from `player1` to the race
/// account; `created_at` is the ledger clock's timestamp and `bump` the
/// disambiguating byte from the address derivation.
pub fn create_race(
    race_id: String,
    token_mint: AccountId,
    entry_fee_sol: u64,
    player1: AccountId,
    created_at: i64,
    bump: u8,
) -> (race: Race)
    requires
        1 <= entry_fee_sol <= u64::MAX / 2,
    ensures
        race == spec_create_race(race_id, token_mint, entry_fee_sol, player1, created_at, bump),
        race.wf(),
{
    Race {
        race_id,
        token_mint,
        entry_fee_sol,
        player1,
        player2: None,
        status: RaceStatus::Waiting,
        player1_result: None,
        player2_result: None,
        winner: None,
        escrow_amount: entry_fee_sol,
        created_at,
        bump,
    }
}

/// Admits the second participant and doubles the escrow.  On success the
/// returned amount is the entry fee the ledger must transfer from `player2`
/// to the race account atomically with this transition; on error the record
/// is unchanged and no funds move.
pub fn join_race(race: &mut Race, player2: AccountId) -> (res: Result<u64, SolracerError>)
    requires
        old(race).status == RaceStatus::Waiting && old(race).player2 is None ==> old(
            race,
        ).escrow_amount + old(race).entry_fee_sol <= u64::MAX,
    ensures
        res matches Ok(amount) ==> spec_join_race(*old(race), player2) == Ok::<
            Race,
            SolracerError,
        >(*final(race)) && amount == old(race).entry_fee_sol,
        res matches Err(e) ==> spec_join_race(*old(race), player2) == Err::<
            Race,
            SolracerError,
        >(e) && *final(race) == *old(race),
        old(race).wf() ==> final(race).wf(),
        old(race).wf() && res is Ok ==> final(race).escrow_amount == 2 * final(race).entry_fee_sol,
        status_rank(final(race).status) >= status_rank(old(race).status),
{
    if race.status != RaceStatus::Waiting {
        return Err(SolracerError::InvalidRaceStatus);
    }
    if race.player2.is_some() {
        return Err(SolracerError::Player2AlreadySet);
    }
    race.player2 = Some(player2);
    race.status = RaceStatus::Active;
    race.escrow_amount = race.escrow_amount + race.entry_fee_sol;
    Ok(race.entry_fee_sol)
}

/// Records the calling participant's result in their own slot, exactly once,
/// while the race is active.  No funds move.
pub fn submit_result(
    race: &mut Race,
    player: AccountId,
    finish_time_ms: u64,
    coins_collected: u64,
    input_hash: [u8; 32],
) -> (res: Result<(), SolracerError>)
    ensures
        res is Ok ==> spec_submit_result(
            *old(race),
            player,
            finish_time_ms,
            coins_collected,
            input_hash,
        ) == Ok::<Race, SolracerError>(*final(race)),
        res matches Err(e) ==> spec_submit_result(
            *old(race),
            player,
            finish_time_ms,
            coins_collected,
            input_hash,
        ) == Err::<Race, SolracerError>(e) && *final(race) == *old(race),
        old(race).wf() ==> final(race).wf(),
        status_rank(final(race).status) >= status_rank(old(race).status),
{
    if race.status != RaceStatus::Active {
        return Err(SolracerError::InvalidRaceStatus);
    }
    let is_player1 = account_id_eq(&player, &race.player1);
    let is_player2 = match race.player2 {
        Some(p2) => account_id_eq(&player, &p2),
        None => false,
    };
    if !(is_player1 || is_player2) {
        return Err(SolracerError::PlayerNotInRace);
    }
    let result = RaceResult { finish_time_ms, coins_collected, input_hash };
    if is_player1 {
        if race.player1_result.is_some() {
            return Err(SolracerError::ResultAlreadySubmitted);
        }
        race.player1_result = Some(result);
    } else {
        if race.player2_result.is_some() {
            return Err(SolracerError::ResultAlreadySubmitted);
        }
        race.player2_result = Some(result);
    }
    Ok(())
}

/// Settles an active race once both results are present, recording the
/// winner of the deterministic rule.  Callable by anyone; no funds move.
pub fn settle_race(race: &mut Race) -> (res: Result<(), SolracerError>)
    requires
        old(race).status == RaceStatus::Active && old(race).player1_result is Some && old(
            race,
        ).player2_result is Some ==> old(race).player2 is Some,
    ensures
        res is Ok ==> spec_settle_race(*old(race)) == Ok::<Race, SolracerError>(*final(race)),
        res matches Err(e) ==> spec_settle_race(*old(race)) == Err::<Race, SolracerError>(e)
            && *final(race) == *old(race),
        old(race).wf() ==> final(race).wf(),
        status_rank(final(race).status) >= status_rank(old(race).status),
{
    if race.status != RaceStatus::Active {
        return Err(SolracerError::InvalidRaceStatus);
    }
    let (r1, r2) = match (race.player1_result, race.player2_result) {
        (Some(r1), Some(r2)) => (r1, r2),
        _ => {
            return Err(SolracerError::ResultsNotComplete);
        },
    };
    let winner = if r1.finish_time_ms < r2.finish_time_ms {
        race.player1
    } else if r2.finish_time_ms < r1.finish_time_ms {
        race.player2.unwrap()
    } else {
        if r1.coins_collected >= r2.coins_collected {
            race.player1
        } else {
            race.player2.unwrap()
        }
    };
    race.winner = Some(winner);
    race.status = RaceStatus::Settled;
    Ok(())
}

/// Pays the pooled stake out to the stored winner and zeroes the escrow.
/// On success the returned amount is what the ledger must transfer from the
/// race account to the claimant atomically with this transition; the zeroed
/// record is authoritative, so a repeated claim returns zero rather than
/// draining the account again.
pub fn claim_prize(race: &mut Race, claimant: AccountId) -> (res: Result<u64, SolracerError>)
    ensures
        res matches Ok(amount) ==> spec_claim_prize(*old(race), claimant) == Ok::<
            (Race, u64),
            SolracerError,
        >((*final(race), amount)) && amount == old(race).escrow_amount && final(race).escrow_amount == 0,
        res matches Err(e) ==> spec_claim_prize(*old(race), claimant) == Err::<
            (Race, u64),
            SolracerError,
        >(e) && *final(race) == *old(race),
        old(race).wf() ==> final(race).wf(),
        status_rank(final(race).status) >= status_rank(old(race).status),
{
    if race.status != RaceStatus::Settled {
        return Err(SolracerError::InvalidRaceStatus);
    }
    let is_winner = match race.winner {
        Some(w) => account_id_eq(&w, &claimant),
        None => false,
    };
    if !is_winner {
        return Err(SolracerError::NotWinner);
    }
    let prize_amount = race.escrow_amount;
    race.escrow_amount = 0;
    Ok(prize_amount)
}

} // verus!
