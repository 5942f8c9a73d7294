use solracer_program::race::{AccountId, Race, RaceStatus};
use solracer_program::transitions::{
    claim_prize, create_race, join_race, settle_race, submit_result, SolracerError,
};

fn acct(n: u8) -> AccountId {
    AccountId { bytes: [n; 32] }
}

fn new_race(fee: u64) -> Race {
    create_race("race-1".to_string(), acct(9), fee, acct(1), 1_700_000_000, 254)
}

fn active_race(fee: u64) -> Race {
    let mut race = new_race(fee);
    join_race(&mut race, acct(2)).unwrap();
    race
}

#[test]
fn create_initializes_waiting_record() {
    let race = new_race(1000);
    assert_eq!(race.race_id, "race-1");
    assert_eq!(race.token_mint, acct(9));
    assert_eq!(race.entry_fee_sol, 1000);
    assert_eq!(race.player1, acct(1));
    assert_eq!(race.player2, None);
    assert_eq!(race.status, RaceStatus::Waiting);
    assert_eq!(race.player1_result, None);
    assert_eq!(race.player2_result, None);
    assert_eq!(race.winner, None);
    assert_eq!(race.escrow_amount, 1000);
    assert_eq!(race.created_at, 1_700_000_000);
    assert_eq!(race.bump, 254);
}

#[test]
fn join_doubles_escrow_and_activates() {
    let mut race = new_race(1000);
    let amount = join_race(&mut race, acct(2)).unwrap();
    assert_eq!(amount, 1000);
    assert_eq!(race.status, RaceStatus::Active);
    assert_eq!(race.player2, Some(acct(2)));
    assert_eq!(race.escrow_amount, 2 * race.entry_fee_sol);
}

#[test]
fn self_join_is_permitted() {
    // The machine puts no identity check on joining: the creator may take
    // the second slot of their own race.
    let mut race = new_race(1000);
    let amount = join_race(&mut race, acct(1)).unwrap();
    assert_eq!(amount, 1000);
    assert_eq!(race.status, RaceStatus::Active);
    assert_eq!(race.player2, Some(acct(1)));
    assert_eq!(race.escrow_amount, 2000);
}

#[test]
fn join_requires_waiting_status() {
    let mut race = active_race(1000);
    let before = race.clone();
    assert_eq!(join_race(&mut race, acct(3)), Err(SolracerError::InvalidRaceStatus));
    assert_eq!(race, before);
}

#[test]
fn join_rejects_occupied_second_slot() {
    // A record whose second slot is somehow occupied while still waiting is
    // refused with the slot error, not admitted twice.
    let mut race = new_race(1000);
    race.player2 = Some(acct(7));
    let before = race.clone();
    assert_eq!(join_race(&mut race, acct(3)), Err(SolracerError::Player2AlreadySet));
    assert_eq!(race, before);
}

#[test]
fn submit_records_result_in_callers_slot() {
    let mut race = active_race(1000);
    submit_result(&mut race, acct(1), 90, 3, [0xAA; 32]).unwrap();
    let r1 = race.player1_result.unwrap();
    assert_eq!(r1.finish_time_ms, 90);
    assert_eq!(r1.coins_collected, 3);
    assert_eq!(r1.input_hash, [0xAA; 32]);
    assert_eq!(race.player2_result, None);

    submit_result(&mut race, acct(2), 95, 10, [0xBB; 32]).unwrap();
    let r2 = race.player2_result.unwrap();
    assert_eq!(r2.finish_time_ms, 95);
    assert_eq!(r2.coins_collected, 10);
    assert_eq!(r2.input_hash, [0xBB; 32]);
}

#[test]
fn submit_requires_active_status() {
    let mut race = new_race(1000);
    let before = race.clone();
    assert_eq!(
        submit_result(&mut race, acct(1), 90, 3, [0; 32]),
        Err(SolracerError::InvalidRaceStatus)
    );
    assert_eq!(race, before);
}

#[test]
fn submit_rejects_stranger() {
    let mut race = active_race(1000);
    let before = race.clone();
    assert_eq!(
        submit_result(&mut race, acct(5), 90, 3, [0; 32]),
        Err(SolracerError::PlayerNotInRace)
    );
    assert_eq!(race, before);
}

#[test]
fn resubmission_rejected_and_first_result_kept() {
    let mut race = active_race(1000);
    submit_result(&mut race, acct(1), 90, 3, [0xAA; 32]).unwrap();
    let before = race.clone();
    assert_eq!(
        submit_result(&mut race, acct(1), 10, 99, [0xCC; 32]),
        Err(SolracerError::ResultAlreadySubmitted)
    );
    assert_eq!(race, before);
    let r1 = race.player1_result.unwrap();
    assert_eq!(r1.finish_time_ms, 90);
    assert_eq!(r1.coins_collected, 3);
    assert_eq!(r1.input_hash, [0xAA; 32]);
}

#[test]
fn settle_before_both_results_rejected() {
    let mut race = active_race(1000);
    submit_result(&mut race, acct(1), 90, 3, [0; 32]).unwrap();
    let before = race.clone();
    assert_eq!(settle_race(&mut race), Err(SolracerError::ResultsNotComplete));
    assert_eq!(race, before);
}

#[test]
fn settle_twice_rejected() {
    let mut race = active_race(1000);
    submit_result(&mut race, acct(1), 90, 3, [0; 32]).unwrap();
    submit_result(&mut race, acct(2), 95, 10, [0; 32]).unwrap();
    settle_race(&mut race).unwrap();
    assert_eq!(race.status, RaceStatus::Settled);
    let before = race.clone();
    assert_eq!(settle_race(&mut race), Err(SolracerError::InvalidRaceStatus));
    assert_eq!(race, before);
}

fn settled_winner(t1: u64, c1: u64, t2: u64, c2: u64) -> Option<AccountId> {
    let mut race = active_race(1000);
    submit_result(&mut race, acct(1), t1, c1, [1; 32]).unwrap();
    submit_result(&mut race, acct(2), t2, c2, [2; 32]).unwrap();
    settle_race(&mut race).unwrap();
    race.winner
}

#[test]
fn lower_finish_time_wins() {
    assert_eq!(settled_winner(100, 5, 120, 9), Some(acct(1)));
    assert_eq!(settled_winner(120, 9, 100, 5), Some(acct(2)));
}

#[test]
fn time_tie_higher_coins_wins() {
    assert_eq!(settled_winner(100, 5, 100, 9), Some(acct(2)));
    assert_eq!(settled_winner(100, 9, 100, 5), Some(acct(1)));
}

#[test]
fn exact_tie_defaults_to_player1() {
    assert_eq!(settled_winner(100, 5, 100, 5), Some(acct(1)));
}

#[test]
fn claim_by_non_winner_rejected() {
    let mut race = active_race(1000);
    submit_result(&mut race, acct(1), 90, 3, [0; 32]).unwrap();
    submit_result(&mut race, acct(2), 95, 10, [0; 32]).unwrap();
    settle_race(&mut race).unwrap();
    assert_eq!(race.winner, Some(acct(1)));
    let before = race.clone();
    assert_eq!(claim_prize(&mut race, acct(2)), Err(SolracerError::NotWinner));
    assert_eq!(race, before);
    assert_eq!(race.escrow_amount, 2000);
}

#[test]
fn claim_before_settlement_rejected() {
    let mut race = active_race(1000);
    let before = race.clone();
    assert_eq!(claim_prize(&mut race, acct(1)), Err(SolracerError::InvalidRaceStatus));
    assert_eq!(race, before);
}

#[test]
fn winner_claims_once_then_repeat_moves_nothing() {
    let mut race = active_race(1000);
    submit_result(&mut race, acct(1), 90, 3, [0; 32]).unwrap();
    submit_result(&mut race, acct(2), 95, 10, [0; 32]).unwrap();
    settle_race(&mut race).unwrap();

    let prize = claim_prize(&mut race, acct(1)).unwrap();
    assert_eq!(prize, 2000);
    assert_eq!(race.escrow_amount, 0);

    // The zeroed escrow is authoritative: the repeated claim still passes
    // the status and identity checks but moves zero funds.
    let again = claim_prize(&mut race, acct(1)).unwrap();
    assert_eq!(again, 0);
    assert_eq!(race.escrow_amount, 0);
}

#[test]
fn end_to_end_flow_nets_winner_one_fee() {
    let p1 = acct(1);
    let p2 = acct(2);
    let mut p1_balance: u64 = 5000;
    let mut p2_balance: u64 = 5000;
    let mut holding_balance: u64 = 0;

    // create(fee = 1000): player one funds the escrow.
    let mut race = create_race("grand-prix".to_string(), acct(9), 1000, p1, 42, 255);
    p1_balance -= race.entry_fee_sol;
    holding_balance += race.entry_fee_sol;

    // join: player two funds the escrow.
    let amount = join_race(&mut race, p2).unwrap();
    p2_balance -= amount;
    holding_balance += amount;
    assert_eq!(race.escrow_amount, 2000);
    assert_eq!(holding_balance, 2000);

    submit_result(&mut race, p1, 90, 3, [0x11; 32]).unwrap();
    submit_result(&mut race, p2, 95, 10, [0x22; 32]).unwrap();

    settle_race(&mut race).unwrap();
    assert_eq!(race.winner, Some(p1));

    let prize = claim_prize(&mut race, p1).unwrap();
    holding_balance -= prize;
    p1_balance += prize;

    assert_eq!(race.escrow_amount, 0);
    assert_eq!(holding_balance, 0);
    assert_eq!(p1_balance, 6000);  // net +1000: paid one fee, won both
    assert_eq!(p2_balance, 4000);
}
