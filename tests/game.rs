use slot_machine::game::{
    is_win, GameError, GamePhase, SettlementOutcome, SlotMachine, ENTRY_STAKE, PAYOUT_AMOUNT,
};
use slot_machine::ledger::{LedgerEntry, RandomnessLedger};
use slot_machine::principal::Principal;

fn owner() -> Principal {
    Principal::new([1u8; 32])
}

fn alice() -> Principal {
    Principal::new([2u8; 32])
}

fn bob() -> Principal {
    let mut b = [2u8; 32];
    b[31] = 3;
    Principal::new(b)
}

fn ready_machine(oracle: u8, player: u8) -> SlotMachine {
    let mut m = SlotMachine::new(owner());
    assert_eq!(m.enter_game(alice(), ENTRY_STAKE, player), Ok(()));
    assert_eq!(m.submit_oracle_randomness(&owner(), oracle), Ok(()));
    m
}

#[test]
fn winning_round_pays_and_resets() {
    let mut m = SlotMachine::new(owner());
    assert_eq!(m.query_view(0), (GamePhase::WaitingForPlayer, 0, 0));
    assert_eq!(m.enter_game(alice(), ENTRY_STAKE, 7), Ok(()));
    assert_eq!(m.phase(), GamePhase::ActiveGame);
    assert_eq!(m.submit_oracle_randomness(&owner(), 3), Ok(()));
    assert_eq!(m.phase(), GamePhase::PayoutReady);
    assert_eq!(m.payout_due(&alice()), Some(PAYOUT_AMOUNT));
    assert_eq!(
        m.settle(&alice(), true),
        Ok(SettlementOutcome::Won { payout: PAYOUT_AMOUNT })
    );
    assert_eq!(m.phase(), GamePhase::WaitingForPlayer);
    assert_eq!(m.player_randomness(&alice()), None);
}

#[test]
fn losing_round_resets_without_payout() {
    let mut m = ready_machine(9, 7);
    assert_eq!(m.payout_due(&alice()), None);
    assert_eq!(m.settle(&alice(), true), Ok(SettlementOutcome::Lost));
    assert_eq!(m.phase(), GamePhase::WaitingForPlayer);
    assert_eq!(m.player_randomness(&alice()), None);
}

#[test]
fn losing_round_ignores_transfer_report() {
    let mut m = ready_machine(9, 7);
    assert_eq!(m.settle(&alice(), false), Ok(SettlementOutcome::Lost));
    assert_eq!(m.phase(), GamePhase::WaitingForPlayer);
}

#[test]
fn wrong_stake_is_rejected_and_changes_nothing() {
    let mut m = SlotMachine::new(owner());
    assert_eq!(m.enter_game(alice(), ENTRY_STAKE - 1, 7), Err(GameError::WrongStake));
    assert_eq!(m.enter_game(alice(), ENTRY_STAKE + 1, 7), Err(GameError::WrongStake));
    assert_eq!(m.enter_game(alice(), 0, 7), Err(GameError::WrongStake));
    assert_eq!(m.enter_game(alice(), u64::MAX, 7), Err(GameError::WrongStake));
    assert_eq!(m.phase(), GamePhase::WaitingForPlayer);
    assert_eq!(m.player_randomness(&alice()), None);
}

#[test]
fn wrong_stake_is_checked_before_phase() {
    let mut m = ready_machine(3, 7);
    assert_eq!(m.enter_game(bob(), 5, 1), Err(GameError::WrongStake));
}

#[test]
fn entry_during_round_is_rejected() {
    let mut m = SlotMachine::new(owner());
    assert_eq!(m.enter_game(alice(), ENTRY_STAKE, 7), Ok(()));
    assert_eq!(
        m.enter_game(alice(), ENTRY_STAKE, 4),
        Err(GameError::GameNotAcceptingPlayers)
    );
    assert_eq!(
        m.enter_game(bob(), ENTRY_STAKE, 4),
        Err(GameError::GameNotAcceptingPlayers)
    );
    assert_eq!(m.player_randomness(&alice()), Some(7));
    assert_eq!(m.player_randomness(&bob()), None);
    assert_eq!(m.phase(), GamePhase::ActiveGame);
}

#[test]
fn oracle_from_non_owner_is_rejected() {
    let mut m = SlotMachine::new(owner());
    assert_eq!(m.enter_game(alice(), ENTRY_STAKE, 7), Ok(()));
    assert_eq!(m.submit_oracle_randomness(&alice(), 3), Err(GameError::Unauthorized));
    assert_eq!(m.oracle_randomness(), 0);
    assert_eq!(m.phase(), GamePhase::ActiveGame);
}

#[test]
fn oracle_ahead_of_play_keeps_phase() {
    let mut m = SlotMachine::new(owner());
    assert_eq!(m.submit_oracle_randomness(&owner(), 42), Ok(()));
    assert_eq!(m.oracle_randomness(), 42);
    assert_eq!(m.phase(), GamePhase::WaitingForPlayer);
    assert_eq!(m.query_view(5), (GamePhase::WaitingForPlayer, 42, 5));
}

#[test]
fn oracle_may_resubmit_while_ready() {
    let mut m = ready_machine(9, 7);
    assert_eq!(m.submit_oracle_randomness(&owner(), 3), Ok(()));
    assert_eq!(m.phase(), GamePhase::PayoutReady);
    assert_eq!(m.oracle_randomness(), 3);
}

#[test]
fn settle_before_oracle_is_rejected() {
    let mut m = SlotMachine::new(owner());
    assert_eq!(m.settle(&alice(), true), Err(GameError::NotReadyForPayout));
    assert_eq!(m.enter_game(alice(), ENTRY_STAKE, 7), Ok(()));
    assert_eq!(m.settle(&alice(), true), Err(GameError::NotReadyForPayout));
    assert_eq!(m.phase(), GamePhase::ActiveGame);
    assert_eq!(m.player_randomness(&alice()), Some(7));
}

#[test]
fn settle_by_untracked_caller_is_a_no_op() {
    let mut m = ready_machine(3, 7);
    assert_eq!(m.payout_due(&bob()), None);
    assert_eq!(m.settle(&bob(), true), Ok(SettlementOutcome::NotTracked));
    assert_eq!(m.phase(), GamePhase::PayoutReady);
    assert_eq!(m.player_randomness(&alice()), Some(7));
}

#[test]
fn failed_transfer_rolls_back() {
    let mut m = ready_machine(3, 7);
    assert_eq!(m.settle(&alice(), false), Err(GameError::PayoutFailed));
    assert_eq!(m.phase(), GamePhase::PayoutReady);
    assert_eq!(m.oracle_randomness(), 3);
    assert_eq!(m.player_randomness(&alice()), Some(7));
    assert_eq!(
        m.settle(&alice(), true),
        Ok(SettlementOutcome::Won { payout: PAYOUT_AMOUNT })
    );
}

#[test]
fn second_settlement_pays_nothing() {
    let mut m = ready_machine(3, 7);
    assert_eq!(
        m.settle(&alice(), true),
        Ok(SettlementOutcome::Won { payout: PAYOUT_AMOUNT })
    );
    assert_eq!(m.settle(&alice(), true), Err(GameError::NotReadyForPayout));
    assert_eq!(m.submit_oracle_randomness(&owner(), 0), Ok(()));
    assert_eq!(m.settle(&alice(), true), Err(GameError::NotReadyForPayout));
    assert_eq!(m.payout_due(&alice()), None);
    assert_eq!(m.phase(), GamePhase::WaitingForPlayer);
}

#[test]
fn phase_cycles_over_two_rounds() {
    let mut m = SlotMachine::new(owner());
    let mut seen = vec![m.phase()];
    for (o, r) in [(3u8, 7u8), (9, 7)] {
        assert_eq!(m.enter_game(alice(), ENTRY_STAKE, r), Ok(()));
        seen.push(m.phase());
        assert_eq!(m.submit_oracle_randomness(&owner(), o), Ok(()));
        seen.push(m.phase());
        assert!(m.settle(&alice(), true).is_ok());
        seen.push(m.phase());
    }
    let (w, a, p) = (GamePhase::WaitingForPlayer, GamePhase::ActiveGame, GamePhase::PayoutReady);
    assert_eq!(seen, vec![w, a, p, w, a, p, w]);
}

#[test]
fn win_rule_values() {
    assert!(is_win(3, 7));
    assert!(!is_win(9, 7));
    assert!(is_win(0, 0));
    assert!(is_win(1, 1));
    assert!(!is_win(1, 2));
    assert!(is_win(255, 255));
    assert!(!is_win(255, 254));
    assert!(is_win(13, 19));
    assert!(is_win(200, 52));
    assert!(!is_win(200, 53));
}

#[test]
fn win_rule_matches_formula_everywhere() {
    for o in 0..=255u8 {
        for r in 0..=255u8 {
            let expected = ((o as u32 % 10 + r as u32 % 10) % 10) <= 2;
            assert_eq!(is_win(o, r), expected);
        }
    }
}

#[test]
fn settlement_is_deterministic() {
    for (o, r) in [(3u8, 7u8), (9, 7), (12, 0), (0, 5)] {
        let mut a = ready_machine(o, r);
        let mut b = ready_machine(o, r);
        assert_eq!(a.settle(&alice(), true), b.settle(&alice(), true));
    }
}

#[test]
fn ledger_insert_get_remove() {
    let mut l = RandomnessLedger::new();
    assert_eq!(l.len(), 0);
    l.insert(alice(), 5);
    l.insert(bob(), 6);
    assert_eq!(l.len(), 2);
    assert_eq!(l.get(&alice()), Some(5));
    l.insert(alice(), 9);
    assert_eq!(l.len(), 2);
    assert_eq!(l.get(&alice()), Some(9));
    l.remove(&alice());
    assert_eq!(l.get(&alice()), None);
    assert_eq!(l.get(&bob()), Some(6));
    l.remove(&alice());
    assert_eq!(l.len(), 1);
}

#[test]
fn principals_compare_by_bytes() {
    assert!(alice() == alice());
    assert!(alice() != bob());
    assert!(!alice().same_as(&bob()));
    assert_eq!(owner().bytes, [1u8; 32]);
    assert_eq!(m_owner(), owner());
}

fn m_owner() -> Principal {
    SlotMachine::new(owner()).owner()
}

#[test]
fn active_player_follows_round() {
    let mut m = SlotMachine::new(owner());
    assert!(m.active_player().is_none());
    assert_eq!(m.enter_game(alice(), ENTRY_STAKE, 7), Ok(()));
    let e = m.active_player().unwrap();
    assert_eq!(e.player, alice());
    assert_eq!(e.randomness, 7);
    assert_eq!(m.submit_oracle_randomness(&owner(), 3), Ok(()));
    assert!(m.settle(&alice(), true).is_ok());
    assert!(m.active_player().is_none());
}

#[test]
fn restore_round_trips_a_machine() {
    let m = ready_machine(3, 7);
    let back = SlotMachine::restore(m.owner(), m.phase(), m.oracle_randomness(), m.active_player());
    let mut back = back.unwrap();
    assert_eq!(back.phase(), GamePhase::PayoutReady);
    assert_eq!(back.oracle_randomness(), 3);
    assert_eq!(back.player_randomness(&alice()), Some(7));
    assert_eq!(
        back.settle(&alice(), true),
        Ok(SettlementOutcome::Won { payout: PAYOUT_AMOUNT })
    );
}

#[test]
fn restore_rejects_phase_and_player_mismatch() {
    let e = LedgerEntry { player: alice(), randomness: 7 };
    assert!(SlotMachine::restore(owner(), GamePhase::WaitingForPlayer, 0, Some(e)).is_none());
    assert!(SlotMachine::restore(owner(), GamePhase::ActiveGame, 0, None).is_none());
    assert!(SlotMachine::restore(owner(), GamePhase::PayoutReady, 0, None).is_none());
    let w = SlotMachine::restore(owner(), GamePhase::WaitingForPlayer, 4, None).unwrap();
    assert_eq!(w.query_view(0), (GamePhase::WaitingForPlayer, 4, 0));
    let a = SlotMachine::restore(owner(), GamePhase::ActiveGame, 0, Some(e)).unwrap();
    assert_eq!(a.player_randomness(&alice()), Some(7));
}
