use vstd::prelude::*;
use crate::game::{
    consistent, enter_spec, oracle_spec, payout_due_spec, phase_step, settle_spec,
    GameError, GameModel, GamePhase, SettlementOutcome, ENTRY_STAKE, PAYOUT_AMOUNT,
};
use crate::principal::Principal;

verus! {

/// One state-changing call on the machine, with its inputs.
pub enum Call {
    Enter { caller: Principal, stake: u64, randomness: u8 },
    Oracle { caller: Principal, value: u8 },
    Settle { caller: Principal, transfer_ok: bool },
}

/// State after one call.
pub open spec fn step(s: GameModel, c: Call) -> GameModel {
    match c {
        Call::Enter { caller, stake, randomness } => enter_spec(s, caller, stake, randomness).0,
        Call::Oracle { caller, value } => oracle_spec(s, caller, value).0,
        Call::Settle { caller, transfer_ok } => settle_spec(s, caller, transfer_ok).0,
    }
}

/// State after the calls `calls`, made in order from `s`.
pub open spec fn run(s: GameModel, calls: Seq<Call>) -> GameModel
    decreases calls.len(),
{
    if calls.len() == 0 {
        s
    } else {
        step(run(s, calls.drop_last()), calls.last())
    }
}

proof fn lemma_run_prefix(s: GameModel, calls: Seq<Call>, i: int)
    requires
        0 <= i < calls.len(),
    ensures
        run(s, calls.take(i + 1)) == step(run(s, calls.take(i)), calls[i]),
{
    assert(calls.take(i + 1).drop_last() =~= calls.take(i));
}

/// Every call keeps the phase or moves it one step along
/// waiting, active, payout ready, waiting.
pub proof fn lemma_step_phase(s: GameModel, c: Call)
    ensures
        phase_step(s.phase, step(s, c).phase),
{
}

/// Along any sequence of calls the phase only follows the cycle
/// waiting, active, payout ready, waiting: no call skips or reverses it.
pub proof fn lemma_phase_follows_cycle(s: GameModel, calls: Seq<Call>)
    ensures
        forall|i: int|
            0 <= i < calls.len() ==> phase_step(
                #[trigger] run(s, calls.take(i)).phase,
                run(s, calls.take(i + 1)).phase,
            ),
{
    assert forall|i: int|
        0 <= i < calls.len() implies phase_step(
            #[trigger] run(s, calls.take(i)).phase,
            run(s, calls.take(i + 1)).phase,
        ) by {
        lemma_run_prefix(s, calls, i);
        lemma_step_phase(run(s, calls.take(i)), calls[i]);
    }
}

/// Every call keeps the ledger holding a player exactly while a round is in
/// progress.
pub proof fn lemma_step_consistent(s: GameModel, c: Call)
    requires
        consistent(s),
    ensures
        consistent(step(s, c)),
{
    match c {
        Call::Enter { caller, stake, randomness } => {
            if stake == ENTRY_STAKE && s.phase == GamePhase::WaitingForPlayer {
                assert(s.ledger.insert(caller, randomness).dom() =~= s.ledger.dom().insert(caller));
            }
        },
        Call::Oracle { caller, value } => {},
        Call::Settle { caller, transfer_ok } => {
            assert(s.ledger.remove(caller).dom() =~= s.ledger.dom().remove(caller));
        },
    }
}

/// The machine stays consistent along any sequence of calls from a
/// consistent state.
pub proof fn lemma_run_consistent(s: GameModel, calls: Seq<Call>)
    requires
        consistent(s),
    ensures
        consistent(run(s, calls)),
    decreases calls.len(),
{
    if calls.len() > 0 {
        lemma_run_consistent(s, calls.drop_last());
        lemma_step_consistent(run(s, calls.drop_last()), calls.last());
    }
}

/// An entry with any stake other than the entry stake fails with
/// `WrongStake` and changes nothing.
pub proof fn lemma_stake_gate(s: GameModel, caller: Principal, stake: u64, r: u8)
    requires
        stake != ENTRY_STAKE,
    ensures
        enter_spec(s, caller, stake, r) == (s, Err::<(), GameError>(GameError::WrongStake)),
{
}

/// An oracle value from anyone but the owner fails with `Unauthorized` and
/// leaves the recorded oracle value, and all else, unchanged.
pub proof fn lemma_oracle_authorization(s: GameModel, caller: Principal, v: u8)
    requires
        caller != s.owner,
    ensures
        oracle_spec(s, caller, v) == (s, Err::<(), GameError>(GameError::Unauthorized)),
{
}

/// With oracle randomness `o` and player randomness `r` fixed, settlement
/// always gives the same outcome: a win exactly when
/// `(o mod 10 + r mod 10) mod 10 <= 2`.
pub proof fn lemma_settlement_deterministic(
    s1: GameModel,
    s2: GameModel,
    caller: Principal,
    o: u8,
    r: u8,
)
    requires
        s1.phase == GamePhase::PayoutReady,
        s2.phase == GamePhase::PayoutReady,
        s1.oracle_randomness == o,
        s2.oracle_randomness == o,
        s1.ledger.contains_key(caller) && s1.ledger[caller] == r,
        s2.ledger.contains_key(caller) && s2.ledger[caller] == r,
    ensures
        settle_spec(s1, caller, true).1 == settle_spec(s2, caller, true).1,
        settle_spec(s1, caller, true).1 == (if (o % 10 + r % 10) % 10 <= 2 {
            Ok::<SettlementOutcome, GameError>(SettlementOutcome::Won { payout: PAYOUT_AMOUNT })
        } else {
            Ok::<SettlementOutcome, GameError>(SettlementOutcome::Lost)
        }),
{
}

/// When a payout is due and the transfer fails, settlement fails with
/// `PayoutFailed` and the state is exactly what it was.
pub proof fn lemma_failed_payout_rolls_back(s: GameModel, caller: Principal)
    requires
        payout_due_spec(s, caller) is Some,
    ensures
        settle_spec(s, caller, false) == (s, Err::<SettlementOutcome, GameError>(GameError::PayoutFailed)),
{
}

/// Whether `c` is an entry.
pub open spec fn is_entry(c: Call) -> bool {
    c is Enter
}

/// After a settlement that closed the round of `caller`, no sequence of calls
/// without an entry pays anyone: every further settlement, by `caller` or
/// another, is rejected and changes nothing, and `caller` stays out of the
/// ledger.
pub proof fn lemma_paid_at_most_once(
    s: GameModel,
    caller: Principal,
    transfer_ok: bool,
    calls: Seq<Call>,
)
    requires
        settle_spec(s, caller, transfer_ok).1 is Ok,
        settle_spec(s, caller, transfer_ok).1 != Ok::<SettlementOutcome, GameError>(
            SettlementOutcome::NotTracked,
        ),
        forall|i: int| 0 <= i < calls.len() ==> !is_entry(#[trigger] calls[i]),
    ensures
        forall|i: int|
            0 <= i <= calls.len() ==> {
                let m = #[trigger] run(settle_spec(s, caller, transfer_ok).0, calls.take(i));
                &&& m.phase == GamePhase::WaitingForPlayer
                &&& !m.ledger.contains_key(caller)
                &&& forall|who: Principal, t: bool|
                    settle_spec(m, who, t) == (m, Err::<SettlementOutcome, GameError>(
                        GameError::NotReadyForPayout,
                    ))
            },
    decreases calls.len(),
{
    let s1 = settle_spec(s, caller, transfer_ok).0;
    if calls.len() > 0 {
        let front = calls.drop_last();
        assert forall|i: int| 0 <= i < front.len() implies !is_entry(#[trigger] front[i]) by {
            assert(front[i] == calls[i]);
        }
        lemma_paid_at_most_once(s, caller, transfer_ok, front);
        assert forall|i: int|
            0 <= i <= calls.len() implies {
                let m = #[trigger] run(s1, calls.take(i));
                &&& m.phase == GamePhase::WaitingForPlayer
                &&& !m.ledger.contains_key(caller)
                &&& forall|who: Principal, t: bool|
                    settle_spec(m, who, t) == (m, Err::<SettlementOutcome, GameError>(
                        GameError::NotReadyForPayout,
                    ))
            } by {
            if i < calls.len() {
                assert(calls.take(i) =~= front.take(i));
            } else {
                assert(calls.take(i) =~= calls);
                assert(front.take(front.len() as int) =~= front);
                let m0 = run(s1, front.take(front.len() as int));
                assert(m0.phase == GamePhase::WaitingForPlayer && !m0.ledger.contains_key(caller));
                assert(!is_entry(calls[calls.len() - 1]));
                assert(run(s1, calls) == step(m0, calls.last()));
            }
        }
    } else {
        assert(calls.take(0) =~= calls);
    }
}

} // verus!
