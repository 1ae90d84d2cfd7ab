use vstd::prelude::*;
use crate::ledger::{LedgerEntry, RandomnessLedger};
use crate::principal::Principal;

verus! {

/// Stake, in micro-units, that a player pays to enter a round.
pub const ENTRY_STAKE: u64 = 1_000_000;

/// Amount, in micro-units, paid to a winning player.
pub const PAYOUT_AMOUNT: u64 = 2_000_000;

/// Modulus applied to each randomness value and to their sum.
pub const SCORE_MODULUS: u8 = 10;

/// Highest score that still wins.
pub const WIN_THRESHOLD: u8 = 2;

/// Lifecycle phase of the machine.
#[derive(Clone, Copy, Debug, PartialEq, Eq, Structural)]
pub enum GamePhase {
    /// Accepts a new player.
    WaitingForPlayer,
    /// A player has staked; the oracle has not yet answered.
    ActiveGame,
    /// The oracle has answered; the round can be settled.
    PayoutReady,
}

/// Why a call was rejected.
#[derive(Clone, Copy, Debug, PartialEq, Eq, Structural)]
pub enum GameError {
    /// The stake sent with an entry is not the entry stake.
    WrongStake,
    /// An entry was attempted while a round is in progress.
    GameNotAcceptingPlayers,
    /// Someone other than the owner tried to feed the oracle.
    Unauthorized,
    /// Settlement was attempted before the oracle answered.
    NotReadyForPayout,
    /// The payout transfer could not be made.
    PayoutFailed,
}

/// What a successful settlement did for its caller.
#[derive(Clone, Copy, Debug, PartialEq, Eq, Structural)]
pub enum SettlementOutcome {
    /// The caller holds no entry in the current round: nothing happened.
    NotTracked,
    /// The caller lost; the round is closed.
    Lost,
    /// The caller won and was paid `payout`; the round is closed.
    Won { payout: u64 },
}

/// Abstract state of the machine.
pub struct GameModel {
    pub owner: Principal,
    pub phase: GamePhase,
    pub oracle_randomness: u8,
    pub ledger: Map<Principal, u8>,
}

/// The phase that follows `p` in the cycle of a round.
pub open spec fn next_phase(p: GamePhase) -> GamePhase {
    match p {
        GamePhase::WaitingForPlayer => GamePhase::ActiveGame,
        GamePhase::ActiveGame => GamePhase::PayoutReady,
        GamePhase::PayoutReady => GamePhase::WaitingForPlayer,
    }
}

/// A single call either keeps the phase or moves it one step along the cycle.
pub open spec fn phase_step(before: GamePhase, after: GamePhase) -> bool {
    after == before || after == next_phase(before)
}

/// Score of a round with oracle randomness `o` and player randomness `r`.
pub open spec fn score(o: u8, r: u8) -> int {
    (o as int % SCORE_MODULUS as int + r as int % SCORE_MODULUS as int) % SCORE_MODULUS as int
}

/// The player wins when the score is at most the threshold.
pub open spec fn wins(o: u8, r: u8) -> bool {
    score(o, r) <= WIN_THRESHOLD as int
}

/// The ledger holds a player exactly while a round is in progress.
pub open spec fn consistent(s: GameModel) -> bool {
    &&& s.ledger.dom().finite()
    &&& s.phase == GamePhase::WaitingForPlayer ==> s.ledger.dom().len() == 0
    &&& s.phase != GamePhase::WaitingForPlayer ==> s.ledger.dom().len() == 1
}

/// State right after creation by `owner`.
pub open spec fn init_model(owner: Principal) -> GameModel {
    GameModel {
        owner,
        phase: GamePhase::WaitingForPlayer,
        oracle_randomness: 0,
        ledger: Map::empty(),
    }
}

/// Effect of an entry by `caller` with `stake` and randomness `r`.
pub open spec fn enter_spec(s: GameModel, caller: Principal, stake: u64, r: u8) -> (GameModel, Result<(), GameError>) {
    if stake != ENTRY_STAKE {
        (s, Err(GameError::WrongStake))
    } else if s.phase != GamePhase::WaitingForPlayer {
        (s, Err(GameError::GameNotAcceptingPlayers))
    } else {
        (
            GameModel {
                owner: s.owner,
                phase: GamePhase::ActiveGame,
                oracle_randomness: s.oracle_randomness,
                ledger: s.ledger.insert(caller, r),
            },
            Ok(()),
        )
    }
}

/// Effect of the oracle value `v` sent by `caller`.
pub open spec fn oracle_spec(s: GameModel, caller: Principal, v: u8) -> (GameModel, Result<(), GameError>) {
    if caller != s.owner {
        (s, Err(GameError::Unauthorized))
    } else {
        (
            GameModel {
                owner: s.owner,
                phase: if s.phase == GamePhase::ActiveGame {
                    GamePhase::PayoutReady
                } else {
                    s.phase
                },
                oracle_randomness: v,
                ledger: s.ledger,
            },
            Ok(()),
        )
    }
}

/// State after the round of `caller` is closed.
pub open spec fn closed_round(s: GameModel, caller: Principal) -> GameModel {
    GameModel {
        owner: s.owner,
        phase: GamePhase::WaitingForPlayer,
        oracle_randomness: s.oracle_randomness,
        ledger: s.ledger.remove(caller),
    }
}

/// Effect of a settlement by `caller`; `transfer_ok` is whether the payout
/// transfer, when one is due, went through.
pub open spec fn settle_spec(s: GameModel, caller: Principal, transfer_ok: bool) -> (GameModel, Result<SettlementOutcome, GameError>) {
    if s.phase != GamePhase::PayoutReady {
        (s, Err(GameError::NotReadyForPayout))
    } else if !s.ledger.contains_key(caller) {
        (s, Ok(SettlementOutcome::NotTracked))
    } else if !wins(s.oracle_randomness, s.ledger[caller]) {
        (closed_round(s, caller), Ok(SettlementOutcome::Lost))
    } else if transfer_ok {
        (closed_round(s, caller), Ok(SettlementOutcome::Won { payout: PAYOUT_AMOUNT }))
    } else {
        (s, Err(GameError::PayoutFailed))
    }
}

/// Payout owed to `caller` if the round were settled now.
pub open spec fn payout_due_spec(s: GameModel, caller: Principal) -> Option<u64> {
    if s.phase == GamePhase::PayoutReady && s.ledger.contains_key(caller) && wins(
        s.oracle_randomness,
        s.ledger[caller],
    ) {
        Some(PAYOUT_AMOUNT)
    } else {
        None
    }
}

/// State with the given parts; `player`, if any, is the ledger's one entry.
pub open spec fn restored_model(owner: Principal, phase: GamePhase, oracle_randomness: u8, player: Option<LedgerEntry>) -> GameModel {
    GameModel {
        owner,
        phase,
        oracle_randomness,
        ledger: match player {
            Some(e) => map![e.player => e.randomness],
            None => Map::empty(),
        },
    }
}

/// A finite map with one key `k` is the map of `k` alone.
proof fn lemma_single_key(m: Map<Principal, u8>, k: Principal)
    requires
        m.dom().finite(),
        m.dom().len() == 1,
        m.contains_key(k),
    ensures
        m == map![k => m[k]],
{
    assert forall|q: Principal| m.contains_key(q) implies q == k by {
        if q != k {
            let rest = m.dom().remove(k);
            assert(rest.len() == 0);
            assert(rest.contains(q));
            rest.lemma_len0_is_empty();
        }
    }
    assert(m =~= map![k => m[k]]);
}

/// Whether oracle randomness `o` and player randomness `r` make a winning round.
pub fn is_win(o: u8, r: u8) -> (w: bool)
    ensures
        w == wins(o, r),
{
    (o % SCORE_MODULUS + r % SCORE_MODULUS) % SCORE_MODULUS <= WIN_THRESHOLD
}

/// The slot machine: lifecycle phase, last oracle value, and the ledger of the
/// current round.
pub struct SlotMachine {
    owner: Principal,
    phase: GamePhase,
    oracle_randomness: u8,
    players: RandomnessLedger,
}

impl View for SlotMachine {
    type V = GameModel;

    closed spec fn view(&self) -> GameModel {
        GameModel {
            owner: self.owner,
            phase: self.phase,
            oracle_randomness: self.oracle_randomness,
            ledger: self.players@,
        }
    }
}

impl SlotMachine {
    /// The ledger is well formed and holds a player exactly while a round is
    /// in progress.
    pub closed spec fn wf(&self) -> bool {
        &&& self.players.wf()
        &&& consistent(self@)
    }

    /// A fresh machine whose oracle is fed by `owner`.
    pub fn new(owner: Principal) -> (r: SlotMachine)
        ensures
            r.wf(),
            r@ == init_model(owner),
    {
        SlotMachine {
            owner,
            phase: GamePhase::WaitingForPlayer,
            oracle_randomness: 0,
            players: RandomnessLedger::new(),
        }
    }

    /// The player of the round in progress, if any.
    pub fn active_player(&self) -> (r: Option<LedgerEntry>)
        requires
            self.wf(),
        ensures
            r is None <==> self@.phase == GamePhase::WaitingForPlayer,
            r matches Some(e) ==> self@.ledger == map![e.player => e.randomness],
    {
        let r = self.players.first();
        proof {
            if let Some(e) = r {
                lemma_single_key(self@.ledger, e.player);
            }
        }
        r
    }

    /// Rebuilds a machine from its parts. Fails exactly when the phase and
    /// the player disagree: a player is present while a round is in progress,
    /// and only then.
    pub fn restore(owner: Principal, phase: GamePhase, oracle_randomness: u8, player: Option<LedgerEntry>) -> (r: Option<SlotMachine>)
        ensures
            r is Some <==> ((phase == GamePhase::WaitingForPlayer) == (player is None)),
            r matches Some(m) ==> m.wf() && m@ == restored_model(owner, phase, oracle_randomness, player),
    {
        let waiting = phase == GamePhase::WaitingForPlayer;
        let absent = player.is_none();
        if waiting != absent {
            return None;
        }
        let mut players = RandomnessLedger::new();
        if let Some(e) = player {
            players.insert(e.player, e.randomness);
        }
        proof {
            assert(players@.dom() =~= restored_model(owner, phase, oracle_randomness, player).ledger.dom());
            assert(players@ =~= restored_model(owner, phase, oracle_randomness, player).ledger);
        }
        Some(SlotMachine { owner, phase, oracle_randomness, players })
    }

    /// Enters `caller` into a round with stake `staked_amount` and randomness
    /// `player_randomness`.
    pub fn enter_game(&mut self, caller: Principal, staked_amount: u64, player_randomness: u8) -> (r: Result<(), GameError>)
        requires
            old(self).wf(),
        ensures
            final(self).wf(),
            (final(self)@, r) == enter_spec(old(self)@, caller, staked_amount, player_randomness),
    {
        if staked_amount != ENTRY_STAKE {
            return Err(GameError::WrongStake);
        }
        if self.phase != GamePhase::WaitingForPlayer {
            return Err(GameError::GameNotAcceptingPlayers);
        }
        self.players.insert(caller, player_randomness);
        self.phase = GamePhase::ActiveGame;
        proof {
            assert(self.players@.dom() =~= old(self).players@.dom().insert(caller));
        }
        Ok(())
    }

    /// Records the oracle value `value` sent by `caller`; moves an active round
    /// to payout.
    pub fn submit_oracle_randomness(&mut self, caller: &Principal, value: u8) -> (r: Result<(), GameError>)
        requires
            old(self).wf(),
        ensures
            final(self).wf(),
            (final(self)@, r) == oracle_spec(old(self)@, *caller, value),
    {
        if !caller.same_as(&self.owner) {
            return Err(GameError::Unauthorized);
        }
        if self.phase == GamePhase::ActiveGame {
            self.phase = GamePhase::PayoutReady;
        }
        self.oracle_randomness = value;
        Ok(())
    }

    /// Payout owed to `caller` if the round were settled now.
    pub fn payout_due(&self, caller: &Principal) -> (r: Option<u64>)
        requires
            self.wf(),
        ensures
            r == payout_due_spec(self@, *caller),
    {
        if self.phase != GamePhase::PayoutReady {
            return None;
        }
        match self.players.get(caller) {
            Some(pr) => {
                if is_win(self.oracle_randomness, pr) {
                    Some(PAYOUT_AMOUNT)
                } else {
                    None
                }
            },
            None => None,
        }
    }

    /// Settles the round for `caller`. `transfer_ok` reports whether the
    /// payout transfer went through; it is consulted only when one is due, and
    /// when it failed nothing changes.
    pub fn settle(&mut self, caller: &Principal, transfer_ok: bool) -> (r: Result<SettlementOutcome, GameError>)
        requires
            old(self).wf(),
        ensures
            final(self).wf(),
            (final(self)@, r) == settle_spec(old(self)@, *caller, transfer_ok),
    {
        if self.phase != GamePhase::PayoutReady {
            return Err(GameError::NotReadyForPayout);
        }
        let pr = match self.players.get(caller) {
            Some(pr) => pr,
            None => {
                return Ok(SettlementOutcome::NotTracked);
            },
        };
        let won = is_win(self.oracle_randomness, pr);
        if won && !transfer_ok {
            return Err(GameError::PayoutFailed);
        }
        self.players.remove(caller);
        self.phase = GamePhase::WaitingForPlayer;
        proof {
            assert(self.players@.dom() =~= old(self).players@.dom().remove(*caller));
        }
        if won {
            Ok(SettlementOutcome::Won { payout: PAYOUT_AMOUNT })
        } else {
            Ok(SettlementOutcome::Lost)
        }
    }

    /// Phase, last oracle value, and the balance `held_balance` that the host
    /// reports for the machine.
    pub fn query_view(&self, held_balance: u64) -> (r: (GamePhase, u8, u64))
        ensures
            r == (self@.phase, self@.oracle_randomness, held_balance),
    {
        (self.phase, self.oracle_randomness, held_balance)
    }

    /// Current phase.
    pub fn phase(&self) -> (r: GamePhase)
        ensures
            r == self@.phase,
    {
        self.phase
    }

    /// Last oracle value recorded.
    pub fn oracle_randomness(&self) -> (r: u8)
        ensures
            r == self@.oracle_randomness,
    {
        self.oracle_randomness
    }

    /// The principal allowed to feed the oracle.
    pub fn owner(&self) -> (r: Principal)
        ensures
            r == self@.owner,
    {
        self.owner
    }

    /// The randomness committed by `p` for the current round, if any.
    pub fn player_randomness(&self, p: &Principal) -> (r: Option<u8>)
        requires
            self.wf(),
        ensures
            r == (if self@.ledger.contains_key(*p) {
                Some(self@.ledger[*p])
            } else {
                None::<u8>
            }),
    {
        self.players.get(p)
    }
}

} // verus!
