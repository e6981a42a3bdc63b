//! The escrow state machine: global configuration, per-player stake
//! pointers, per-match records, and the operations that advance them.
//!
//! Every operation is specified twice: a pair of spec functions
//! (`*_result` and `*_next` on [`StateView`]) give the mathematical
//! transition, and the executable method proves that it returns exactly
//! `*_result` and moves the state exactly to `*_next`.

use vstd::prelude::*;
use std::collections::HashMap;
use crate::errors::Error;

verus! {

broadcast use vstd::std_specs::hash::group_hash_axioms, vstd::seq_lib::group_seq_properties;

/// Truncating (round-toward-zero) integer division by a positive divisor,
/// as the executable `/` of the machine computes it. Spec-level `/` is
/// Euclidean, which differs on negative dividends.
pub open spec fn trunc_div(a: int, b: int) -> int
    recommends
        b > 0,
{
    if a >= 0 {
        a / b
    } else {
        -((-a) / b)
    }
}

/// The platform's cut of a pool: 5%, truncated toward zero.
pub open spec fn platform_fee_of(pool: int) -> int {
    trunc_div(pool * 5, 100)
}

/// The winner's share: everything the platform fee does not take, so the
/// two always sum to the pool exactly.
pub open spec fn winner_amount_of(pool: int) -> int {
    pool - platform_fee_of(pool)
}

/// The asset transfer a successful stake obliges the host to perform:
/// move `amount` from the payer to the contract's custody account.
#[derive(Clone, Copy, Debug, PartialEq, Eq, Structural)]
pub struct StakeTransfer {
    /// The asset account the transfer runs against.
    pub asset_account: u64,
    /// The staking player, source of the funds.
    pub payer: u64,
    /// The required stake read from the global configuration.
    pub amount: i128,
}

/// The two asset transfers a successful winner declaration obliges the
/// host to perform, both out of the contract's custody account.
#[derive(Clone, Copy, Debug, PartialEq, Eq, Structural)]
pub struct WinnerPayout {
    /// The asset account the transfers run against.
    pub asset_account: u64,
    /// Recipient of `winner_amount`.
    pub winner: u64,
    /// The pool minus the platform fee.
    pub winner_amount: i128,
    /// Recipient of `platform_fee`.
    pub admin: u64,
    /// Five percent of the pool, truncated.
    pub platform_fee: i128,
}

/// The singleton global configuration, created once by `initialize`.
#[derive(Clone, Copy, Debug, PartialEq, Eq, Structural)]
pub struct GlobalConfig {
    /// Identity of the authorized operator. Immutable after initialization.
    pub admin: u64,
    /// The currently required per-player stake. Mutable by the admin.
    pub stake_amount: i128,
}

/// One match record, created lazily on the first stake into its game id.
#[derive(Clone)]
pub struct GameMatch {
    /// Stable identity of the match.
    pub game_id: u64,
    /// Players in staking order; duplicates are kept out by the stake
    /// pointer check, not independently.
    pub players: Vec<u64>,
    /// The global stake amount read when the match was created.
    pub stake_per_player: i128,
    /// Running sum of the stake amounts read at each individual stake call.
    pub total_pool: i128,
    /// The declared winner; unset until finalization.
    pub winner: Option<u64>,
    /// Opaque content reference recorded at finalization.
    pub ipfs_hash: Option<String>,
    /// True from creation until the match is finalized, then false forever.
    pub is_active: bool,
}

/// Mathematical model of a [`GameMatch`].
#[verifier::ext_equal]
pub struct MatchView {
    pub game_id: u64,
    pub players: Seq<u64>,
    pub stake_per_player: int,
    pub total_pool: int,
    pub winner: Option<u64>,
    pub ipfs_hash: Option<Seq<char>>,
    pub is_active: bool,
}

impl View for GameMatch {
    type V = MatchView;

    open spec fn view(&self) -> MatchView {
        MatchView {
            game_id: self.game_id,
            players: self.players@,
            stake_per_player: self.stake_per_player as int,
            total_pool: self.total_pool as int,
            winner: self.winner,
            ipfs_hash: match self.ipfs_hash {
                Some(s) => Some(s@),
                None => None,
            },
            is_active: self.is_active,
        }
    }
}

/// Mathematical model of the whole contract state.
#[verifier::ext_equal]
pub struct StateView {
    /// `None` until `initialize` has run.
    pub config: Option<GlobalConfig>,
    /// Per-player stake pointers: player identity to the last game id the
    /// player staked into.
    pub stakes: Map<u64, u64>,
    /// Per-match records, keyed by game id.
    pub matches: Map<u64, MatchView>,
    /// Zeroed by `initialize`; reserved and never consulted elsewhere.
    pub match_counter: u64,
}

impl StateView {
    /// The state before `initialize` has ever run.
    pub open spec fn empty() -> StateView {
        StateView {
            config: None,
            stakes: Map::empty(),
            matches: Map::empty(),
            match_counter: 0,
        }
    }

    pub open spec fn initialized(self) -> bool {
        self.config is Some
    }

    /// The stored admin identity.
    pub open spec fn admin(self) -> u64
        recommends
            self.initialized(),
    {
        self.config->0.admin
    }

    /// The currently required per-player stake.
    pub open spec fn stake_amount(self) -> i128
        recommends
            self.initialized(),
    {
        self.config->0.stake_amount
    }

    /// Result of `initialize`: rejected exactly when the configuration
    /// already exists.
    pub open spec fn initialize_result(self, admin: u64, stake_amount: i128) -> Result<
        (),
        Error,
    > {
        if self.initialized() {
            Err(Error::AlreadyInitialized)
        } else {
            Ok(())
        }
    }

    /// State after `initialize`: on success the configuration is written
    /// and the match counter zeroed; on failure nothing changes.
    pub open spec fn initialize_next(self, admin: u64, stake_amount: i128) -> StateView {
        if self.initialized() {
            self
        } else {
            StateView {
                config: Some(GlobalConfig { admin, stake_amount }),
                match_counter: 0,
                ..self
            }
        }
    }

    /// Result of `stake_to_play`: rejected before initialization, and
    /// rejected with `AlreadyStaked` exactly when the player's stake
    /// pointer already names this very game. On success the host owes the
    /// transfer of the configured stake from the player to custody.
    pub open spec fn stake_result(self, player: u64, asset_account: u64, game_id: u64) -> Result<
        StakeTransfer,
        Error,
    > {
        if !self.initialized() {
            Err(Error::NotInitialized)
        } else if self.stakes.contains_key(player) && self.stakes[player] == game_id {
            Err(Error::AlreadyStaked)
        } else {
            Ok(StakeTransfer { asset_account, payer: player, amount: self.stake_amount() })
        }
    }

    /// The match record after a successful stake: created with the current
    /// stake amount fixed as `stake_per_player` if absent, else appended
    /// to, with the pool grown by the stake amount read at this call.
    pub open spec fn match_after_stake(self, player: u64, game_id: u64) -> MatchView
        recommends
            self.initialized(),
    {
        if self.matches.contains_key(game_id) {
            let m = self.matches[game_id];
            MatchView {
                players: m.players.push(player),
                total_pool: m.total_pool + self.stake_amount(),
                ..m
            }
        } else {
            MatchView {
                game_id,
                players: seq![player],
                stake_per_player: self.stake_amount() as int,
                total_pool: self.stake_amount() as int,
                winner: None,
                ipfs_hash: None,
                is_active: true,
            }
        }
    }

    /// State after `stake_to_play`: on success the player's stake pointer
    /// is set (overwriting a pointer to any other game), and the match is
    /// created or extended; on failure nothing changes.
    pub open spec fn stake_next(self, player: u64, asset_account: u64, game_id: u64) -> StateView {
        if self.stake_result(player, asset_account, game_id) is Ok {
            StateView {
                stakes: self.stakes.insert(player, game_id),
                matches: self.matches.insert(game_id, self.match_after_stake(player, game_id)),
                ..self
            }
        } else {
            self
        }
    }

    /// The one machine limit on staking: the running pool must stay
    /// representable in a signed 128-bit integer.
    pub open spec fn stake_pool_fits(self, game_id: u64) -> bool {
        self.initialized() && self.matches.contains_key(game_id)
            ==> i128::MIN <= self.matches[game_id].total_pool + self.stake_amount() <= i128::MAX
    }

    /// Result of `declare_winner`. The checks run in this order, all
    /// before any transfer: configuration, stored-admin identity, match
    /// existence, liveness, winner membership. On success the host owes
    /// the winner's share to the winner and the platform fee to the admin.
    pub open spec fn declare_result(
        self,
        admin: u64,
        game_id: u64,
        winner: u64,
        ipfs_hash: Seq<char>,
        asset_account: u64,
    ) -> Result<WinnerPayout, Error> {
        if !self.initialized() {
            Err(Error::NotInitialized)
        } else if admin != self.admin() {
            Err(Error::Unauthorized)
        } else if !self.matches.contains_key(game_id) {
            Err(Error::MatchNotFound)
        } else if !self.matches[game_id].is_active {
            Err(Error::MatchAlreadyFinished)
        } else if !self.matches[game_id].players.contains(winner) {
            Err(Error::WinnerNotAPlayer)
        } else {
            let pool = self.matches[game_id].total_pool;
            Ok(
                WinnerPayout {
                    asset_account,
                    winner,
                    winner_amount: winner_amount_of(pool) as i128,
                    admin,
                    platform_fee: platform_fee_of(pool) as i128,
                },
            )
        }
    }

    /// The finalized match record: winner and content reference set,
    /// inactive forever after; players and pool kept for reading.
    pub open spec fn finalized_match(self, game_id: u64, winner: u64, ipfs_hash: Seq<char>) -> MatchView
        recommends
            self.matches.contains_key(game_id),
    {
        MatchView {
            winner: Some(winner),
            ipfs_hash: Some(ipfs_hash),
            is_active: false,
            ..self.matches[game_id]
        }
    }

    /// State after `declare_winner`: on success the match is finalized and
    /// the stake pointer of every listed player is removed, even one that
    /// meanwhile points at a different game; on failure nothing changes.
    pub open spec fn declare_next(
        self,
        admin: u64,
        game_id: u64,
        winner: u64,
        ipfs_hash: Seq<char>,
        asset_account: u64,
    ) -> StateView {
        if self.declare_result(admin, game_id, winner, ipfs_hash, asset_account) is Ok {
            StateView {
                stakes: self.stakes.remove_keys(self.matches[game_id].players.to_set()),
                matches: self.matches.insert(
                    game_id,
                    self.finalized_match(game_id, winner, ipfs_hash),
                ),
                ..self
            }
        } else {
            self
        }
    }

    /// The one machine limit on declaring a winner: five times the pool
    /// must be representable in a signed 128-bit integer.
    pub open spec fn payout_fits(self, game_id: u64) -> bool {
        self.matches.contains_key(game_id) ==> i128::MIN <= self.matches[game_id].total_pool * 5
            <= i128::MAX
    }

    /// Result of `update_stake_amount`: only the stored admin may change
    /// the required stake.
    pub open spec fn update_stake_result(self, admin: u64, new_amount: i128) -> Result<
        (),
        Error,
    > {
        if !self.initialized() {
            Err(Error::NotInitialized)
        } else if admin != self.admin() {
            Err(Error::Unauthorized)
        } else {
            Ok(())
        }
    }

    /// State after `update_stake_amount`: on success only the required
    /// stake changes; matches already created keep their fixed
    /// `stake_per_player`.
    pub open spec fn update_stake_next(self, admin: u64, new_amount: i128) -> StateView {
        if self.update_stake_result(admin, new_amount) is Ok {
            StateView {
                config: Some(GlobalConfig { admin: self.admin(), stake_amount: new_amount }),
                ..self
            }
        } else {
            self
        }
    }
}

/// The 5% fee keeps the sign of the pool and never exceeds it in
/// magnitude, so both the fee and the winner's share stay within the
/// pool's own range.
pub proof fn lemma_trunc_div_5_percent_bounds(pool: int)
    ensures
        pool >= 0 ==> 0 <= platform_fee_of(pool) <= pool,
        pool < 0 ==> pool <= platform_fee_of(pool) <= 0,
        pool >= 0 ==> 0 <= winner_amount_of(pool) <= pool,
        pool < 0 ==> pool <= winner_amount_of(pool) <= 0,
{
    if pool >= 0 {
        let q: int = (pool * 5) / 100;
        vstd::arithmetic::div_mod::lemma_fundamental_div_mod(pool * 5, 100);
        assert(pool * 5 == 100 * q + (pool * 5) % 100);
        assert(platform_fee_of(pool) == q);
    } else {
        let q: int = (-(pool * 5)) / 100;
        vstd::arithmetic::div_mod::lemma_fundamental_div_mod(-(pool * 5), 100);
        assert(-(pool * 5) == 100 * q + (-(pool * 5)) % 100);
        assert(platform_fee_of(pool) == -q);
    }
}

/// Whether `x` occurs in `v`.
fn vec_contains(v: &Vec<u64>, x: u64) -> (r: bool)
    ensures
        r == v@.contains(x),
{
    let mut i: usize = 0;
    while i < v.len()
        invariant
            0 <= i <= v@.len(),
            forall|j: int| 0 <= j < i ==> v@[j] != x,
        decreases v@.len() - i,
    {
        if v[i] == x {
            proof {
                assert(v@[i as int] == x);
            }
            return true;
        }
        i = i + 1;
    }
    false
}

/// An element-for-element copy of `v`.
fn copy_players(v: &Vec<u64>) -> (r: Vec<u64>)
    ensures
        r@ == v@,
{
    let mut r: Vec<u64> = Vec::new();
    let mut i: usize = 0;
    while i < v.len()
        invariant
            0 <= i <= v@.len(),
            r@ == v@.take(i as int),
        decreases v@.len() - i,
    {
        r.push(v[i]);
        proof {
            assert(v@.take(i as int).push(v@[i as int]) =~= v@.take((i + 1) as int));
        }
        i = i + 1;
    }
    proof {
        assert(v@.take(v@.len() as int) =~= v@);
    }
    r
}

/// The escrow state machine. The host environment owns one value of this
/// type, invokes one operation at a time, and commits or discards the
/// whole state together with the operation's asset transfers.
#[derive(Clone)]
pub struct GameStakingContract {
    config: Option<GlobalConfig>,
    stakes: HashMap<u64, u64>,
    matches: HashMap<u64, GameMatch>,
    match_counter: u64,
}

impl View for GameStakingContract {
    type V = StateView;

    closed spec fn view(&self) -> StateView {
        StateView {
            config: self.config,
            stakes: self.stakes@,
            matches: Map::new(
                |g: u64| self.matches@.contains_key(g),
                |g: u64| self.matches@[g]@,
            ),
            match_counter: self.match_counter,
        }
    }
}

impl GameStakingContract {
    /// A fresh, uninitialized contract state.
    pub fn new() -> (s: GameStakingContract)
        ensures
            s@ == StateView::empty(),
    {
        let s = GameStakingContract {
            config: None,
            stakes: HashMap::new(),
            matches: HashMap::new(),
            match_counter: 0,
        };
        proof {
            assert(s@.matches =~= Map::<u64, MatchView>::empty());
            assert(s@ =~= StateView::empty());
        }
        s
    }

    /// Initialize the contract with the admin identity and the required
    /// stake amount. Write-once: a second call fails with
    /// `AlreadyInitialized` and changes nothing.
    pub fn initialize(&mut self, admin: u64, stake_amount: i128) -> (r: Result<(), Error>)
        ensures
            r == old(self)@.initialize_result(admin, stake_amount),
            final(self)@ == old(self)@.initialize_next(admin, stake_amount),
    {
        if self.config.is_some() {
            return Err(Error::AlreadyInitialized);
        }
        self.config = Some(GlobalConfig { admin, stake_amount });
        self.match_counter = 0;
        proof {
            assert(self@ =~= old(self)@.initialize_next(admin, stake_amount));
        }
        Ok(())
    }

    /// Stake the configured amount into a game. On success the player's
    /// stake pointer is set to `game_id` and the match record is created
    /// or extended, and the returned receipt obliges the host to move the
    /// stake from the player into custody; if that transfer fails, the
    /// host discards this state together with the rest of the invocation.
    pub fn stake_to_play(&mut self, player: u64, asset_account: u64, game_id: u64) -> (r: Result<
        StakeTransfer,
        Error,
    >)
        requires
            old(self)@.stake_pool_fits(game_id),
        ensures
            r == old(self)@.stake_result(player, asset_account, game_id),
            final(self)@ == old(self)@.stake_next(player, asset_account, game_id),
    {
        let stake_amount: i128 = match &self.config {
            Some(c) => c.stake_amount,
            None => return Err(Error::NotInitialized),
        };
        match self.stakes.get(&player) {
            Some(g) => {
                if *g == game_id {
                    return Err(Error::AlreadyStaked);
                }
            },
            None => {},
        }
        self.stakes.insert(player, game_id);
        let mut m: GameMatch = match self.matches.remove(&game_id) {
            Some(m) => m,
            None => GameMatch {
                game_id,
                players: Vec::new(),
                stake_per_player: stake_amount,
                total_pool: 0,
                winner: None,
                ipfs_hash: None,
                is_active: true,
            },
        };
        m.players.push(player);
        m.total_pool = m.total_pool + stake_amount;
        self.matches.insert(game_id, m);
        proof {
            let s0 = old(self)@;
            let expected = s0.stake_next(player, asset_account, game_id);
            assert(self@.matches =~= expected.matches);
            assert(self@ =~= expected);
        }
        Ok(StakeTransfer { asset_account, payer: player, amount: stake_amount })
    }

    /// The stored admin identity; fails until initialized.
    pub fn get_admin(&self) -> (r: Result<u64, Error>)
        ensures
            match r {
                Ok(a) => self@.initialized() && a == self@.admin(),
                Err(e) => !self@.initialized() && e == Error::NotInitialized,
            },
    {
        match &self.config {
            Some(c) => Ok(c.admin),
            None => Err(Error::NotInitialized),
        }
    }

    /// The currently required per-player stake; fails until initialized.
    pub fn get_stake_amount(&self) -> (r: Result<i128, Error>)
        ensures
            match r {
                Ok(a) => self@.initialized() && a == self@.stake_amount(),
                Err(e) => !self@.initialized() && e == Error::NotInitialized,
            },
    {
        match &self.config {
            Some(c) => Ok(c.stake_amount),
            None => Err(Error::NotInitialized),
        }
    }

    /// Finalize a match: record the winner and content reference, mark the
    /// match inactive forever, and remove the stake pointer of every
    /// listed player. Only the stored admin may do this, and every check
    /// runs before any transfer is owed. The returned payout obliges the
    /// host to pay the winner's share to the winner and the platform fee
    /// to the admin out of custody; if either transfer fails, the host
    /// discards this state together with the rest of the invocation.
    pub fn declare_winner(
        &mut self,
        admin: u64,
        game_id: u64,
        winner: u64,
        ipfs_hash: String,
        asset_account: u64,
    ) -> (r: Result<WinnerPayout, Error>)
        requires
            old(self)@.payout_fits(game_id),
        ensures
            r == old(self)@.declare_result(admin, game_id, winner, ipfs_hash@, asset_account),
            final(self)@ == old(self)@.declare_next(
                admin,
                game_id,
                winner,
                ipfs_hash@,
                asset_account,
            ),
    {
        let stored_admin: u64 = match &self.config {
            Some(c) => c.admin,
            None => return Err(Error::NotInitialized),
        };
        if admin != stored_admin {
            return Err(Error::Unauthorized);
        }
        match self.matches.get(&game_id) {
            None => return Err(Error::MatchNotFound),
            Some(gm) => {
                if !gm.is_active {
                    return Err(Error::MatchAlreadyFinished);
                }
                if !vec_contains(&gm.players, winner) {
                    return Err(Error::WinnerNotAPlayer);
                }
            },
        }
        let mut m: GameMatch = match self.matches.remove(&game_id) {
            Some(gm) => gm,
            None => return Err(Error::MatchNotFound),
        };
        let pool: i128 = m.total_pool;
        let scaled: i128 = pool * 5;
        let platform_fee: i128 = scaled / 100;
        proof {
            lemma_trunc_div_5_percent_bounds(pool as int);
            assert(platform_fee == platform_fee_of(pool as int));
        }
        let winner_amount: i128 = pool - platform_fee;
        m.winner = Some(winner);
        m.ipfs_hash = Some(ipfs_hash);
        m.is_active = false;
        let ghost stakes0 = self.stakes@;
        let mut i: usize = 0;
        while i < m.players.len()
            invariant
                0 <= i <= m.players@.len(),
                self.stakes@ == stakes0.remove_keys(m.players@.take(i as int).to_set()),
                self.config == old(self).config,
                self.matches@ == old(self).matches@.remove(game_id),
                self.match_counter == old(self).match_counter,
            decreases m.players@.len() - i,
        {
            let p: u64 = m.players[i];
            self.stakes.remove(&p);
            proof {
                let taken = m.players@.take(i as int);
                assert(m.players@.take((i + 1) as int) =~= taken.push(p));
                assert(taken.push(p).to_set() =~= taken.to_set().insert(p));
                assert(stakes0.remove_keys(taken.to_set()).remove(p) =~= stakes0.remove_keys(
                    taken.to_set().insert(p),
                ));
            }
            i = i + 1;
        }
        proof {
            assert(m.players@.take(m.players@.len() as int) =~= m.players@);
        }
        self.matches.insert(game_id, m);
        proof {
            let s0 = old(self)@;
            let expected = s0.declare_next(admin, game_id, winner, ipfs_hash@, asset_account);
            assert(self@.matches =~= expected.matches);
            assert(self@ =~= expected);
        }
        Ok(WinnerPayout { asset_account, winner, winner_amount, admin, platform_fee })
    }

    /// Read a match record; a copy of the stored record is returned, so
    /// repeated reads of a finalized match always see the same value.
    pub fn get_game_match(&self, game_id: u64) -> (r: Result<GameMatch, Error>)
        ensures
            match r {
                Ok(m) => self@.matches.contains_key(game_id) && m@ == self@.matches[game_id],
                Err(e) => !self@.matches.contains_key(game_id) && e == Error::MatchNotFound,
            },
    {
        match self.matches.get(&game_id) {
            None => Err(Error::MatchNotFound),
            Some(m) => {
                let hash_copy: Option<String> = match &m.ipfs_hash {
                    Some(s) => Some(s.clone()),
                    None => None,
                };
                Ok(
                    GameMatch {
                        game_id: m.game_id,
                        players: copy_players(&m.players),
                        stake_per_player: m.stake_per_player,
                        total_pool: m.total_pool,
                        winner: m.winner,
                        ipfs_hash: hash_copy,
                        is_active: m.is_active,
                    },
                )
            },
        }
    }

    /// Whether the player currently holds a stake pointer.
    pub fn has_staked(&self, player: u64) -> (r: bool)
        ensures
            r == self@.stakes.contains_key(player),
    {
        self.stakes.contains_key(&player)
    }

    /// The game id the player last staked into, if any. Absence is an
    /// empty result, not a failure.
    pub fn get_player_game(&self, player: u64) -> (r: Option<u64>)
        ensures
            r == if self@.stakes.contains_key(player) {
                Some(self@.stakes[player])
            } else {
                None::<u64>
            },
    {
        match self.stakes.get(&player) {
            Some(g) => Some(*g),
            None => None,
        }
    }

    /// Overwrite the required stake amount. Only the stored admin may do
    /// this; it affects only matches created after the call.
    pub fn update_stake_amount(&mut self, admin: u64, new_amount: i128) -> (r: Result<
        (),
        Error,
    >)
        ensures
            r == old(self)@.update_stake_result(admin, new_amount),
            final(self)@ == old(self)@.update_stake_next(admin, new_amount),
    {
        let stored_admin: u64 = match &self.config {
            Some(c) => c.admin,
            None => return Err(Error::NotInitialized),
        };
        if admin != stored_admin {
            return Err(Error::Unauthorized);
        }
        let stake_amount: i128 = new_amount;
        self.config = Some(GlobalConfig { admin: stored_admin, stake_amount });
        proof {
            assert(self@ =~= old(self)@.update_stake_next(admin, new_amount));
        }
        Ok(())
    }
}

} // verus!
