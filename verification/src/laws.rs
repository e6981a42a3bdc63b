//! The general properties of the escrow state machine, each proved once
//! and for all over the spec-level transitions that the executable
//! operations are verified to implement exactly.

use vstd::prelude::*;
use crate::errors::Error;
use crate::escrow::{platform_fee_of, winner_amount_of, StakeTransfer, StateView, WinnerPayout};

verus! {

/// Initialization is write-once: after any successful `initialize`, a
/// second `initialize` always fails with `AlreadyInitialized` and leaves
/// the state written by the first call unchanged.
pub proof fn lemma_initialize_write_once(
    s: StateView,
    admin1: u64,
    amount1: i128,
    admin2: u64,
    amount2: i128,
)
    requires
        s.initialize_result(admin1, amount1) is Ok,
    ensures
        ({
            let s1 = s.initialize_next(admin1, amount1);
            &&& s1.initialize_result(admin2, amount2) == Err::<(), Error>(
                Error::AlreadyInitialized,
            )
            &&& s1.initialize_next(admin2, amount2) == s1
        }),
{
}

/// A player cannot stake twice into the identical game: right after a
/// successful stake, the same player's next stake into the same game
/// fails with `AlreadyStaked` and changes nothing.
pub proof fn lemma_no_double_stake(s: StateView, player: u64, asset_account: u64, game_id: u64)
    requires
        s.stake_result(player, asset_account, game_id) is Ok,
    ensures
        ({
            let s1 = s.stake_next(player, asset_account, game_id);
            &&& s1.stake_result(player, asset_account, game_id) == Err::<StakeTransfer, Error>(
                Error::AlreadyStaked,
            )
            &&& s1.stake_next(player, asset_account, game_id) == s1
        }),
{
}

/// The state reached by staking each listed player in turn into one game.
pub open spec fn stake_all(
    s: StateView,
    players: Seq<u64>,
    asset_account: u64,
    game_id: u64,
) -> StateView
    decreases players.len(),
{
    if players.len() == 0 {
        s
    } else {
        stake_all(s, players.drop_last(), asset_account, game_id).stake_next(
            players.last(),
            asset_account,
            game_id,
        )
    }
}

/// Whether each listed stake succeeds from the state its predecessors
/// left behind.
pub open spec fn all_stakes_succeed(
    s: StateView,
    players: Seq<u64>,
    asset_account: u64,
    game_id: u64,
) -> bool
    decreases players.len(),
{
    if players.len() == 0 {
        true
    } else {
        &&& all_stakes_succeed(s, players.drop_last(), asset_account, game_id)
        &&& stake_all(s, players.drop_last(), asset_account, game_id).stake_result(
            players.last(),
            asset_account,
            game_id,
        ) is Ok
    }
}

/// Any sequence of successful stakes into a fresh game, with no stake
/// amount update in between, yields a match whose player list is exactly
/// the callers in call order, whose `stake_per_player` is the configured
/// amount, and whose pool is that amount times the number of players.
pub proof fn lemma_stakes_fill_fresh_match(
    s: StateView,
    players: Seq<u64>,
    asset_account: u64,
    game_id: u64,
)
    requires
        s.initialized(),
        !s.matches.contains_key(game_id),
        all_stakes_succeed(s, players, asset_account, game_id),
    ensures
        ({
            let t = stake_all(s, players, asset_account, game_id);
            &&& t.config == s.config
            &&& players.len() == 0 ==> t == s
            &&& players.len() > 0 ==> {
                &&& t.matches.contains_key(game_id)
                &&& t.matches[game_id].players == players
                &&& t.matches[game_id].stake_per_player == s.stake_amount() as int
                &&& t.matches[game_id].total_pool == s.stake_amount() * players.len()
                &&& t.matches[game_id].total_pool == t.matches[game_id].stake_per_player
                    * players.len()
                &&& t.matches[game_id].is_active
            }
        }),
    decreases players.len(),
{
    if players.len() > 0 {
        let prefix = players.drop_last();
        let t0 = stake_all(s, prefix, asset_account, game_id);
        lemma_stakes_fill_fresh_match(s, prefix, asset_account, game_id);
        let amount: int = s.stake_amount() as int;
        if prefix.len() == 0 {
            assert(t0.match_after_stake(players.last(), game_id).players =~= players);
        } else {
            assert(t0.matches[game_id].players.push(players.last()) =~= players);
            let n: int = players.len() as int;
            assert(amount * (n - 1) + amount == amount * n) by (nonlinear_arith);
            assert(prefix.len() == n - 1);
        }
    }
}

/// Declaring a winner who is not in the player list fails with
/// `WinnerNotAPlayer`: the match stays active and no transfer is owed,
/// because the state is exactly what it was.
pub proof fn lemma_winner_must_be_player(
    s: StateView,
    admin: u64,
    game_id: u64,
    winner: u64,
    ipfs_hash: Seq<char>,
    asset_account: u64,
)
    requires
        s.initialized(),
        admin == s.admin(),
        s.matches.contains_key(game_id),
        s.matches[game_id].is_active,
        !s.matches[game_id].players.contains(winner),
    ensures
        s.declare_result(admin, game_id, winner, ipfs_hash, asset_account) == Err::<
            WinnerPayout,
            Error,
        >(Error::WinnerNotAPlayer),
        s.declare_next(admin, game_id, winner, ipfs_hash, asset_account) == s,
        s.declare_next(admin, game_id, winner, ipfs_hash, asset_account).matches[
            game_id
        ].is_active,
{
}

/// A match is finalized at most once: after a successful declaration, any
/// further declaration on the same game by the stored admin fails with
/// `MatchAlreadyFinished` and leaves the finalized record untouched.
pub proof fn lemma_declare_once(
    s: StateView,
    admin: u64,
    game_id: u64,
    winner1: u64,
    hash1: Seq<char>,
    asset1: u64,
    winner2: u64,
    hash2: Seq<char>,
    asset2: u64,
)
    requires
        s.declare_result(admin, game_id, winner1, hash1, asset1) is Ok,
    ensures
        ({
            let s1 = s.declare_next(admin, game_id, winner1, hash1, asset1);
            &&& s1.declare_result(admin, game_id, winner2, hash2, asset2) == Err::<
                WinnerPayout,
                Error,
            >(Error::MatchAlreadyFinished)
            &&& s1.declare_next(admin, game_id, winner2, hash2, asset2) == s1
        }),
{
}

/// The payout split is exact: the fee and the winner's share sum back to
/// the whole pool, nothing lost and nothing double-counted, and the fee
/// is 5% of the pool with the division truncated toward zero.
pub proof fn lemma_payout_split(pool: int)
    ensures
        platform_fee_of(pool) + winner_amount_of(pool) == pool,
        pool >= 0 ==> platform_fee_of(pool) == pool * 5 / 100,
{
}

/// The split a successful declaration hands the host is the exact one:
/// over the pool of the match it finalizes, fee plus share give back the
/// pool, to the very i128 values.
pub proof fn lemma_declared_payout_is_exact(
    s: StateView,
    admin: u64,
    game_id: u64,
    winner: u64,
    ipfs_hash: Seq<char>,
    asset_account: u64,
)
    requires
        s.payout_fits(game_id),
        s.declare_result(admin, game_id, winner, ipfs_hash, asset_account) is Ok,
    ensures
        s.declare_result(admin, game_id, winner, ipfs_hash, asset_account) matches Ok(p)
            ==> {
            let pool = s.matches[game_id].total_pool;
            &&& p.platform_fee == platform_fee_of(pool)
            &&& p.winner_amount == winner_amount_of(pool)
            &&& p.platform_fee + p.winner_amount == pool
            &&& p.winner == winner
            &&& p.admin == admin
        },
{
    let pool = s.matches[game_id].total_pool;
    crate::escrow::lemma_trunc_div_5_percent_bounds(pool);
}

/// Only the stored admin can succeed at `declare_winner` or
/// `update_stake_amount`: any other identity fails with `Unauthorized`
/// and changes nothing, whatever the rest of the arguments.
pub proof fn lemma_admin_gate(
    s: StateView,
    admin: u64,
    game_id: u64,
    winner: u64,
    ipfs_hash: Seq<char>,
    asset_account: u64,
    new_amount: i128,
)
    requires
        s.initialized(),
        admin != s.admin(),
    ensures
        s.declare_result(admin, game_id, winner, ipfs_hash, asset_account) == Err::<
            WinnerPayout,
            Error,
        >(Error::Unauthorized),
        s.declare_next(admin, game_id, winner, ipfs_hash, asset_account) == s,
        s.update_stake_result(admin, new_amount) == Err::<(), Error>(Error::Unauthorized),
        s.update_stake_next(admin, new_amount) == s,
{
}

} // verus!
