use game_staking::errors::Error;
use game_staking::escrow::GameStakingContract;

const ADMIN: u64 = 1;
const P1: u64 = 11;
const P2: u64 = 12;
const P3: u64 = 13;
const ASSET: u64 = 9;

#[test]
fn end_to_end_settlement() {
    let mut c = GameStakingContract::new();
    c.initialize(ADMIN, 100).unwrap();

    let r1 = c.stake_to_play(P1, ASSET, 1).unwrap();
    let r2 = c.stake_to_play(P2, ASSET, 1).unwrap();
    assert_eq!(r1.amount, 100);
    assert_eq!(r2.amount, 100);

    let m = c.get_game_match(1).unwrap();
    assert_eq!(m.total_pool, 200);
    assert_eq!(m.players, vec![P1, P2]);

    let payout = c
        .declare_winner(ADMIN, 1, P1, String::from("hash"), ASSET)
        .unwrap();
    assert_eq!(payout.winner_amount, 190);
    assert_eq!(payout.platform_fee, 10);
    assert_eq!(payout.winner, P1);
    assert_eq!(payout.admin, ADMIN);

    let m = c.get_game_match(1).unwrap();
    assert!(!m.is_active);
    assert_eq!(m.winner, Some(P1));
    assert_eq!(m.ipfs_hash, Some(String::from("hash")));
    assert!(!c.has_staked(P1));
    assert!(!c.has_staked(P2));
}

#[test]
fn get_game_match_is_stable_after_finalization() {
    let mut c = GameStakingContract::new();
    c.initialize(ADMIN, 100).unwrap();
    c.stake_to_play(P1, ASSET, 1).unwrap();
    c.declare_winner(ADMIN, 1, P1, String::from("h"), ASSET).unwrap();

    let first = c.get_game_match(1).unwrap();
    let second = c.get_game_match(1).unwrap();
    assert_eq!(first.game_id, second.game_id);
    assert_eq!(first.players, second.players);
    assert_eq!(first.stake_per_player, second.stake_per_player);
    assert_eq!(first.total_pool, second.total_pool);
    assert_eq!(first.winner, second.winner);
    assert_eq!(first.ipfs_hash, second.ipfs_hash);
    assert_eq!(first.is_active, second.is_active);
    assert_eq!(second.winner, Some(P1));
    assert!(!second.is_active);
}

#[test]
fn operations_fail_before_initialize() {
    let mut c = GameStakingContract::new();
    assert!(matches!(c.stake_to_play(P1, ASSET, 1), Err(Error::NotInitialized)));
    assert!(matches!(
        c.declare_winner(ADMIN, 1, P1, String::from("h"), ASSET),
        Err(Error::NotInitialized)
    ));
    assert!(matches!(c.update_stake_amount(ADMIN, 5), Err(Error::NotInitialized)));
    assert!(matches!(c.get_stake_amount(), Err(Error::NotInitialized)));
    assert!(matches!(c.get_admin(), Err(Error::NotInitialized)));
}

#[test]
fn double_stake_same_game_is_rejected() {
    let mut c = GameStakingContract::new();
    c.initialize(ADMIN, 100).unwrap();
    c.stake_to_play(P1, ASSET, 1).unwrap();
    assert!(matches!(c.stake_to_play(P1, ASSET, 1), Err(Error::AlreadyStaked)));
    // Match state is unchanged by the failed attempt.
    let m = c.get_game_match(1).unwrap();
    assert_eq!(m.players, vec![P1]);
    assert_eq!(m.total_pool, 100);
}

#[test]
fn stake_pointer_is_overwritten_by_a_different_game() {
    let mut c = GameStakingContract::new();
    c.initialize(ADMIN, 100).unwrap();
    c.stake_to_play(P1, ASSET, 1).unwrap();
    assert_eq!(c.get_player_game(P1), Some(1));
    // Staking into another game overwrites the pointer without question.
    c.stake_to_play(P1, ASSET, 2).unwrap();
    assert_eq!(c.get_player_game(P1), Some(2));
    // Finalizing the first match removes P1's pointer unconditionally,
    // even though it points at the second, still-active match.
    c.declare_winner(ADMIN, 1, P1, String::from("h"), ASSET).unwrap();
    assert!(!c.has_staked(P1));
    assert!(c.get_game_match(2).unwrap().is_active);
}

#[test]
fn declare_winner_checks_admin_match_and_membership() {
    let mut c = GameStakingContract::new();
    c.initialize(ADMIN, 100).unwrap();
    c.stake_to_play(P1, ASSET, 1).unwrap();

    // A non-admin identity is turned away even with valid arguments.
    assert!(matches!(
        c.declare_winner(P2, 1, P1, String::from("h"), ASSET),
        Err(Error::Unauthorized)
    ));
    // A missing match is reported.
    assert!(matches!(
        c.declare_winner(ADMIN, 7, P1, String::from("h"), ASSET),
        Err(Error::MatchNotFound)
    ));
    // A winner outside the player list is rejected and the match stays
    // active, with every stake pointer still in place.
    assert!(matches!(
        c.declare_winner(ADMIN, 1, P2, String::from("h"), ASSET),
        Err(Error::WinnerNotAPlayer)
    ));
    assert!(c.get_game_match(1).unwrap().is_active);
    assert!(c.has_staked(P1));

    // After a real settlement the match cannot be settled again.
    c.declare_winner(ADMIN, 1, P1, String::from("h"), ASSET).unwrap();
    assert!(matches!(
        c.declare_winner(ADMIN, 1, P1, String::from("h"), ASSET),
        Err(Error::MatchAlreadyFinished)
    ));
}

#[test]
fn update_stake_amount_is_admin_gated() {
    let mut c = GameStakingContract::new();
    c.initialize(ADMIN, 100).unwrap();
    assert!(matches!(c.update_stake_amount(P1, 50), Err(Error::Unauthorized)));
    assert_eq!(c.get_stake_amount().unwrap(), 100);
    c.update_stake_amount(ADMIN, 50).unwrap();
    assert_eq!(c.get_stake_amount().unwrap(), 50);
    assert_eq!(c.get_admin().unwrap(), ADMIN);
}

#[test]
fn pool_drifts_when_stake_amount_changes_mid_match() {
    let mut c = GameStakingContract::new();
    c.initialize(ADMIN, 100).unwrap();
    c.stake_to_play(P1, ASSET, 1).unwrap();
    c.update_stake_amount(ADMIN, 50).unwrap();
    let r = c.stake_to_play(P2, ASSET, 1).unwrap();
    assert_eq!(r.amount, 50);
    let m = c.get_game_match(1).unwrap();
    // stake_per_player stays fixed at match creation; the pool records
    // what was actually read at each call.
    assert_eq!(m.stake_per_player, 100);
    assert_eq!(m.total_pool, 150);
    assert_eq!(m.players, vec![P1, P2]);
}

#[test]
fn missing_match_lookup_fails() {
    let mut c = GameStakingContract::new();
    c.initialize(ADMIN, 100).unwrap();
    assert!(matches!(c.get_game_match(42), Err(Error::MatchNotFound)));
    assert_eq!(c.get_player_game(P1), None);
    assert!(!c.has_staked(P1));
}

#[test]
fn payout_truncates_toward_zero() {
    // 5% of 30 truncates to 1; the remainder stays with the winner.
    let mut c = GameStakingContract::new();
    c.initialize(ADMIN, 30).unwrap();
    c.stake_to_play(P1, ASSET, 1).unwrap();
    let p = c.declare_winner(ADMIN, 1, P1, String::from("h"), ASSET).unwrap();
    assert_eq!(p.platform_fee, 1);
    assert_eq!(p.winner_amount, 29);
    assert_eq!(p.platform_fee + p.winner_amount, 30);

    // A negative pool truncates toward zero as well: 5% of -30 is -1.
    let mut c = GameStakingContract::new();
    c.initialize(ADMIN, -30).unwrap();
    c.stake_to_play(P1, ASSET, 1).unwrap();
    let p = c.declare_winner(ADMIN, 1, P1, String::from("h"), ASSET).unwrap();
    assert_eq!(p.platform_fee, -1);
    assert_eq!(p.winner_amount, -29);
    assert_eq!(p.platform_fee + p.winner_amount, -30);
}

#[test]
fn finished_match_still_accepts_stakes() {
    // Staking checks only the stake pointer, never the match lifecycle:
    // a stake into a finished match appends to its frozen record.
    let mut c = GameStakingContract::new();
    c.initialize(ADMIN, 100).unwrap();
    c.stake_to_play(P1, ASSET, 1).unwrap();
    c.declare_winner(ADMIN, 1, P1, String::from("h"), ASSET).unwrap();

    c.stake_to_play(P3, ASSET, 1).unwrap();
    let m = c.get_game_match(1).unwrap();
    assert_eq!(m.players, vec![P1, P3]);
    assert_eq!(m.total_pool, 200);
    assert!(!m.is_active);
    assert_eq!(m.winner, Some(P1));
}
