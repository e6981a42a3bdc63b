use game_staking::errors::Error;
use game_staking::escrow::GameStakingContract;

#[test]
fn test_initialize() {
    let mut client = GameStakingContract::new();

    let admin: u64 = 1;
    let stake_amount: i128 = 100_000_000; // 10 XLM

    client.initialize(admin, stake_amount).unwrap();

    assert_eq!(client.get_stake_amount().unwrap(), stake_amount);
    assert_eq!(client.get_admin().unwrap(), admin);
}

#[test]
fn test_double_initialize() {
    let mut client = GameStakingContract::new();

    let admin: u64 = 1;
    let stake_amount: i128 = 100_000_000;

    client.initialize(admin, stake_amount).unwrap();
    let second = client.initialize(admin, stake_amount);

    assert_eq!(second, Err(Error::AlreadyInitialized));
    // State from the first call is unchanged.
    assert_eq!(client.get_stake_amount().unwrap(), stake_amount);
    assert_eq!(client.get_admin().unwrap(), admin);
}

#[test]
fn test_stake_to_play() {
    let mut client = GameStakingContract::new();

    let admin: u64 = 1;
    let player: u64 = 2;
    let token_address: u64 = 9;
    let stake_amount: i128 = 100_000_000;
    let game_id: u64 = 1;

    client.initialize(admin, stake_amount).unwrap();

    let receipt = client.stake_to_play(player, token_address, game_id).unwrap();
    assert_eq!(receipt.amount, stake_amount);
    assert_eq!(receipt.payer, player);

    assert!(client.has_staked(player));
}

#[test]
fn test_get_game_match() {
    let mut client = GameStakingContract::new();

    let admin: u64 = 1;
    let player1: u64 = 2;
    let player2: u64 = 3;
    let token_address: u64 = 9;
    let stake_amount: i128 = 100_000_000;
    let game_id: u64 = 1;

    client.initialize(admin, stake_amount).unwrap();

    client.stake_to_play(player1, token_address, game_id).unwrap();
    client.stake_to_play(player2, token_address, game_id).unwrap();

    let game_match = client.get_game_match(game_id).unwrap();

    assert_eq!(game_match.game_id, game_id);
    assert_eq!(game_match.players.len(), 2);
    assert_eq!(game_match.total_pool, stake_amount * 2);
    assert!(game_match.is_active);
}
