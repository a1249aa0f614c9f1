use coin_flip::{
    check_game_address, deposit, derive_game_address, end_coin_flip, game_seed_list, new_coin_flip,
    payout, resolution_result, resolution_seed, u64_le_bytes, Account, ClockSnapshot, CoinFlip,
    EndCoinFlip, ErrorCode, GameCounter, Key, NewCoinFlip,
};

const PROGRAM: Key = Key { bytes: [9u8; 32] };
const OPENER: Key = Key { bytes: [1u8; 32] };
const JOINER: Key = Key { bytes: [2u8; 32] };

fn blank_record() -> CoinFlip {
    CoinFlip {
        client_nonce: 0,
        bet_starter: Key::default_key(),
        starting_wager: 0,
        bet_ender: Key::default_key(),
        ending_wager: 0,
        winner: Key::default_key(),
        loser: Key::default_key(),
        is_active: false,
        bump: 0,
    }
}

/// Opens a game of `stake` with nonce 3; custody starts with `rent`.
fn opened(stake: u64, opener_funds: u64, rent: u64) -> NewCoinFlip {
    let (custody, _) = derive_game_address(&PROGRAM, &OPENER, 3).unwrap();
    let mut ctx = NewCoinFlip {
        program_id: PROGRAM,
        accounts: vec![
            Account { key: custody, lamports: rent },
            Account { key: OPENER, lamports: opener_funds },
        ],
        coin_flip: blank_record(),
        coin_flip_account: 0,
        player: 1,
    };
    assert_eq!(new_coin_flip(&mut ctx, 3, stake), Ok(()));
    ctx
}

fn joining(open: &NewCoinFlip, joiner_funds: u64) -> EndCoinFlip {
    EndCoinFlip {
        program_id: PROGRAM,
        accounts: vec![
            open.accounts[0],
            open.accounts[1],
            Account { key: JOINER, lamports: joiner_funds },
        ],
        coin_flip: open.coin_flip,
        coin_flip_account: 0,
        player: 2,
        bet_starter: 1,
    }
}

// JOINER's first byte is 2, so an even timestamp lets the opener win and an
// odd one the joiner.
const OPENER_WINS: ClockSnapshot = ClockSnapshot { slot: 10, unix_timestamp: 1_000 };
const JOINER_WINS: ClockSnapshot = ClockSnapshot { slot: 10, unix_timestamp: 1_001 };

#[test]
fn join_range_example() {
    let open = opened(1_000_000, 1_000_000, 0);
    for bad in [980_000u64, 1_020_000u64, 989_999u64, 1_010_001u64] {
        let mut join = joining(&open, 2_000_000);
        let before = join.accounts.clone();
        assert_eq!(end_coin_flip(&mut join, bad, OPENER_WINS), Err(ErrorCode::WagerOutOfRange));
        assert_eq!(join.accounts.len(), before.len());
        for i in 0..before.len() {
            assert_eq!(join.accounts[i].lamports, before[i].lamports);
        }
        assert!(join.coin_flip.is_active);
    }
    for good in [990_000u64, 1_000_000u64, 1_010_000u64] {
        let mut join = joining(&open, 2_000_000);
        assert_eq!(end_coin_flip(&mut join, good, OPENER_WINS), Ok(()));
        assert_eq!(join.coin_flip.ending_wager, good);
    }
}

#[test]
fn open_then_join_end_to_end() {
    let open = opened(100, 100, 10);
    let record = open.coin_flip;
    assert!(record.is_active);
    assert_eq!(record.starting_wager, 100);
    assert_eq!(record.bet_starter, OPENER);
    assert_eq!(record.bet_ender, Key::default_key());
    assert_eq!(record.client_nonce, 3);
    assert_eq!(open.accounts[0].lamports, 110);
    assert_eq!(open.accounts[1].lamports, 0);

    let mut join = joining(&open, 100);
    assert_eq!(end_coin_flip(&mut join, 100, JOINER_WINS), Ok(()));
    let record = join.coin_flip;
    assert!(!record.is_active);
    assert_eq!(record.ending_wager, 100);
    assert_eq!(record.starting_wager + record.ending_wager, 200);
    assert_eq!(record.winner, JOINER);
    assert_eq!(record.loser, OPENER);
    assert_eq!(record.bet_ender, JOINER);
    // custody held 210 after the joiner's deposit and gives back the pool
    assert_eq!(join.accounts[0].lamports, 10);
    assert_eq!(join.accounts[1].lamports, 0);
    assert_eq!(join.accounts[2].lamports, 200);
}

#[test]
fn opener_wins_and_is_paid() {
    let open = opened(500, 700, 0);
    let mut join = joining(&open, 600);
    assert_eq!(end_coin_flip(&mut join, 501, OPENER_WINS), Ok(()));
    assert_eq!(join.coin_flip.winner, OPENER);
    assert_eq!(join.coin_flip.loser, JOINER);
    assert_eq!(join.accounts[0].lamports, 0);
    assert_eq!(join.accounts[1].lamports, 200 + 1_001);
    assert_eq!(join.accounts[2].lamports, 99);
}

#[test]
fn second_join_is_refused() {
    let open = opened(100, 100, 0);
    let mut join = joining(&open, 300);
    assert_eq!(end_coin_flip(&mut join, 100, OPENER_WINS), Ok(()));
    let settled = join.coin_flip;
    let balances: Vec<u64> = join.accounts.iter().map(|a| a.lamports).collect();
    assert_eq!(end_coin_flip(&mut join, 100, JOINER_WINS), Err(ErrorCode::GameAlreadyFinished));
    let after: Vec<u64> = join.accounts.iter().map(|a| a.lamports).collect();
    assert_eq!(after, balances);
    assert_eq!(join.coin_flip.winner, settled.winner);
    assert!(!join.coin_flip.is_active);
}

#[test]
fn join_overflow_guard() {
    let stake = u64::MAX / 2;
    let open = opened(stake, stake, 0);
    let mut join = joining(&open, stake);
    assert_eq!(end_coin_flip(&mut join, stake, OPENER_WINS), Err(ErrorCode::ArithmeticOverflow));
    assert!(join.coin_flip.is_active);
    assert_eq!(join.accounts[2].lamports, stake);
}

#[test]
fn zero_stake_is_accepted() {
    let open = opened(0, 0, 0);
    assert!(open.coin_flip.is_active);
    let mut join = joining(&open, 0);
    assert_eq!(end_coin_flip(&mut join, 0, JOINER_WINS), Ok(()));
    assert_eq!(join.coin_flip.winner, JOINER);
}

#[test]
fn open_needs_funds() {
    let (custody, _) = derive_game_address(&PROGRAM, &OPENER, 3).unwrap();
    let mut ctx = NewCoinFlip {
        program_id: PROGRAM,
        accounts: vec![Account { key: custody, lamports: 0 }, Account { key: OPENER, lamports: 99 }],
        coin_flip: blank_record(),
        coin_flip_account: 0,
        player: 1,
    };
    assert_eq!(new_coin_flip(&mut ctx, 3, 100), Err(ErrorCode::InsufficientFunds));
    assert_eq!(ctx.accounts[1].lamports, 99);
    assert!(!ctx.coin_flip.is_active);
}

#[test]
fn open_rejects_foreign_custody() {
    let (custody, _) = derive_game_address(&PROGRAM, &OPENER, 4).unwrap();
    let mut ctx = NewCoinFlip {
        program_id: PROGRAM,
        accounts: vec![Account { key: custody, lamports: 0 }, Account { key: OPENER, lamports: 100 }],
        coin_flip: blank_record(),
        coin_flip_account: 0,
        player: 1,
    };
    assert_eq!(new_coin_flip(&mut ctx, 3, 100), Err(ErrorCode::AddressMismatch));
    assert_eq!(ctx.accounts[1].lamports, 100);
}

#[test]
fn join_needs_funds() {
    let open = opened(100, 100, 0);
    let mut join = joining(&open, 99);
    assert_eq!(end_coin_flip(&mut join, 100, OPENER_WINS), Err(ErrorCode::InsufficientFunds));
    assert_eq!(join.accounts[2].lamports, 99);
    assert_eq!(join.accounts[0].lamports, 100);
}

#[test]
fn drained_custody_is_refused_and_rolled_back() {
    let open = opened(100, 100, 0);
    let mut join = joining(&open, 100);
    join.accounts[0].lamports = 50;
    assert_eq!(end_coin_flip(&mut join, 100, JOINER_WINS), Err(ErrorCode::NotEnoughLamports));
    assert_eq!(join.accounts[0].lamports, 50);
    assert_eq!(join.accounts[2].lamports, 100);
    assert!(join.coin_flip.is_active);
}

#[test]
fn winner_balance_overflow_is_refused() {
    let open = opened(100, 100, 0);
    let mut join = joining(&open, 100);
    join.accounts[1].lamports = u64::MAX - 150;
    assert_eq!(end_coin_flip(&mut join, 100, OPENER_WINS), Err(ErrorCode::ArithmeticOverflow));
    assert_eq!(join.accounts[0].lamports, 100);
    assert_eq!(join.accounts[2].lamports, 100);
}

#[test]
fn join_rejects_wrong_opener_account() {
    let open = opened(100, 100, 0);
    let mut join = joining(&open, 100);
    join.bet_starter = 2;
    assert_eq!(end_coin_flip(&mut join, 100, OPENER_WINS), Err(ErrorCode::AddressMismatch));
}

#[test]
fn join_rejects_tampered_record() {
    let open = opened(100, 100, 0);
    let mut join = joining(&open, 100);
    join.coin_flip.client_nonce = 4;
    assert_eq!(end_coin_flip(&mut join, 100, OPENER_WINS), Err(ErrorCode::AddressMismatch));
    assert_eq!(join.accounts[2].lamports, 100);
}

#[test]
fn counter_issues_consecutive_ids() {
    let mut counter = GameCounter::new();
    let mut ids = Vec::new();
    for _ in 0..5 {
        ids.push(counter.next_id().unwrap());
    }
    assert_eq!(ids, vec![1, 2, 3, 4, 5]);
    assert_eq!(counter.count, 5);
}

#[test]
fn counter_overflow() {
    let mut counter = GameCounter { count: u64::MAX };
    assert_eq!(counter.next_id(), Err(ErrorCode::CounterOverflow));
    assert_eq!(counter.count, u64::MAX);
    let mut last = GameCounter { count: u64::MAX - 1 };
    assert_eq!(last.next_id(), Ok(u64::MAX));
}

#[test]
fn resolution_values() {
    assert_eq!(resolution_seed(1_234_567_890, 100, 42), 1_234_568_032);
    assert_eq!(resolution_result(1_234_567_890, 100, 42), 0);
    assert_eq!(resolution_result(1_234_567_890, 100, 43), 1);
    assert_eq!(resolution_seed(i64::MAX, 1, 0), i64::MIN);
    assert_eq!(resolution_seed(0, u64::MAX, 0), -1);
    assert_eq!(resolution_result(-1, 0, 0), 1);
    assert_eq!(resolution_result(-3, 0, 1), 0);
    assert_eq!(resolution_result(i64::MAX, u64::MAX, 255), 1);
}

#[test]
fn nonce_bytes_little_endian() {
    assert_eq!(u64_le_bytes(0x0102), vec![2, 1, 0, 0, 0, 0, 0, 0]);
    assert_eq!(u64_le_bytes(u64::MAX), vec![255; 8]);
}

#[test]
fn seed_list_layout() {
    let seeds = game_seed_list(&OPENER, 7);
    assert_eq!(seeds.len(), 3);
    assert_eq!(seeds[0], b"coin_flip".to_vec());
    assert_eq!(seeds[1], vec![1u8; 32]);
    assert_eq!(seeds[2], 7u64.to_le_bytes().to_vec());
}

#[test]
fn derived_address_round_trip() {
    let (address, bump) = derive_game_address(&PROGRAM, &OPENER, 3).unwrap();
    assert_ne!(address, PROGRAM);
    assert_ne!(address, OPENER);
    assert_eq!(derive_game_address(&PROGRAM, &OPENER, 3).unwrap(), (address, bump));
    let (other, _) = derive_game_address(&PROGRAM, &OPENER, 4).unwrap();
    assert_ne!(address, other);
    assert_eq!(check_game_address(&PROGRAM, &OPENER, 3, bump, &address), Ok(()));
    assert_eq!(check_game_address(&PROGRAM, &OPENER, 4, bump, &address), Err(ErrorCode::AddressMismatch));
    assert_eq!(check_game_address(&PROGRAM, &JOINER, 3, bump, &address), Err(ErrorCode::AddressMismatch));
}

#[test]
fn deposit_and_payout_move_exact_amounts() {
    let mut accounts = vec![Account { key: OPENER, lamports: 50 }, Account { key: JOINER, lamports: 5 }];
    assert_eq!(deposit(&mut accounts, 0, 1, 20), Ok(()));
    assert_eq!((accounts[0].lamports, accounts[1].lamports), (30, 25));
    assert_eq!(deposit(&mut accounts, 0, 1, 31), Err(ErrorCode::InsufficientFunds));
    assert_eq!(payout(&mut accounts, 1, 0, 26), Err(ErrorCode::NotEnoughLamports));
    assert_eq!(payout(&mut accounts, 1, 0, 25), Ok(()));
    assert_eq!((accounts[0].lamports, accounts[1].lamports), (55, 0));
    assert_eq!(deposit(&mut accounts, 0, 0, 55), Ok(()));
    assert_eq!(accounts[0].lamports, 55);
    accounts[1].lamports = u64::MAX;
    assert_eq!(payout(&mut accounts, 0, 1, 1), Err(ErrorCode::ArithmeticOverflow));
    assert_eq!(accounts[0].lamports, 55);
}
