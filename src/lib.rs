//! Settlement engine for a two-party coin-flip wager: an opener escrows a
//! stake in a derived custody account, a joiner matches it within one percent,
//! and the pooled stake is paid to the winner in the same atomic step.

pub mod address;
pub mod counter;
pub mod escrow;
pub mod game;
pub mod rules;
pub mod types;

pub use address::{
    check_game_address, check_sequenced_game_address, derive_game_address,
    derive_sequenced_game_address, game_seed_list, sequence_seed_list, u64_le_bytes,
};
pub use counter::GameCounter;
pub use escrow::{deposit, payout};
pub use game::{
    end_coin_flip, end_sequenced_coin_flip, new_coin_flip, new_sequenced_coin_flip, EndCoinFlip,
    NewCoinFlip,
};
pub use rules::{resolution_result, resolution_seed, wager_bounds};
pub use types::{Account, ClockSnapshot, CoinFlip, ErrorCode, Key};
