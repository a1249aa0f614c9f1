use vstd::prelude::*;

use crate::address::{
    check_game_address, check_sequenced_game_address, derive_game_address, derive_sequenced_game_address,
    found_program_address, game_address_valid, game_seeds, sequence_address_valid, sequence_seeds,
};
use crate::counter::{issue_step, GameCounter};
use crate::escrow::{deposit, payout, deposit_outcome, payout_outcome, move_lamports, moved};
use crate::rules::{bounds_fit, max_wager, min_wager, resolution_result, resolution_result_spec, wager_bounds};
use crate::types::{Account, ClockSnapshot, CoinFlip, ErrorCode, Key};

verus! {

/// Whether `k` is the all-zero address that stands for "no party yet".
pub open spec fn is_default_key(k: Key) -> bool {
    k@ == Seq::new(32, |i: int| 0u8)
}

/// The accounts and the program that an Open touches: `player` signs and
/// pays, `coin_flip_account` is the custody address of the new record.
pub struct NewCoinFlip {
    pub program_id: Key,
    pub accounts: Vec<Account>,
    pub coin_flip: CoinFlip,
    pub coin_flip_account: usize,
    pub player: usize,
}

impl NewCoinFlip {
    /// Both positions name accounts, and custody is not the signer.
    pub open spec fn wf(&self) -> bool {
        &&& self.coin_flip_account < self.accounts.len()
        &&& self.player < self.accounts.len()
        &&& self.coin_flip_account != self.player
    }
}

/// The record that an Open writes.
pub open spec fn opened_record(r: CoinFlip, opener: Key, client_nonce: u64, wager: u64, bump: u8) -> bool {
    &&& r.client_nonce == client_nonce
    &&& r.bet_starter@ == opener@
    &&& r.starting_wager == wager
    &&& is_default_key(r.bet_ender)
    &&& r.ending_wager == 0
    &&& is_default_key(r.winner)
    &&& is_default_key(r.loser)
    &&& r.is_active
    &&& r.bump == bump
}

/// What an Open gives: the accounts after the opener's deposit and the bump
/// of the record's address, or the error that rejects it.
pub open spec fn open_outcome(
    program_id: Seq<u8>,
    accounts: Seq<Account>,
    custody: int,
    player: int,
    client_nonce: u64,
    wager: u64,
) -> Result<(Seq<Account>, u8), ErrorCode> {
    match found_program_address(game_seeds(accounts[player].key@, client_nonce), program_id) {
        None => Err(ErrorCode::AddressMismatch),
        Some((address, bump)) => {
            if address != accounts[custody].key@ {
                Err(ErrorCode::AddressMismatch)
            } else {
                match deposit_outcome(accounts, player, custody, wager) {
                    Err(e) => Err(e),
                    Ok(after) => Ok((after, bump)),
                }
            }
        },
    }
}

/// Opens a game: checks that the custody account is the address derived
/// from the signer and `client_nonce`, escrows `wager` from the signer, and
/// writes an active record. Any stake is accepted, zero as well. On an
/// error nothing changes.
pub fn new_coin_flip(ctx: &mut NewCoinFlip, client_nonce: u64, wager: u64) -> (r: Result<(), ErrorCode>)
    requires
        old(ctx).wf(),
    ensures
        final(ctx).program_id == old(ctx).program_id,
        final(ctx).coin_flip_account == old(ctx).coin_flip_account,
        final(ctx).player == old(ctx).player,
        match open_outcome(
            old(ctx).program_id@,
            old(ctx).accounts@,
            old(ctx).coin_flip_account as int,
            old(ctx).player as int,
            client_nonce,
            wager,
        ) {
            Ok((after, bump)) => {
                &&& r is Ok
                &&& final(ctx).accounts@ == after
                &&& opened_record(
                    final(ctx).coin_flip,
                    old(ctx).accounts@[old(ctx).player as int].key,
                    client_nonce,
                    wager,
                    bump,
                )
            },
            Err(e) => {
                &&& r == Err::<(), ErrorCode>(e)
                &&& final(ctx).accounts@ == old(ctx).accounts@
                &&& final(ctx).coin_flip == old(ctx).coin_flip
            },
        },
{
    let custody = ctx.coin_flip_account;
    let player = ctx.player;
    let player_key = ctx.accounts[player].key;
    let (address, bump) = match derive_game_address(&ctx.program_id, &player_key, client_nonce) {
        Some(found) => found,
        None => return Err(ErrorCode::AddressMismatch),
    };
    if !address.same_as(&ctx.accounts[custody].key) {
        return Err(ErrorCode::AddressMismatch);
    }
    match deposit(&mut ctx.accounts, player, custody, wager) {
        Ok(()) => {},
        Err(e) => return Err(e),
    }
    ctx.coin_flip = CoinFlip {
        client_nonce,
        bet_starter: player_key,
        starting_wager: wager,
        bet_ender: Key::default_key(),
        ending_wager: 0,
        winner: Key::default_key(),
        loser: Key::default_key(),
        is_active: true,
        bump,
    };
    Ok(())
}

/// The accounts and the program that a Join touches: `player` is the joiner,
/// who signs and pays; `bet_starter` is the opener's account, paid if the
/// opener wins; `coin_flip_account` holds the record's custody.
pub struct EndCoinFlip {
    pub program_id: Key,
    pub accounts: Vec<Account>,
    pub coin_flip: CoinFlip,
    pub coin_flip_account: usize,
    pub player: usize,
    pub bet_starter: usize,
}

impl EndCoinFlip {
    /// All positions name accounts, and custody is neither party.
    pub open spec fn wf(&self) -> bool {
        &&& self.coin_flip_account < self.accounts.len()
        &&& self.player < self.accounts.len()
        &&& self.bet_starter < self.accounts.len()
        &&& self.coin_flip_account != self.player
        &&& self.coin_flip_account != self.bet_starter
    }
}

/// The account position paid by a flip with result `flip`.
pub open spec fn winner_position(flip: int, bet_starter: int, player: int) -> int {
    if flip == 0 {
        bet_starter
    } else {
        player
    }
}

/// The record once `joiner` has joined with `wager` and the flip gave `flip`.
pub open spec fn resolved_record(game: CoinFlip, joiner: Key, wager: u64, flip: int) -> CoinFlip {
    CoinFlip {
        bet_ender: joiner,
        ending_wager: wager,
        winner: if flip == 0 { game.bet_starter } else { joiner },
        loser: if flip == 0 { joiner } else { game.bet_starter },
        is_active: false,
        ..game
    }
}

/// What settling an active record gives, once its custody address has been
/// checked: the accounts after the joiner's deposit and the payout, and the
/// resolved record; or the first error that rejects it.
pub open spec fn settle_outcome(
    accounts: Seq<Account>,
    game: CoinFlip,
    custody: int,
    player: int,
    bet_starter: int,
    wager: u64,
    clock: ClockSnapshot,
) -> Result<(Seq<Account>, CoinFlip), ErrorCode> {
    if !game.is_active {
        Err(ErrorCode::GameAlreadyFinished)
    } else if !bounds_fit(game.starting_wager as int) {
        Err(ErrorCode::ArithmeticOverflow)
    } else if wager < min_wager(game.starting_wager as int) || wager > max_wager(game.starting_wager as int) {
        Err(ErrorCode::WagerOutOfRange)
    } else if accounts[bet_starter].key@ != game.bet_starter@ {
        Err(ErrorCode::AddressMismatch)
    } else {
        match deposit_outcome(accounts, player, custody, wager) {
            Err(e) => Err(e),
            Ok(mid) => {
                let joiner = accounts[player].key;
                let flip = resolution_result_spec(clock.unix_timestamp, clock.slot, joiner@[0]);
                let total = (game.starting_wager + wager) as u64;
                match payout_outcome(mid, custody, winner_position(flip, bet_starter, player), total) {
                    Err(e) => Err(e),
                    Ok(after) => Ok((after, resolved_record(game, joiner, wager, flip))),
                }
            },
        }
    }
}

/// What a Join gives: `AddressMismatch` where the custody account is not the
/// record's derived address, else what settling gives.
pub open spec fn join_outcome(
    program_id: Seq<u8>,
    accounts: Seq<Account>,
    game: CoinFlip,
    custody: int,
    player: int,
    bet_starter: int,
    wager: u64,
    clock: ClockSnapshot,
) -> Result<(Seq<Account>, CoinFlip), ErrorCode> {
    if !game_address_valid(program_id, game.bet_starter@, game.client_nonce, game.bump, accounts[custody].key@) {
        Err(ErrorCode::AddressMismatch)
    } else {
        settle_outcome(accounts, game, custody, player, bet_starter, wager, clock)
    }
}

impl EndCoinFlip {
    pub open spec fn outcome(&self, wager: u64, clock: ClockSnapshot) -> Result<(Seq<Account>, CoinFlip), ErrorCode> {
        join_outcome(
            self.program_id@,
            self.accounts@,
            self.coin_flip,
            self.coin_flip_account as int,
            self.player as int,
            self.bet_starter as int,
            wager,
            clock,
        )
    }
}

/// Joins and settles a game in one step: validates the record's address,
/// that it is active, and that `wager` is within one percent of the opening
/// stake; escrows `wager` from the joiner; flips with `clock`; pays the
/// pooled total to the winner and closes the record. On an error nothing
/// changes.
pub fn end_coin_flip(ctx: &mut EndCoinFlip, wager: u64, clock: ClockSnapshot) -> (r: Result<(), ErrorCode>)
    requires
        old(ctx).wf(),
    ensures
        final(ctx).program_id == old(ctx).program_id,
        final(ctx).coin_flip_account == old(ctx).coin_flip_account,
        final(ctx).player == old(ctx).player,
        final(ctx).bet_starter == old(ctx).bet_starter,
        match old(ctx).outcome(wager, clock) {
            Ok((after, game)) => {
                &&& r is Ok
                &&& final(ctx).accounts@ == after
                &&& final(ctx).coin_flip == game
            },
            Err(e) => {
                &&& r == Err::<(), ErrorCode>(e)
                &&& final(ctx).accounts@ == old(ctx).accounts@
                &&& final(ctx).coin_flip == old(ctx).coin_flip
            },
        },
{
    let custody_key = ctx.accounts[ctx.coin_flip_account].key;
    let game = ctx.coin_flip;
    match check_game_address(&ctx.program_id, &game.bet_starter, game.client_nonce, game.bump, &custody_key) {
        Ok(()) => {},
        Err(e) => return Err(e),
    }
    settle(ctx, wager, clock)
}

/// Settles an active record whose custody address has been checked: the
/// steps of a Join after the address check. On an error nothing changes.
fn settle(ctx: &mut EndCoinFlip, wager: u64, clock: ClockSnapshot) -> (r: Result<(), ErrorCode>)
    requires
        old(ctx).wf(),
    ensures
        final(ctx).program_id == old(ctx).program_id,
        final(ctx).coin_flip_account == old(ctx).coin_flip_account,
        final(ctx).player == old(ctx).player,
        final(ctx).bet_starter == old(ctx).bet_starter,
        match settle_outcome(
            old(ctx).accounts@,
            old(ctx).coin_flip,
            old(ctx).coin_flip_account as int,
            old(ctx).player as int,
            old(ctx).bet_starter as int,
            wager,
            clock,
        ) {
            Ok((after, game)) => {
                &&& r is Ok
                &&& final(ctx).accounts@ == after
                &&& final(ctx).coin_flip == game
            },
            Err(e) => {
                &&& r == Err::<(), ErrorCode>(e)
                &&& final(ctx).accounts@ == old(ctx).accounts@
                &&& final(ctx).coin_flip == old(ctx).coin_flip
            },
        },
{
    let custody = ctx.coin_flip_account;
    let player = ctx.player;
    let starter = ctx.bet_starter;
    let game = ctx.coin_flip;
    if !game.is_active {
        return Err(ErrorCode::GameAlreadyFinished);
    }
    let (low, high) = match wager_bounds(game.starting_wager) {
        Ok(b) => b,
        Err(e) => return Err(e),
    };
    if wager < low || wager > high {
        return Err(ErrorCode::WagerOutOfRange);
    }
    if !ctx.accounts[starter].key.same_as(&game.bet_starter) {
        return Err(ErrorCode::AddressMismatch);
    }
    let ghost before = ctx.accounts@;
    match deposit(&mut ctx.accounts, player, custody, wager) {
        Ok(()) => {},
        Err(e) => return Err(e),
    }
    let joiner = ctx.accounts[player].key;
    assert(joiner == before[player as int].key);
    let flip = resolution_result(clock.unix_timestamp, clock.slot, joiner.bytes[0]);
    let winner = if flip == 0 { starter } else { player };
    assert(game.starting_wager + wager <= u64::MAX) by (nonlinear_arith)
        requires
            game.starting_wager * 101 <= u64::MAX,
            wager <= game.starting_wager * 101 / 100,
    ;
    let total = game.starting_wager + wager;
    let ghost mid = ctx.accounts@;
    match payout(&mut ctx.accounts, custody, winner, total) {
        Ok(()) => {},
        Err(e) => {
            // Custody received `wager` above, so handing it back succeeds and
            // restores every balance.
            let refund = move_lamports(&mut ctx.accounts, custody, player, wager, ErrorCode::NotEnoughLamports);
            assert(refund is Ok);
            assert(moved(mid, custody as int, player as int, wager) =~= before);
            return Err(e);
        },
    }
    ctx.coin_flip.bet_ender = joiner;
    ctx.coin_flip.ending_wager = wager;
    if flip == 0 {
        ctx.coin_flip.winner = game.bet_starter;
        ctx.coin_flip.loser = joiner;
    } else {
        ctx.coin_flip.winner = joiner;
        ctx.coin_flip.loser = game.bet_starter;
    }
    ctx.coin_flip.is_active = false;
    Ok(())
}


/// What an Open numbered by the game counter gives: the accounts after the
/// opener's deposit, the identifier issued and the bump of the record's
/// address; or the first error that rejects it.
pub open spec fn sequenced_open_outcome(
    program_id: Seq<u8>,
    accounts: Seq<Account>,
    custody: int,
    player: int,
    count: u64,
    wager: u64,
) -> Result<(Seq<Account>, u64, u8), ErrorCode> {
    if count == u64::MAX {
        Err(ErrorCode::CounterOverflow)
    } else {
        let id = (count + 1) as u64;
        match found_program_address(sequence_seeds(id), program_id) {
            None => Err(ErrorCode::AddressMismatch),
            Some((address, bump)) => {
                if address != accounts[custody].key@ {
                    Err(ErrorCode::AddressMismatch)
                } else {
                    match deposit_outcome(accounts, player, custody, wager) {
                        Err(e) => Err(e),
                        Ok(after) => Ok((after, id, bump)),
                    }
                }
            },
        }
    }
}

/// Opens a game numbered by the shared counter: issues the next identifier,
/// checks that the custody account is the address derived from it, escrows
/// `wager` from the signer and writes an active record that stores the
/// identifier. Returns the identifier. On an error nothing changes, and
/// the counter keeps its value.
pub fn new_sequenced_coin_flip(ctx: &mut NewCoinFlip, counter: &mut GameCounter, wager: u64) -> (r: Result<u64, ErrorCode>)
    requires
        old(ctx).wf(),
    ensures
        final(ctx).program_id == old(ctx).program_id,
        final(ctx).coin_flip_account == old(ctx).coin_flip_account,
        final(ctx).player == old(ctx).player,
        match sequenced_open_outcome(
            old(ctx).program_id@,
            old(ctx).accounts@,
            old(ctx).coin_flip_account as int,
            old(ctx).player as int,
            old(counter).count,
            wager,
        ) {
            Ok((after, id, bump)) => {
                &&& r == Ok::<u64, ErrorCode>(id)
                &&& issue_step(old(counter).count, final(counter).count, id)
                &&& final(ctx).accounts@ == after
                &&& opened_record(final(ctx).coin_flip, old(ctx).accounts@[old(ctx).player as int].key, id, wager, bump)
            },
            Err(e) => {
                &&& r == Err::<u64, ErrorCode>(e)
                &&& final(counter).count == old(counter).count
                &&& final(ctx).accounts@ == old(ctx).accounts@
                &&& final(ctx).coin_flip == old(ctx).coin_flip
            },
        },
{
    let mut issued = *counter;
    let id = match issued.next_id() {
        Ok(v) => v,
        Err(e) => return Err(e),
    };
    let custody = ctx.coin_flip_account;
    let player = ctx.player;
    let player_key = ctx.accounts[player].key;
    let (address, bump) = match derive_sequenced_game_address(&ctx.program_id, id) {
        Some(found) => found,
        None => return Err(ErrorCode::AddressMismatch),
    };
    if !address.same_as(&ctx.accounts[custody].key) {
        return Err(ErrorCode::AddressMismatch);
    }
    match deposit(&mut ctx.accounts, player, custody, wager) {
        Ok(()) => {},
        Err(e) => return Err(e),
    }
    ctx.coin_flip = CoinFlip {
        client_nonce: id,
        bet_starter: player_key,
        starting_wager: wager,
        bet_ender: Key::default_key(),
        ending_wager: 0,
        winner: Key::default_key(),
        loser: Key::default_key(),
        is_active: true,
        bump,
    };
    *counter = issued;
    Ok(id)
}

/// What a Join on a numbered record gives: `AddressMismatch` where the
/// custody account is not the address derived from `game_id`,
/// `InvalidGameId` where the record stores another identifier, else what
/// settling gives.
pub open spec fn sequenced_join_outcome(
    program_id: Seq<u8>,
    accounts: Seq<Account>,
    game: CoinFlip,
    custody: int,
    player: int,
    bet_starter: int,
    game_id: u64,
    wager: u64,
    clock: ClockSnapshot,
) -> Result<(Seq<Account>, CoinFlip), ErrorCode> {
    if !sequence_address_valid(program_id, game_id, game.bump, accounts[custody].key@) {
        Err(ErrorCode::AddressMismatch)
    } else if game.client_nonce != game_id {
        Err(ErrorCode::InvalidGameId)
    } else {
        settle_outcome(accounts, game, custody, player, bet_starter, wager, clock)
    }
}

/// Joins and settles the game numbered `game_id`, as [`end_coin_flip`] does
/// for a nonce-addressed one. On an error nothing changes.
pub fn end_sequenced_coin_flip(ctx: &mut EndCoinFlip, game_id: u64, wager: u64, clock: ClockSnapshot) -> (r: Result<(), ErrorCode>)
    requires
        old(ctx).wf(),
    ensures
        final(ctx).program_id == old(ctx).program_id,
        final(ctx).coin_flip_account == old(ctx).coin_flip_account,
        final(ctx).player == old(ctx).player,
        final(ctx).bet_starter == old(ctx).bet_starter,
        match sequenced_join_outcome(
            old(ctx).program_id@,
            old(ctx).accounts@,
            old(ctx).coin_flip,
            old(ctx).coin_flip_account as int,
            old(ctx).player as int,
            old(ctx).bet_starter as int,
            game_id,
            wager,
            clock,
        ) {
            Ok((after, game)) => {
                &&& r is Ok
                &&& final(ctx).accounts@ == after
                &&& final(ctx).coin_flip == game
            },
            Err(e) => {
                &&& r == Err::<(), ErrorCode>(e)
                &&& final(ctx).accounts@ == old(ctx).accounts@
                &&& final(ctx).coin_flip == old(ctx).coin_flip
            },
        },
{
    let custody_key = ctx.accounts[ctx.coin_flip_account].key;
    match check_sequenced_game_address(&ctx.program_id, game_id, ctx.coin_flip.bump, &custody_key) {
        Ok(()) => {},
        Err(e) => return Err(e),
    }
    if ctx.coin_flip.client_nonce != game_id {
        return Err(ErrorCode::InvalidGameId);
    }
    settle(ctx, wager, clock)
}

/// A settled Join pools exactly the two stakes, takes the whole pool back
/// out of custody, pays it to the winner, and closes the record with one
/// party as winner and the other as loser.
pub proof fn lemma_join_settles_pool(ctx: EndCoinFlip, wager: u64, clock: ClockSnapshot)
    requires
        ctx.wf(),
        ctx.outcome(wager, clock) is Ok,
    ensures
        ({
            let (after, game) = ctx.outcome(wager, clock)->Ok_0;
            let before = ctx.accounts@;
            let custody = ctx.coin_flip_account as int;
            let player = ctx.player as int;
            let opener = ctx.coin_flip.bet_starter;
            let joiner = before[player].key;
            let flip = resolution_result_spec(clock.unix_timestamp, clock.slot, joiner@[0]);
            let paid = winner_position(flip, ctx.bet_starter as int, player);
            &&& game.ending_wager == wager
            &&& game.pooled_total() == ctx.coin_flip.starting_wager + wager
            &&& after[custody].lamports + ctx.coin_flip.starting_wager == before[custody].lamports
            &&& after[paid].lamports == before[paid].lamports + game.pooled_total() - (if paid == player {
                wager as int
            } else {
                0
            })
            &&& !game.is_active
            &&& after[paid].key@ == game.winner@
            &&& ((game.winner@ == opener@ && game.loser@ == joiner@) || (game.winner@ == joiner@
                && game.loser@ == opener@))
        }),
{
}

/// A record that one Join has settled refuses every later Join with
/// `GameAlreadyFinished`.
pub proof fn lemma_second_join_fails(
    ctx: EndCoinFlip,
    wager: u64,
    clock: ClockSnapshot,
    next_wager: u64,
    next_clock: ClockSnapshot,
)
    requires
        ctx.wf(),
        ctx.outcome(wager, clock) is Ok,
    ensures
        ({
            let (after, game) = ctx.outcome(wager, clock)->Ok_0;
            join_outcome(
                ctx.program_id@,
                after,
                game,
                ctx.coin_flip_account as int,
                ctx.player as int,
                ctx.bet_starter as int,
                next_wager,
                next_clock,
            ) == Err::<(Seq<Account>, CoinFlip), ErrorCode>(ErrorCode::GameAlreadyFinished)
        }),
{
}

} // verus!
