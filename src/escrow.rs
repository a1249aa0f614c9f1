use vstd::prelude::*;

use crate::types::{Account, ErrorCode};

verus! {

/// The accounts after `amount` moves from `from` to `to`. A move from an
/// account to itself leaves every balance as it was.
pub open spec fn moved(accounts: Seq<Account>, from: int, to: int, amount: u64) -> Seq<Account> {
    if from == to {
        accounts
    } else {
        accounts.update(
            from,
            Account { key: accounts[from].key, lamports: (accounts[from].lamports - amount) as u64 },
        ).update(to, Account { key: accounts[to].key, lamports: (accounts[to].lamports + amount) as u64 })
    }
}

/// What moving `amount` from `from` to `to` gives: `shortfall` where the
/// source holds too little, `ArithmeticOverflow` where the target's balance
/// would leave 64 bits, else the new accounts.
pub open spec fn move_outcome(
    accounts: Seq<Account>,
    from: int,
    to: int,
    amount: u64,
    shortfall: ErrorCode,
) -> Result<Seq<Account>, ErrorCode> {
    if accounts[from].lamports < amount {
        Err(shortfall)
    } else if from != to && accounts[to].lamports + amount > u64::MAX {
        Err(ErrorCode::ArithmeticOverflow)
    } else {
        Ok(moved(accounts, from, to, amount))
    }
}

/// The accounts after a deposit, or the error that rejects it.
pub open spec fn deposit_outcome(accounts: Seq<Account>, from: int, to: int, amount: u64) -> Result<Seq<Account>, ErrorCode> {
    move_outcome(accounts, from, to, amount, ErrorCode::InsufficientFunds)
}

/// The accounts after a payout, or the error that rejects it.
pub open spec fn payout_outcome(accounts: Seq<Account>, custody: int, winner: int, total: u64) -> Result<Seq<Account>, ErrorCode> {
    move_outcome(accounts, custody, winner, total, ErrorCode::NotEnoughLamports)
}

pub(crate) fn move_lamports(accounts: &mut Vec<Account>, from: usize, to: usize, amount: u64, shortfall: ErrorCode) -> (r: Result<(), ErrorCode>)
    requires
        from < old(accounts).len(),
        to < old(accounts).len(),
    ensures
        match move_outcome(old(accounts)@, from as int, to as int, amount, shortfall) {
            Ok(after) => r is Ok && final(accounts)@ == after,
            Err(e) => r == Err::<(), ErrorCode>(e) && final(accounts)@ == old(accounts)@,
        },
{
    let source = accounts[from];
    if source.lamports < amount {
        return Err(shortfall);
    }
    if from == to {
        return Ok(());
    }
    let target = accounts[to];
    let credited = match target.lamports.checked_add(amount) {
        Some(v) => v,
        None => return Err(ErrorCode::ArithmeticOverflow),
    };
    accounts.set(from, Account { key: source.key, lamports: source.lamports - amount });
    accounts.set(to, Account { key: target.key, lamports: credited });
    Ok(())
}

/// Moves `amount` from the paying party `from` into the custody account `to`.
/// Nothing changes on an error.
pub fn deposit(accounts: &mut Vec<Account>, from: usize, to: usize, amount: u64) -> (r: Result<(), ErrorCode>)
    requires
        from < old(accounts).len(),
        to < old(accounts).len(),
    ensures
        match deposit_outcome(old(accounts)@, from as int, to as int, amount) {
            Ok(after) => r is Ok && final(accounts)@ == after,
            Err(e) => r == Err::<(), ErrorCode>(e) && final(accounts)@ == old(accounts)@,
        },
{
    move_lamports(accounts, from, to, amount, ErrorCode::InsufficientFunds)
}

/// Moves the pooled `total` out of the custody account to the winner, after
/// checking that custody holds it. Nothing changes on an error.
pub fn payout(accounts: &mut Vec<Account>, custody: usize, winner: usize, total: u64) -> (r: Result<(), ErrorCode>)
    requires
        custody < old(accounts).len(),
        winner < old(accounts).len(),
    ensures
        match payout_outcome(old(accounts)@, custody as int, winner as int, total) {
            Ok(after) => r is Ok && final(accounts)@ == after,
            Err(e) => r == Err::<(), ErrorCode>(e) && final(accounts)@ == old(accounts)@,
        },
{
    move_lamports(accounts, custody, winner, total, ErrorCode::NotEnoughLamports)
}

} // verus!
