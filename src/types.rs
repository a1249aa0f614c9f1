use vstd::prelude::*;

verus! {

/// A 32-byte account address.
#[derive(Clone, Copy, Debug)]
pub struct Key {
    pub bytes: [u8; 32],
}

impl View for Key {
    type V = Seq<u8>;

    open spec fn view(&self) -> Seq<u8> {
        self.bytes@
    }
}

impl Key {
    /// The all-zero address, which stands for "no party yet".
    pub fn default_key() -> (r: Key)
        ensures
            r@ == Seq::new(32, |i: int| 0u8),
    {
        let r = Key { bytes: [0u8; 32] };
        assert(r@ =~= Seq::new(32, |i: int| 0u8));
        r
    }

    /// Byte-wise comparison of two addresses.
    pub fn same_as(&self, other: &Key) -> (r: bool)
        ensures
            r == (self@ == other@),
    {
        let mut i: usize = 0;
        while i < 32
            invariant
                0 <= i <= 32,
                forall|j: int| 0 <= j < i ==> self@[j] == other@[j],
            decreases 32 - i,
        {
            if self.bytes[i] != other.bytes[i] {
                return false;
            }
            i = i + 1;
        }
        assert(self@ =~= other@);
        true
    }
}

impl PartialEq for Key {
    fn eq(&self, other: &Key) -> (r: bool) {
        self.same_as(other)
    }
}

impl vstd::std_specs::cmp::PartialEqSpecImpl for Key {
    open spec fn obeys_eq_spec() -> bool {
        true
    }

    open spec fn eq_spec(&self, other: &Key) -> bool {
        self@ == other@
    }
}

impl Eq for Key {
}

/// An account as the engine sees it: its address and its native-value balance.
#[derive(Clone, Copy, Debug)]
pub struct Account {
    pub key: Key,
    pub lamports: u64,
}

/// The clock values that the host ledger provides to a Join.
#[derive(Clone, Copy, Debug)]
pub struct ClockSnapshot {
    pub slot: u64,
    pub unix_timestamp: i64,
}

#[derive(Clone, Copy, Debug, PartialEq, Eq, Structural)]
pub enum ErrorCode {
    /// Join on a record that is no longer active.
    GameAlreadyFinished,
    /// The joining stake is outside one percent of the opening stake.
    WagerOutOfRange,
    /// The custody account holds less than the pooled total at payout.
    NotEnoughLamports,
    /// The paying party holds less than the amount to escrow.
    InsufficientFunds,
    /// A checked multiplication or addition would leave the 64-bit range.
    ArithmeticOverflow,
    /// The game counter cannot issue another identifier.
    CounterOverflow,
    /// An account does not match the address the record derives or names.
    AddressMismatch,
    /// The identifier given to a Join is not the record's.
    InvalidGameId,
}

/// The persisted state of one game.
#[derive(Clone, Copy, Debug)]
pub struct CoinFlip {
    pub client_nonce: u64,
    pub bet_starter: Key,
    pub starting_wager: u64,
    pub bet_ender: Key,
    pub ending_wager: u64,
    pub winner: Key,
    pub loser: Key,
    pub is_active: bool,
    pub bump: u8,
}

impl CoinFlip {
    /// Bytes of the record's stored fields.
    pub const SPACE: usize = 154;

    /// The stake held for the game once it has been joined.
    pub open spec fn pooled_total(&self) -> int {
        self.starting_wager + self.ending_wager
    }
}

} // verus!
