use vstd::prelude::*;

verus! {

/// The wallet's mutable view of its on-chain account: the spendable value
/// and the monotonically increasing counter (nonce) that protects signed
/// transactions against replay.
///
/// The engine never advances the counter by itself: the caller supplies
/// authoritative values observed on chain through [`AccountState::set_state`].
#[derive(Clone, Copy, Debug, PartialEq, Eq, Structural)]
pub struct AccountState {
    /// Current spendable value of the account.
    pub value: u64,
    /// Anti-replay counter to use for the next signed transaction.
    pub counter: u32,
}

impl AccountState {
    /// A fresh account with no value and a zero counter.
    pub fn new() -> (r: AccountState)
        ensures
            r.value == 0,
            r.counter == 0,
    {
        AccountState { value: 0, counter: 0 }
    }

    /// Unconditionally overwrite both fields with freshly fetched on-chain
    /// values. No history is retained and no monotonicity is checked here:
    /// the caller is responsible for supplying authoritative data.
    pub fn set_state(&mut self, value: u64, counter: u32)
        ensures
            final(self).value == value,
            final(self).counter == counter,
    {
        self.value = value;
        self.counter = counter;
    }
}

} // verus!
