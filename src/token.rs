use vstd::prelude::*;

use crate::address::Address;
use crate::amount::{word_base, U256};
use crate::serc20::{Event, SERC20, SERC20Details, SERC20Error};

verus! {

/// The configuration of the sample token.
pub struct TestTokenDetails;

impl SERC20Details for TestTokenDetails {
    const NAME: &'static str = "Test Token";
    const SYMBOL: &'static str = "TTS";
    const DECIMALS: u8 = 18;
}

/// The sample token: a ledger whose mint and burn anyone may call.
pub struct TestToken {
    pub test_token: SERC20<TestTokenDetails>,
}

impl TestToken {
    pub fn new() -> (r: TestToken)
        ensures
            r.test_token.wf(),
            r.test_token.supply() == 0,
            forall|a: Address| #[trigger] r.test_token.balance(a) == 0,
    {
        TestToken { test_token: SERC20::new() }
    }

    /// Creates `value` units for `address`; the new total supply must stay below 2^256.
    pub fn mint(&mut self, address: Address, value: U256, log: &mut Vec<Event>) -> (r: Result<bool, SERC20Error>)
        requires
            old(self).test_token.wf(),
            old(self).test_token.supply() + value@ < word_base(),
        ensures
            r == Ok::<bool, SERC20Error>(true),
            old(self).test_token.minted(&final(self).test_token, address, value@),
            final(log)@ == old(log)@.push(Event::Transfer { from: Address::null(), to: address, amount: value }),
    {
        self.test_token.mint(address, value, log);
        Ok(true)
    }

    /// Destroys `value` units of `address`, or fails with nothing changed when it holds less.
    pub fn burn(&mut self, address: Address, value: U256, log: &mut Vec<Event>) -> (r: Result<bool, SERC20Error>)
        requires
            old(self).test_token.wf(),
        ensures
            r is Err <==> old(self).test_token.balance(address) < value@,
            r matches Err(e) ==> e.is_insufficient_balance(address, old(self).test_token.balance(address), value)
                && *final(self) == *old(self) && final(log)@ == old(log)@,
            r is Ok ==> r == Ok::<bool, SERC20Error>(true)
                && old(self).test_token.burnt(&final(self).test_token, address, value@)
                && final(log)@ == old(log)@.push(Event::Transfer { from: address, to: Address::null(), amount: value }),
    {
        self.test_token.burn(address, value, log)?;
        Ok(true)
    }
}

} // verus!
