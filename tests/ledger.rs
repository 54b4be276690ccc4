use serc20::address::Address;
use serc20::amount::U256;
use serc20::serc20::{Event, InsufficientAllowance, InsufficientBalance, SERC20Error, SERC20};
use serc20::token::{TestToken, TestTokenDetails};

fn addr(n: u128) -> Address {
    Address::new(0, n)
}

fn amt(n: u128) -> U256 {
    U256::from_u128(n)
}

fn balance(t: &SERC20<TestTokenDetails>, a: Address) -> U256 {
    t.balance_of(a).ok().unwrap()
}

fn allowance(t: &SERC20<TestTokenDetails>, o: Address, s: Address) -> U256 {
    t.allowance(o, s).ok().unwrap()
}

fn funded(a: Address, n: u128) -> (SERC20<TestTokenDetails>, Vec<Event>) {
    let mut t: SERC20<TestTokenDetails> = SERC20::new();
    let mut log = Vec::new();
    t.mint(a, amt(n), &mut log);
    log.clear();
    (t, log)
}

#[test]
fn metadata_of_test_token() {
    assert_eq!(SERC20::<TestTokenDetails>::name().ok().unwrap(), "Test Token");
    assert_eq!(SERC20::<TestTokenDetails>::symbol().ok().unwrap(), "TTS");
    assert_eq!(SERC20::<TestTokenDetails>::decimals().ok().unwrap(), 18);
}

#[test]
fn new_ledger_is_empty() {
    let t: SERC20<TestTokenDetails> = SERC20::new();
    assert_eq!(t.total_supply(), U256::zero());
    assert_eq!(balance(&t, addr(1)), U256::zero());
    assert_eq!(allowance(&t, addr(1), addr(2)), U256::zero());
}

#[test]
fn transfer_with_insufficient_balance_fails() {
    let (a, b) = (addr(1), addr(2));
    let (mut t, mut log) = funded(a, 10);
    let r = t.transfer(a, b, amt(11), &mut log);
    assert_eq!(
        r,
        Err(SERC20Error::InsufficientBalance(InsufficientBalance { from: a, have: amt(10), want: amt(11) }))
    );
    assert_eq!(balance(&t, a), amt(10));
    assert_eq!(balance(&t, b), amt(0));
    assert_eq!(t.total_supply(), amt(10));
    assert!(log.is_empty());
}

#[test]
fn transfer_of_whole_balance() {
    let (a, b) = (addr(1), addr(2));
    let (mut t, mut log) = funded(a, 75);
    t.mint(b, amt(5), &mut log);
    log.clear();
    assert_eq!(t.transfer(a, b, amt(75), &mut log), Ok(true));
    assert_eq!(balance(&t, a), amt(0));
    assert_eq!(balance(&t, b), amt(80));
    assert_eq!(t.total_supply(), amt(80));
    assert_eq!(log, vec![Event::Transfer { from: a, to: b, amount: amt(75) }]);
}

#[test]
fn approve_then_transfer_from() {
    let (a, b, c) = (addr(1), addr(2), addr(3));
    let (mut t, mut log) = funded(a, 200);
    assert_eq!(t.approve(a, b, amt(100), &mut log), Ok(true));
    assert_eq!(t.transfer_from(b, a, c, amt(60), &mut log), Ok(true));
    assert_eq!(allowance(&t, a, b), amt(40));
    assert_eq!(balance(&t, a), amt(140));
    assert_eq!(balance(&t, c), amt(60));
    assert_eq!(
        log,
        vec![
            Event::Approval { owner: a, spender: b, value: amt(100) },
            Event::Transfer { from: a, to: c, amount: amt(60) },
        ]
    );
}

#[test]
fn transfer_from_exceeding_allowance() {
    let (a, b, c) = (addr(1), addr(2), addr(3));
    let (mut t, mut log) = funded(a, 200);
    t.approve(a, b, amt(50), &mut log).ok().unwrap();
    let r = t.transfer_from(b, a, c, amt(51), &mut log);
    assert_eq!(
        r,
        Err(SERC20Error::InsufficientAllowance(InsufficientAllowance {
            owner: a,
            spender: b,
            have: amt(50),
            want: amt(51),
        }))
    );
    assert_eq!(allowance(&t, a, b), amt(50));
    assert_eq!(balance(&t, a), amt(200));
    assert_eq!(balance(&t, c), amt(0));
    assert_eq!(log.len(), 1);
}

#[test]
fn transfer_from_with_short_balance_keeps_allowance() {
    let (a, b, c) = (addr(1), addr(2), addr(3));
    let (mut t, mut log) = funded(a, 30);
    t.approve(a, b, amt(100), &mut log).ok().unwrap();
    let r = t.transfer_from(b, a, c, amt(60), &mut log);
    assert_eq!(
        r,
        Err(SERC20Error::InsufficientBalance(InsufficientBalance { from: a, have: amt(30), want: amt(60) }))
    );
    assert_eq!(allowance(&t, a, b), amt(100));
    assert_eq!(balance(&t, a), amt(30));
    assert_eq!(balance(&t, c), amt(0));
    assert_eq!(log.len(), 1);
}

#[test]
fn approve_replaces_earlier_grant() {
    let (a, b) = (addr(1), addr(2));
    let mut t: SERC20<TestTokenDetails> = SERC20::new();
    let mut log = Vec::new();
    t.approve(a, b, amt(100), &mut log).ok().unwrap();
    t.approve(a, b, amt(7), &mut log).ok().unwrap();
    assert_eq!(allowance(&t, a, b), amt(7));
    assert_eq!(allowance(&t, b, a), amt(0));
    assert_eq!(log[1], Event::Approval { owner: a, spender: b, value: amt(7) });
}

#[test]
fn mint_raises_balance_and_supply() {
    let x = addr(9);
    let (mut t, mut log) = funded(addr(1), 5);
    t.mint(x, amt(1000), &mut log);
    assert_eq!(balance(&t, x), amt(1000));
    assert_eq!(t.total_supply(), amt(1005));
    assert_eq!(log, vec![Event::Transfer { from: Address::zero(), to: x, amount: amt(1000) }]);
}

#[test]
fn burn_with_insufficient_balance_fails() {
    let x = addr(4);
    let (mut t, mut log) = funded(x, 10);
    let r = t.burn(x, amt(11), &mut log);
    assert_eq!(
        r,
        Err(SERC20Error::InsufficientBalance(InsufficientBalance { from: x, have: amt(10), want: amt(11) }))
    );
    assert_eq!(t.total_supply(), amt(10));
    assert_eq!(balance(&t, x), amt(10));
    assert!(log.is_empty());
}

#[test]
fn burn_lowers_balance_and_supply() {
    let x = addr(4);
    let (mut t, mut log) = funded(x, 10);
    assert_eq!(t.burn(x, amt(4), &mut log), Ok(()));
    assert_eq!(balance(&t, x), amt(6));
    assert_eq!(t.total_supply(), amt(6));
    assert_eq!(log, vec![Event::Transfer { from: x, to: Address::zero(), amount: amt(4) }]);
}

#[test]
fn mint_then_burn_round_trip() {
    let x = addr(4);
    let (mut t, mut log) = funded(x, 33);
    t.mint(x, amt(500), &mut log);
    assert_eq!(t.burn(x, amt(500), &mut log), Ok(()));
    assert_eq!(balance(&t, x), amt(33));
    assert_eq!(t.total_supply(), amt(33));
}

#[test]
fn self_transfer_keeps_balance_and_emits() {
    let a = addr(1);
    let (mut t, mut log) = funded(a, 50);
    assert_eq!(t.transfer(a, a, amt(20), &mut log), Ok(true));
    assert_eq!(balance(&t, a), amt(50));
    assert_eq!(t.total_supply(), amt(50));
    assert_eq!(log, vec![Event::Transfer { from: a, to: a, amount: amt(20) }]);
}

#[test]
fn supply_equals_sum_of_balances() {
    let (a, b, c) = (addr(1), addr(2), Address::new(7, 3));
    let (mut t, mut log) = funded(a, 100);
    t.mint(b, amt(40), &mut log);
    t.transfer(a, c, amt(30), &mut log).ok().unwrap();
    t.approve(b, a, amt(25), &mut log).ok().unwrap();
    t.transfer_from(a, b, c, amt(25), &mut log).ok().unwrap();
    t.burn(c, amt(10), &mut log).ok().unwrap();
    let sum = balance(&t, a).add(&balance(&t, b)).add(&balance(&t, c));
    assert_eq!(sum, t.total_supply());
    assert_eq!(t.total_supply(), amt(130));
    assert_eq!(balance(&t, c), amt(45));
}

#[test]
fn test_token_mint_and_burn() {
    let x = addr(8);
    let mut token = TestToken::new();
    let mut log = Vec::new();
    assert_eq!(token.mint(x, amt(12), &mut log), Ok(true));
    assert_eq!(token.burn(x, amt(5), &mut log), Ok(true));
    assert_eq!(
        token.burn(x, amt(8), &mut log),
        Err(SERC20Error::InsufficientBalance(InsufficientBalance { from: x, have: amt(7), want: amt(8) }))
    );
    assert_eq!(token.test_token.balance_of(x).ok().unwrap(), amt(7));
    assert_eq!(token.test_token.total_supply(), amt(7));
    assert_eq!(log.len(), 2);
}

#[test]
fn amounts_above_128_bits() {
    let x = addr(5);
    let big = U256::from_halves(0, u128::MAX);
    let (mut t, mut log) = funded(x, u128::MAX);
    t.mint(x, amt(1), &mut log);
    assert_eq!(balance(&t, x), U256::from_halves(1, 0));
    assert!(big.lt(&t.total_supply()));
    assert_eq!(t.burn(x, amt(2), &mut log), Ok(()));
    assert_eq!(balance(&t, x), U256::from_halves(0, u128::MAX - 1));
}

#[test]
fn u256_carry_and_borrow() {
    let a = U256::from_halves(3, u128::MAX);
    let b = U256::from_halves(1, 2);
    assert_eq!(a.add(&b), U256::from_halves(5, 1));
    assert_eq!(a.sub(&b), U256::from_halves(2, u128::MAX - 2));
    assert_eq!(U256::from_halves(5, 1).sub(&a), U256::from_halves(1, 2));
    assert!(b.lt(&a));
    assert!(!a.lt(&b));
    assert!(!a.lt(&a));
    assert!(U256::from_halves(1, 0).lt(&U256::from_halves(1, 1)));
}
