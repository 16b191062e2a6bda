use erc20::Burn;
use erc20::Erc20;
use erc20::Error;
use erc20::Event;
use erc20::Transfer;

const X: u128 = 1;
const Y: u128 = 2;
const Z: u128 = 3;
const W: u128 = 4;

#[test]
fn create_contruct_works() {
    let erc20 = Erc20::new(X, 1000);
    assert_eq!(erc20.total_supply(), 1000);
}

#[test]
fn issue_works() {
    let mut erc20 = Erc20::new(X, 1000);
    assert_eq!(erc20.issue(X, 10), Ok(()));
    assert_eq!(erc20.total_supply(), 1010);
}

#[test]
fn new_credits_creator_in_full() {
    let l = Erc20::new(X, 1000);
    assert_eq!(l.total_supply(), 1000);
    assert_eq!(l.balance_of(X), 1000);
    assert_eq!(l.balance_of(Y), 0);
    assert_eq!(l.balance_of(W), 0);
    assert_eq!(l.allowance(X, Y), 0);
    assert!(l.events().is_empty());
}

#[test]
fn default_is_all_zero() {
    let l = Erc20::default(X);
    assert_eq!(l.total_supply(), 0);
    assert_eq!(l.balance_of(X), 0);
    assert_eq!(l.balance_of(Y), 0);
    assert!(l.events().is_empty());
}

#[test]
fn new_with_zero_supply_is_legal() {
    let l = Erc20::new(X, 0);
    assert_eq!(l.total_supply(), 0);
    assert_eq!(l.balance_of(X), 0);
}

#[test]
fn transfer_moves_value_and_emits() {
    let mut l = Erc20::new(X, 1000);
    assert_eq!(l.transfer(X, Y, 400), Ok(()));
    assert_eq!(l.balance_of(X), 600);
    assert_eq!(l.balance_of(Y), 400);
    assert_eq!(l.total_supply(), 1000);
    assert_eq!(
        l.events().as_slice(),
        &[Event::Transfer(Transfer { from: Some(X), to: Some(Y), value: 400 })]
    );
}

#[test]
fn transfer_conserves_pair_sum() {
    let mut l = Erc20::new(X, 1000);
    assert_eq!(l.transfer(X, Y, 250), Ok(()));
    let before = l.balance_of(X) + l.balance_of(Y);
    assert_eq!(l.transfer(X, Y, 125), Ok(()));
    assert_eq!(l.balance_of(X) + l.balance_of(Y), before);
    assert_eq!(l.balance_of(X), 625);
    assert_eq!(l.balance_of(Y), 375);
}

#[test]
fn self_transfer_is_net_noop_but_still_checked_and_emitted() {
    let mut l = Erc20::new(X, 10);
    assert_eq!(l.transfer(X, X, 10), Ok(()));
    assert_eq!(l.balance_of(X), 10);
    assert_eq!(
        l.events().as_slice(),
        &[Event::Transfer(Transfer { from: Some(X), to: Some(X), value: 10 })]
    );
    assert_eq!(l.transfer(X, X, 11), Err(Error::InsufficientBalance));
    assert_eq!(l.events().len(), 1);
}

#[test]
fn transfer_of_zero_succeeds_and_emits() {
    let mut l = Erc20::new(X, 5);
    assert_eq!(l.transfer(X, Y, 0), Ok(()));
    assert_eq!(l.balance_of(X), 5);
    assert_eq!(l.balance_of(Y), 0);
    assert_eq!(l.events().len(), 1);
}

#[test]
fn overdraft_fails_and_changes_nothing() {
    let mut l = Erc20::new(X, 50);
    assert_eq!(l.transfer(X, Y, 51), Err(Error::InsufficientBalance));
    assert_eq!(l.balance_of(X), 50);
    assert_eq!(l.balance_of(Y), 0);
    assert!(l.events().is_empty());
}

#[test]
fn transfer_does_not_touch_allowances() {
    let mut l = Erc20::new(X, 100);
    assert_eq!(l.approve(X, Z, 40), Ok(()));
    assert_eq!(l.transfer(X, Y, 30), Ok(()));
    assert_eq!(l.allowance(X, Z), 40);
}

#[test]
fn approve_overwrites_previous_value() {
    let mut l = Erc20::new(X, 1000);
    assert_eq!(l.approve(X, Z, 300), Ok(()));
    assert_eq!(l.allowance(X, Z), 300);
    assert_eq!(l.approve(X, Z, 100), Ok(()));
    assert_eq!(l.allowance(X, Z), 100);
    assert_eq!(l.approve(X, Z, 700), Ok(()));
    assert_eq!(l.allowance(X, Z), 700);
}

#[test]
fn approve_may_exceed_balance_and_emits() {
    let mut l = Erc20::new(X, 10);
    assert_eq!(l.approve(X, Z, 1_000_000), Ok(()));
    assert_eq!(l.allowance(X, Z), 1_000_000);
    assert_eq!(l.events().len(), 1);
    assert!(matches!(l.events()[0], Event::Approval(_)));
}

#[test]
fn delegated_transfer_spends_allowance() {
    let mut l = Erc20::new(X, 1000);
    assert_eq!(l.approve(X, Z, 300), Ok(()));
    assert_eq!(l.transfer_from(Z, X, W, 300), Ok(()));
    assert_eq!(l.balance_of(X), 700);
    assert_eq!(l.balance_of(W), 300);
    assert_eq!(l.allowance(X, Z), 0);
    assert_eq!(l.transfer_from(Z, X, W, 1), Err(Error::InsufficientAllowance));
    assert_eq!(l.balance_of(X), 700);
    assert_eq!(l.balance_of(W), 300);
}

#[test]
fn delegated_transfer_decrements_not_zeroes() {
    let mut l = Erc20::new(X, 1000);
    assert_eq!(l.approve(X, Z, 300), Ok(()));
    assert_eq!(l.transfer_from(Z, X, W, 120), Ok(()));
    assert_eq!(l.allowance(X, Z), 180);
}

#[test]
fn delegated_transfer_without_allowance_fails() {
    let mut l = Erc20::new(X, 1000);
    assert_eq!(l.transfer_from(Z, X, W, 1), Err(Error::InsufficientAllowance));
    assert_eq!(l.balance_of(X), 1000);
    assert_eq!(l.balance_of(W), 0);
    assert!(l.events().is_empty());
}

#[test]
fn delegated_transfer_balance_failure_keeps_allowance() {
    let mut l = Erc20::new(X, 50);
    assert_eq!(l.approve(X, Z, 100), Ok(()));
    assert_eq!(l.transfer_from(Z, X, W, 80), Err(Error::InsufficientBalance));
    assert_eq!(l.allowance(X, Z), 100);
    assert_eq!(l.balance_of(X), 50);
    assert_eq!(l.balance_of(W), 0);
    assert_eq!(l.events().len(), 1);
}

#[test]
fn burn_destroys_balance_but_not_supply() {
    let mut l = Erc20::new(X, 200);
    assert_eq!(l.burn(X, 200), Ok(()));
    assert_eq!(l.balance_of(X), 0);
    assert_eq!(l.total_supply(), 200);
    assert_eq!(
        l.events().as_slice(),
        &[Event::Burn(Burn { caller: Some(X), value: 200 })]
    );
}

#[test]
fn burn_past_balance_fails_and_changes_nothing() {
    let mut l = Erc20::new(X, 200);
    assert_eq!(l.burn(X, 201), Err(Error::InsufficientBalance));
    assert_eq!(l.balance_of(X), 200);
    assert_eq!(l.total_supply(), 200);
    assert!(l.events().is_empty());
}

#[test]
fn issue_does_not_credit_any_balance() {
    let mut l = Erc20::new(X, 1000);
    assert_eq!(l.issue(Y, 500), Ok(()));
    assert_eq!(l.total_supply(), 1500);
    assert_eq!(l.balance_of(X), 1000);
    assert_eq!(l.balance_of(Y), 0);
    assert!(l.events().is_empty());
}

#[test]
fn issue_overflow_is_detected() {
    let mut l = Erc20::new(X, 0);
    assert_eq!(l.issue(X, u128::MAX), Ok(()));
    assert_eq!(l.total_supply(), u128::MAX);
    assert_eq!(l.issue(X, 1), Err(Error::ArithmeticOverflow));
    assert_eq!(l.total_supply(), u128::MAX);
    assert_eq!(l.issue(X, 0), Ok(()));
    assert_eq!(l.total_supply(), u128::MAX);
}

#[test]
fn queries_are_idempotent() {
    let mut l = Erc20::new(X, 1000);
    assert_eq!(l.approve(X, Z, 77), Ok(()));
    assert_eq!(l.transfer(X, Y, 300), Ok(()));
    for _ in 0..3 {
        assert_eq!(l.total_supply(), 1000);
        assert_eq!(l.balance_of(X), 700);
        assert_eq!(l.balance_of(Y), 300);
        assert_eq!(l.allowance(X, Z), 77);
        assert_eq!(l.events().len(), 2);
    }
}
