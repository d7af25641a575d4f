use lattica_gatekeeper::lending::{Ciphertext, LiqResult};

// A plaintext stand-in for the backend: a "ciphertext" is the value itself.
fn lt(a: &Ciphertext<i64>, b: &Ciphertext<i64>) -> Ciphertext<i64> {
    Ciphertext((a.0 < b.0) as i64)
}

fn dec(c: &Ciphertext<i64>) -> i64 {
    c.0
}

fn plus(a: &Ciphertext<i64>, b: &Ciphertext<i64>) -> Ciphertext<i64> {
    Ciphertext(a.0 + b.0)
}

fn minus(a: &Ciphertext<i64>, b: &Ciphertext<i64>) -> Ciphertext<i64> {
    Ciphertext(a.0 - b.0)
}

#[test]
fn borrow_moves_loan_when_bank_can_cover_it() {
    let (user, bank) = Ciphertext::borrow(Ciphertext(100), Ciphertext(1000), &Ciphertext(250), lt, dec, plus, minus);
    assert_eq!(Ciphertext::decrypt_borrow(user, bank, dec), (350, 750));
}

#[test]
fn borrow_keeps_balances_when_loan_is_too_large() {
    let (user, bank) = Ciphertext::borrow(Ciphertext(100), Ciphertext(200), &Ciphertext(200), lt, dec, plus, minus);
    assert_eq!((user.0, bank.0), (100, 200));
}

#[test]
fn withdraw_takes_amount_below_balance() {
    let left = Ciphertext::Withdraw(Ciphertext(500), &Ciphertext(120), lt, dec, minus);
    assert_eq!(Ciphertext::decrypt_withdraw(left, dec), 380);
}

#[test]
fn withdraw_refuses_amount_at_or_above_balance() {
    let left = Ciphertext::Withdraw(Ciphertext(500), &Ciphertext(500), lt, dec, minus);
    assert_eq!(left.0, 500);
}

#[test]
fn deposit_adds_amount() {
    let total = Ciphertext::Deposit(&Ciphertext(-723), &Ciphertext(126), plus);
    assert_eq!(Ciphertext::decrypt_deposit(total, dec), -597);
}

#[test]
fn new_position_stands() {
    let p = LiqResult::new(Ciphertext(42i64));
    assert_eq!(p.plain, 1);
    assert_eq!(p.cipher.0, 42);
}

#[test]
fn liquidation_clears_flag_when_price_falls_to_liquidation_price() {
    let mut p = LiqResult::new(Ciphertext(42i64));
    Ciphertext::Liquidation(&Ciphertext(90), &Ciphertext(90), &mut p, lt, dec);
    assert_eq!(p.plain, 0);
    assert_eq!(Ciphertext::decrypt_liquidation(p, dec), 42);
}

#[test]
fn liquidation_keeps_position_above_liquidation_price() {
    let mut p = LiqResult::new(Ciphertext(42i64));
    Ciphertext::Liquidation(&Ciphertext(120), &Ciphertext(90), &mut p, lt, dec);
    assert_eq!(p.plain, 1);
    assert_eq!(p.cipher.0, 42);
}
