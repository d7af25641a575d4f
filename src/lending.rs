//! Confidential lending rules over a homomorphic-encryption backend. The
//! backend's operations are handed in as functions: the comparison, the
//! decryption of a comparison flag, and addition and subtraction of
//! ciphertexts. Each rule is stated over what those functions may return.

use vstd::prelude::*;

verus! {

/// An encrypted value in the form the backend holds it.
pub struct Ciphertext<C>(pub C);

/// A collateral position: its encrypted amount and a plaintext flag that
/// is 1 while the position stands and 0 once it has been liquidated.
pub struct LiqResult<C> {
    pub cipher: Ciphertext<C>,
    pub plain: i32,
}

impl<C> LiqResult<C> {
    /// A standing position over `cipher`.
    pub fn new(cipher: Ciphertext<C>) -> (r: Self)
        ensures
            r.cipher == cipher,
            r.plain == 1,
    {
        LiqResult { cipher, plain: 1 }
    }
}

impl<C> Ciphertext<C> {
    /// Lends `loan` from the bank's `asset_2` to the user's `asset_1` when
    /// the decrypted comparison says that the loan is below the bank's
    /// balance (flag 1); otherwise both balances come back unchanged.
    pub fn borrow<L, D, A, S>(
        asset_1: Ciphertext<C>,
        asset_2: Ciphertext<C>,
        loan: &Ciphertext<C>,
        lt: L,
        decrypt: D,
        plus: A,
        minus: S,
    ) -> (r: (Ciphertext<C>, Ciphertext<C>)) where
        L: Fn(&Ciphertext<C>, &Ciphertext<C>) -> Ciphertext<C>,
        D: Fn(&Ciphertext<C>) -> i64,
        A: Fn(&Ciphertext<C>, &Ciphertext<C>) -> Ciphertext<C>,
        S: Fn(&Ciphertext<C>, &Ciphertext<C>) -> Ciphertext<C>,

        requires
            lt.requires((loan, &asset_2)),
            forall|c: &Ciphertext<C>| decrypt.requires((c,)),
            plus.requires((&asset_1, loan)),
            minus.requires((&asset_2, loan)),
        ensures
            exists|comp: Ciphertext<C>, flag: i64|
                {
                    &&& lt.ensures((loan, &asset_2), comp)
                    &&& decrypt.ensures((&comp,), flag)
                    &&& if flag == 1 {
                        plus.ensures((&asset_1, loan), r.0) && minus.ensures((&asset_2, loan), r.1)
                    } else {
                        r == (asset_1, asset_2)
                    }
                },
    {
        let comp = lt(loan, &asset_2);
        let flag = decrypt(&comp);
        if flag == 1 {
            let asset_1_result = plus(&asset_1, loan);
            let asset_2_result = minus(&asset_2, loan);
            (asset_1_result, asset_2_result)
        } else {
            (asset_1, asset_2)
        }
    }

    /// Decrypts the two balances that `borrow` returns.
    pub fn decrypt_borrow<D>(asset_1: Ciphertext<C>, asset_2: Ciphertext<C>, decrypt: D) -> (r: (i64, i64)) where
        D: Fn(&Ciphertext<C>) -> i64,

        requires
            decrypt.requires((&asset_1,)),
            decrypt.requires((&asset_2,)),
        ensures
            decrypt.ensures((&asset_1,), r.0),
            decrypt.ensures((&asset_2,), r.1),
    {
        let asset_1_dec = decrypt(&asset_1);
        let asset_2_dec = decrypt(&asset_2);
        (asset_1_dec, asset_2_dec)
    }

    /// Takes `amount` out of `asset` when the decrypted comparison says
    /// that the amount is below the balance (flag 1); otherwise the balance
    /// comes back unchanged.
    #[allow(non_snake_case)]
    pub fn Withdraw<L, D, S>(asset: Ciphertext<C>, amount: &Ciphertext<C>, lt: L, decrypt: D, minus: S) -> (r:
        Ciphertext<C>) where
        L: Fn(&Ciphertext<C>, &Ciphertext<C>) -> Ciphertext<C>,
        D: Fn(&Ciphertext<C>) -> i64,
        S: Fn(&Ciphertext<C>, &Ciphertext<C>) -> Ciphertext<C>,

        requires
            lt.requires((amount, &asset)),
            forall|c: &Ciphertext<C>| decrypt.requires((c,)),
            minus.requires((&asset, amount)),
        ensures
            exists|comp: Ciphertext<C>, flag: i64|
                {
                    &&& lt.ensures((amount, &asset), comp)
                    &&& decrypt.ensures((&comp,), flag)
                    &&& if flag == 1 {
                        minus.ensures((&asset, amount), r)
                    } else {
                        r == asset
                    }
                },
    {
        let comp = lt(amount, &asset);
        let flag = decrypt(&comp);
        if flag == 1 {
            minus(&asset, amount)
        } else {
            asset
        }
    }

    /// Decrypts the balance that `Withdraw` returns.
    pub fn decrypt_withdraw<D>(asset: Ciphertext<C>, decrypt: D) -> (r: i64) where
        D: Fn(&Ciphertext<C>) -> i64,

        requires
            decrypt.requires((&asset,)),
        ensures
            decrypt.ensures((&asset,), r),
    {
        decrypt(&asset)
    }

    /// Adds `amount` to `asset`.
    #[allow(non_snake_case)]
    pub fn Deposit<A>(asset: &Ciphertext<C>, amount: &Ciphertext<C>, plus: A) -> (r: Ciphertext<C>) where
        A: Fn(&Ciphertext<C>, &Ciphertext<C>) -> Ciphertext<C>,

        requires
            plus.requires((asset, amount)),
        ensures
            plus.ensures((asset, amount), r),
    {
        plus(asset, amount)
    }

    /// Decrypts the balance that `Deposit` returns.
    pub fn decrypt_deposit<D>(asset: Ciphertext<C>, decrypt: D) -> (r: i64) where
        D: Fn(&Ciphertext<C>) -> i64,

        requires
            decrypt.requires((&asset,)),
        ensures
            decrypt.ensures((&asset,), r),
    {
        decrypt(&asset)
    }

    /// Liquidates `collateral`, by clearing its plaintext flag, unless the
    /// decrypted comparison says that the liquidation price is below the
    /// current price (flag other than 0). The encrypted amount is kept.
    #[allow(non_snake_case)]
    pub fn Liquidation<L, D>(
        curr_price: &Ciphertext<C>,
        liq_price: &Ciphertext<C>,
        collateral: &mut LiqResult<C>,
        lt: L,
        decrypt: D,
    ) where
        L: Fn(&Ciphertext<C>, &Ciphertext<C>) -> Ciphertext<C>,
        D: Fn(&Ciphertext<C>) -> i64,

        requires
            lt.requires((liq_price, curr_price)),
            forall|c: &Ciphertext<C>| decrypt.requires((c,)),
        ensures
            final(collateral).cipher == old(collateral).cipher,
            exists|comp: Ciphertext<C>, flag: i64|
                {
                    &&& lt.ensures((liq_price, curr_price), comp)
                    &&& decrypt.ensures((&comp,), flag)
                    &&& final(collateral).plain == if flag == 0 {
                        0
                    } else {
                        old(collateral).plain
                    }
                },
    {
        let comp = lt(liq_price, curr_price);
        let flag = decrypt(&comp);
        if flag == 0 {
            collateral.plain = 0;
        }
    }

    /// Decrypts the encrypted amount of a position; its plaintext flag
    /// plays no part.
    pub fn decrypt_liquidation<D>(collateral: LiqResult<C>, decrypt: D) -> (r: i64) where
        D: Fn(&Ciphertext<C>) -> i64,

        requires
            decrypt.requires((&collateral.cipher,)),
        ensures
            decrypt.ensures((&collateral.cipher,), r),
    {
        decrypt(&collateral.cipher)
    }
}

} // verus!
