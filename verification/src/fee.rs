use vstd::prelude::*;

verus! {

/// Fee rate in basis points: 50 bp is 0.5%.
pub const FEE_BASIS_POINTS: i128 = 50;

/// The fee on `amount`: `amount * 50 / 10000`, rounded down.
pub open spec fn fee_of(amount: int) -> int {
    amount * FEE_BASIS_POINTS / 10000
}

/// Fifty ten-thousandths is one two-hundredth, also after rounding down.
pub proof fn lemma_fee_is_two_hundredth(amount: int)
    ensures
        fee_of(amount) == amount / 200,
{
    let q = amount / 200;
    let r = amount % 200;
    assert(amount == 200 * q + r && 0 <= r < 200);
    assert(amount * 50 == 10000 * q + 50 * r);
    vstd::arithmetic::div_mod::lemma_fundamental_div_mod_converse(amount * 50, 10000, q, 50 * r);
}

/// Quotes the platform fee for an amount. Defined for every `i128`: the
/// product `amount * 50` is never formed.
pub fn calculate_fee(amount: i128) -> (fee: i128)
    ensures
        fee == fee_of(amount as int),
{
    proof {
        lemma_fee_is_two_hundredth(amount as int);
    }
    if amount >= 0 {
        amount / 200
    } else {
        let below: i128 = -(amount + 1);
        -(below / 200) - 1
    }
}

} // verus!
