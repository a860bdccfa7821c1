//! Coins and the payment-sufficiency check shared by registration and
//! transfer: a configured price is met when the sent funds hold an entry of
//! the same denomination whose amount reaches the price. Entries of other
//! denominations are ignored, never summed.

use crate::error::ContractError;
use vstd::prelude::*;

verus! {

/// A quantity of one denomination, sent with a message or configured as a
/// price.
#[derive(Debug, PartialEq, Eq, Clone)]
pub struct Coin {
    pub denom: String,
    pub amount: u128,
}

/// The mathematical value of a `Coin`.
pub struct CoinView {
    pub denom: Seq<char>,
    pub amount: u128,
}

impl View for Coin {
    type V = CoinView;

    open spec fn view(&self) -> CoinView {
        CoinView { denom: self.denom@, amount: self.amount }
    }
}

impl DeepView for Coin {
    type V = CoinView;

    open spec fn deep_view(&self) -> CoinView {
        self@
    }
}

/// The largest amount of denomination `denom` among `funds`; zero when no
/// entry has that denomination.
pub open spec fn max_sent(funds: Seq<CoinView>, denom: Seq<char>) -> u128
    decreases funds.len(),
{
    if funds.len() == 0 {
        0
    } else {
        let prev = max_sent(funds.drop_last(), denom);
        let last = funds.last();
        if last.denom == denom && last.amount > prev {
            last.amount
        } else {
            prev
        }
    }
}

/// Whether `funds` meets the configured `price`: an unset price, a zero
/// price, or some entry of the price's denomination with at least its
/// amount.
pub open spec fn sufficient_funds(funds: Seq<CoinView>, price: Option<CoinView>) -> bool {
    match price {
        None => true,
        Some(p) => p.amount == 0 || exists|i: int|
            0 <= i < funds.len() && funds[i].denom == p.denom && funds[i].amount >= p.amount,
    }
}

/// Whether `e` is exactly the payment error that refusing `funds` against
/// `price` reports: the price's denomination and amount, and the largest
/// sent amount of that denomination.
pub open spec fn payment_error(e: ContractError, funds: Seq<CoinView>, price: Option<CoinView>) -> bool {
    &&& price matches Some(p)
    &&& e matches ContractError::InsufficientFundsSend { denom, required, sent }
    &&& denom@ == p.denom
    &&& required == p.amount
    &&& sent == max_sent(funds, p.denom)
}

/// Accepts `sent` when it meets `required`, else reports the exact
/// shortfall.
pub fn assert_sent_sufficient_coin(sent: &Vec<Coin>, required: &Option<Coin>) -> (r: Result<
    (),
    ContractError,
>)
    ensures
        r is Ok <==> sufficient_funds(sent.deep_view(), required.deep_view()),
        r matches Err(e) ==> payment_error(e, sent.deep_view(), required.deep_view()),
{
    match required {
        None => Ok(()),
        Some(price) => {
            if price.amount == 0 {
                return Ok(());
            }
            let ghost all: Seq<CoinView> = sent.deep_view();
            let mut best: u128 = 0;
            let mut found: bool = false;
            let mut i: usize = 0;
            while i < sent.len()
                invariant
                    i <= sent.len(),
                    all == sent.deep_view(),
                    all.len() == sent.len(),
                    best == max_sent(all.take(i as int), price@.denom),
                    found <==> exists|k: int|
                        0 <= k < i && all[k].denom == price@.denom && all[k].amount
                            >= price@.amount,
                decreases sent.len() - i,
            {
                let c = &sent[i];
                proof {
                    assert(all.take(i + 1).drop_last() =~= all.take(i as int));
                    assert(all.take(i + 1).last() == all[i as int]);
                    assert(all[i as int] == c@);
                }
                if c.denom == price.denom {
                    if c.amount >= price.amount {
                        found = true;
                    }
                    if c.amount > best {
                        best = c.amount;
                    }
                }
                i += 1;
            }
            proof {
                assert(all.take(sent.len() as int) =~= all);
            }
            if found {
                Ok(())
            } else {
                Err(ContractError::InsufficientFundsSend {
                    denom: price.denom.clone(),
                    required: price.amount,
                    sent: best,
                })
            }
        },
    }
}

/// An owned copy of an optional coin, equal in value to the original.
pub fn clone_opt_coin(c: &Option<Coin>) -> (r: Option<Coin>)
    ensures
        r.deep_view() == c.deep_view(),
{
    match c {
        None => None,
        Some(x) => Some(Coin { denom: x.denom.clone(), amount: x.amount }),
    }
}

/// A missing or zero price demands nothing: every funds list, the empty one
/// included, passes the payment check.
pub proof fn lemma_free_price_accepts_all(funds: Seq<CoinView>, price: Option<CoinView>)
    requires
        price is None || price->0.amount == 0,
    ensures
        sufficient_funds(funds, price),
{
}

/// Funds whose every entry of the price's denomination stays below a
/// positive price amount never pass the payment check.
pub proof fn lemma_underpayment_rejected(funds: Seq<CoinView>, p: CoinView)
    requires
        p.amount > 0,
        forall|i: int| 0 <= i < funds.len() && funds[i].denom == p.denom ==> funds[i].amount
            < p.amount,
    ensures
        !sufficient_funds(funds, Some(p)),
{
}

} // verus!
