use vstd::prelude::*;

use crate::error::ContractError;
use crate::state::Coin;

verus! {

/// The attached funds are exactly one coin of the given denomination and
/// amount: underpayment, overpayment and any extra coin all miss it.
pub open spec fn spec_funds_exact(funds: Seq<Coin>, amount: u128, denom: Seq<char>) -> bool {
    &&& funds.len() == 1
    &&& funds[0].amount == amount
    &&& funds[0].denom@ == denom
}

/// No payment was attached: every coin entry, if any, carries amount zero.
pub open spec fn spec_funds_empty(funds: Seq<Coin>) -> bool {
    forall|i: int| 0 <= i < funds.len() ==> (#[trigger] funds[i]).amount == 0
}

/// The payment rule: with an expected coin, the funds must equal it
/// exactly; with none expected, any nonzero funds are rejected.
pub open spec fn spec_payment_ok(funds: Seq<Coin>, expected: Option<Coin>) -> bool {
    match expected {
        Some(c) => spec_funds_exact(funds, c.amount, c.denom@),
        None => spec_funds_empty(funds),
    }
}

/// The payment validator: accepts exactly the expected payment and
/// rejects everything else as `WrongPaymentAmount`.
pub fn assert_sent_exact_coin(funds: &Vec<Coin>, expected: Option<Coin>) -> (r: Result<
    (),
    ContractError,
>)
    ensures
        r is Ok <==> spec_payment_ok(funds@, expected),
        r is Err ==> r == Err::<(), ContractError>(ContractError::WrongPaymentAmount),
{
    match expected {
        Some(c) => {
            if funds.len() == 1 {
                let sent = &funds[0];
                if sent.amount == c.amount && sent.denom == c.denom {
                    return Ok(());
                }
            }
            Err(ContractError::WrongPaymentAmount)
        },
        None => {
            let mut i: usize = 0;
            while i < funds.len()
                invariant
                    expected is None,
                    i <= funds@.len(),
                    forall|j: int| 0 <= j < i ==> (#[trigger] funds@[j]).amount == 0,
                decreases funds@.len() - i,
            {
                if funds[i].amount != 0 {
                    proof {
                        assert((funds@[i as int]).amount != 0);
                        assert(!spec_funds_empty(funds@));
                    }
                    return Err(ContractError::WrongPaymentAmount);
                }
                i += 1;
            }
            Ok(())
        },
    }
}

} // verus!
