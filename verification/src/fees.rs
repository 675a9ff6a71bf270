//! The fee engine: the proportional service fee taken when an auction is
//! settled.

use vstd::prelude::*;
use crate::host::Balance;

verus! {

/// The service fee owed on settling a bid of `bid` under a fee interest of
/// `interest`: the whole fraction `bid / interest` of the winning bid.
pub open spec fn service_fee(bid: Balance, interest: u32) -> Balance
    recommends
        interest >= 1,
{
    bid / (interest as Balance)
}

/// Compute the settlement fee for a winning bid: `bid / interest`, rounded
/// down.  The fee never exceeds the bid itself.
pub fn settlement_fee(bid: Balance, interest: u32) -> (r: Balance)
    requires
        interest >= 1,
    ensures
        r == service_fee(bid, interest),
        r <= bid,
{
    proof {
        lemma_service_fee_le_bid(bid, interest);
    }
    bid / (interest as Balance)
}

/// The settlement fee is a part of the bid: it never exceeds the bid itself,
/// so the seller's share `bid - fee` is well defined.
pub proof fn lemma_service_fee_le_bid(bid: Balance, interest: u32)
    requires
        interest >= 1,
    ensures
        service_fee(bid, interest) <= bid,
{
    assert(bid / (interest as Balance) <= bid) by (nonlinear_arith)
        requires
            interest >= 1,
    ;
}

} // verus!
