//! The fee budget of a plain value transfer.

use crate::amount::{amount_limit, Wei};
use vstd::prelude::*;

verus! {

/// The gas that a plain value transfer consumes: a constant of the protocol.
pub const TRANSFER_GAS_LIMIT: u64 = 21_000;

/// The priority fee offered where the caller names none: one Gwei.
pub const DEFAULT_PRIORITY_FEE: u64 = 1_000_000_000;

/// A point-in-time fee quote: the network's gas price, the gas limit of a
/// plain transfer, and their product.
#[derive(Clone, Copy, Debug, PartialEq, Eq, Structural)]
pub struct FeeEstimate {
    pub gas_price: Wei,
    pub gas_limit: u64,
    pub fee: Wei,
}

impl FeeEstimate {
    /// The fee is the gas price times the gas limit of a plain transfer.
    pub open spec fn wf(&self) -> bool {
        &&& self.gas_limit == TRANSFER_GAS_LIMIT
        &&& self.fee@ == self.gas_price@ * TRANSFER_GAS_LIMIT
    }

    /// Whether the fee at this gas price fits in an amount.
    pub open spec fn quotable(gas_price: Wei) -> bool {
        gas_price@ * TRANSFER_GAS_LIMIT < amount_limit()
    }

    /// The estimate at a gas price, where one exists.
    pub open spec fn at(gas_price: Wei) -> FeeEstimate {
        FeeEstimate {
            gas_price,
            gas_limit: TRANSFER_GAS_LIMIT,
            fee: Wei::of(gas_price@ * TRANSFER_GAS_LIMIT),
        }
    }

    /// An estimate at a gas price that can be quoted states the product exactly.
    pub proof fn lemma_at_wf(gas_price: Wei)
        requires
            FeeEstimate::quotable(gas_price),
        ensures
            FeeEstimate::at(gas_price).wf(),
            FeeEstimate::at(gas_price).gas_price == gas_price,
    {
        Wei::lemma_of_view(gas_price@ * TRANSFER_GAS_LIMIT);
    }

    /// Quotes the fee of a plain transfer at `gas_price`, or `None` where the
    /// product does not fit in an amount.
    pub fn quote(gas_price: Wei) -> (r: Option<FeeEstimate>)
        ensures
            r == if FeeEstimate::quotable(gas_price) {
                Some(FeeEstimate::at(gas_price))
            } else {
                None
            },
            r matches Some(estimate) ==> estimate.wf(),
    {
        proof {
            if FeeEstimate::quotable(gas_price) {
                FeeEstimate::lemma_at_wf(gas_price);
            }
        }
        match gas_price.checked_mul_u64(TRANSFER_GAS_LIMIT) {
            Some(fee) => Some(FeeEstimate { gas_price, gas_limit: TRANSFER_GAS_LIMIT, fee }),
            None => None,
        }
    }
}

} // verus!
