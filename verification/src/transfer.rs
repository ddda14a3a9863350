//! The records of one transfer: who pays whom, what the network was asked to
//! do, and how the attempt ended.

use crate::address::{Address, TxId};
use crate::amount::{amount_limit, Wei};
use crate::fee::{FeeEstimate, TRANSFER_GAS_LIMIT};
use vstd::prelude::*;

verus! {

/// An account as the ledger showed it: its address and the balance read there.
#[derive(Clone, Copy, Debug, PartialEq, Eq)]
pub struct Account {
    pub address: Address,
    pub balance: Wei,
}

/// What is handed to the chain client for signing and broadcast.
#[derive(Clone, Copy, Debug, PartialEq, Eq)]
pub struct TransferRequest {
    pub sender: Account,
    pub recipient: Address,
    pub amount: Wei,
    pub gas_limit: u64,
    pub priority_fee: Wei,
    pub max_fee: Wei,
}

impl TransferRequest {
    /// A request moves a positive amount that the sender's balance covers, at
    /// the gas limit of a plain transfer, and offers at least its priority fee.
    pub open spec fn wf(&self) -> bool {
        &&& self.amount@ > 0
        &&& self.amount@ <= self.sender.balance@
        &&& self.gas_limit == TRANSFER_GAS_LIMIT
        &&& self.max_fee@ >= self.priority_fee@
    }

    /// Whether the request's fee cap is the quoted gas price plus its priority fee.
    pub open spec fn priced_at(&self, gas_price: Wei) -> bool {
        self.max_fee@ == gas_price@ + self.priority_fee@
    }

    /// Whether a fee cap for this gas price and priority fee fits in an amount.
    pub open spec fn affordable(gas_price: Wei, priority_fee: Wei) -> bool {
        gas_price@ + priority_fee@ < amount_limit()
    }

    /// The request for the given parties, amount and fees.
    pub open spec fn build(
        sender: Account,
        recipient: Address,
        amount: Wei,
        gas_price: Wei,
        priority_fee: Wei,
    ) -> TransferRequest {
        TransferRequest {
            sender,
            recipient,
            amount,
            gas_limit: TRANSFER_GAS_LIMIT,
            priority_fee,
            max_fee: Wei::of((gas_price@ + priority_fee@) as int),
        }
    }

    /// A request built for a positive amount within the balance, at fees that
    /// fit, is well formed and priced at the quoted gas price.
    pub proof fn lemma_build_wf(
        sender: Account,
        recipient: Address,
        amount: Wei,
        gas_price: Wei,
        priority_fee: Wei,
    )
        requires
            0 < amount@ <= sender.balance@,
            TransferRequest::affordable(gas_price, priority_fee),
        ensures
            TransferRequest::build(sender, recipient, amount, gas_price, priority_fee).wf(),
            TransferRequest::build(sender, recipient, amount, gas_price, priority_fee).priced_at(
                gas_price,
            ),
    {
        Wei::lemma_of_view((gas_price@ + priority_fee@) as int);
    }

    /// Builds the request for a transfer of `amount` from `sender` to
    /// `recipient`, capping the fee at the quoted gas price plus the priority
    /// fee.
    ///
    /// There is no request for an amount of zero, for an amount above the
    /// sender's balance, or at fees whose sum does not fit in an amount.
    pub fn new(
        sender: Account,
        recipient: Address,
        amount: Wei,
        estimate: &FeeEstimate,
        priority_fee: Wei,
    ) -> (r: Option<TransferRequest>)
        ensures
            r == if 0 < amount@ <= sender.balance@ && TransferRequest::affordable(
                estimate.gas_price,
                priority_fee,
            ) {
                Some(
                    TransferRequest::build(
                        sender,
                        recipient,
                        amount,
                        estimate.gas_price,
                        priority_fee,
                    ),
                )
            } else {
                None
            },
            r matches Some(request) ==> request.wf() && request.priced_at(estimate.gas_price),
    {
        if amount.is_zero() || sender.balance.lt(&amount) {
            return None;
        }
        match estimate.gas_price.checked_add(&priority_fee) {
            Some(max_fee) => {
                proof {
                    TransferRequest::lemma_build_wf(
                        sender,
                        recipient,
                        amount,
                        estimate.gas_price,
                        priority_fee,
                    );
                }
                Some(
                    TransferRequest {
                        sender,
                        recipient,
                        amount,
                        gas_limit: TRANSFER_GAS_LIMIT,
                        priority_fee,
                        max_fee,
                    },
                )
            },
            None => None,
        }
    }
}

/// How far a submitted transfer has come.
#[derive(Clone, Copy, Debug, PartialEq, Eq)]
pub enum TransferOutcome {
    /// The client accepted the transfer for broadcast.
    Submitted { tx_id: TxId },
    /// The transfer was mined in the given block.
    Confirmed { tx_id: TxId, block_number: u64 },
    /// The wait ended before the transfer was mined; it may still be pending.
    Dropped { tx_id: TxId },
}

impl TransferOutcome {
    /// The identifier of the transaction that the outcome is about.
    pub open spec fn spec_tx_id(&self) -> TxId {
        match *self {
            TransferOutcome::Submitted { tx_id } => tx_id,
            TransferOutcome::Confirmed { tx_id, .. } => tx_id,
            TransferOutcome::Dropped { tx_id } => tx_id,
        }
    }

    /// The identifier of the transaction that the outcome is about.
    #[verifier::when_used_as_spec(spec_tx_id)]
    pub fn tx_id(&self) -> (r: TxId)
        ensures
            r == self.spec_tx_id(),
    {
        match *self {
            TransferOutcome::Submitted { tx_id } => tx_id,
            TransferOutcome::Confirmed { tx_id, .. } => tx_id,
            TransferOutcome::Dropped { tx_id } => tx_id,
        }
    }
}

/// The call to the chain client that failed.
#[derive(Clone, Copy, Debug, PartialEq, Eq)]
pub enum ClientCall {
    Balance,
    GasPrice,
    Submission,
}

/// Why a call to the chain client failed: which call, and what the client said.
#[derive(Debug, PartialEq, Eq)]
pub struct NetworkCause {
    pub call: ClientCall,
    pub message: String,
}

/// Why an attempt ended without an outcome.
#[derive(Debug, PartialEq, Eq)]
pub enum TransferError {
    /// The sender's credentials are no private key.
    InvalidCredentials,
    /// The recipient's address is malformed.
    InvalidAddress,
    /// The sender's balance is below the amount.
    InsufficientFunds { have: Wei, need: Wei },
    /// A call to the chain client failed.
    NetworkError { cause: NetworkCause },
    /// A deadline passed. No attempt ends with it: a wait for confirmation
    /// that runs out ends in `TransferOutcome::Dropped`.
    Timeout,
}

impl TransferError {
    /// Whether the transfer may have reached the network although the attempt
    /// failed: so it is exactly when the submission itself failed.
    pub open spec fn spec_may_have_been_broadcast(&self) -> bool {
        self matches TransferError::NetworkError { cause } && cause.call is Submission
    }

    /// Whether the transfer may have reached the network although the attempt
    /// failed. Every other error is raised before anything is broadcast, and
    /// the attempt can be repeated once its cause is mended.
    #[verifier::when_used_as_spec(spec_may_have_been_broadcast)]
    pub fn may_have_been_broadcast(&self) -> (r: bool)
        ensures
            r == self.spec_may_have_been_broadcast(),
    {
        match self {
            TransferError::NetworkError { cause } => match cause.call {
                ClientCall::Submission => true,
                _ => false,
            },
            _ => false,
        }
    }
}

} // verus!
