//! The transfer executor: one attempt at a transfer, advanced step by step by
//! the answers of the chain client.
//!
//! The executor never talks to the network. It says which call is due next
//! (an [`Action`]) and takes the call's answer (an [`Event`]); whoever drives
//! it performs the calls.

use crate::address::{address_bytes, is_address_text, Address, TxId};
use crate::amount::Wei;
use crate::credentials::{resolve_signer, signer_address};
use crate::fee::{FeeEstimate, DEFAULT_PRIORITY_FEE, TRANSFER_GAS_LIMIT};
use crate::transfer::{
    Account, ClientCall, NetworkCause, TransferError, TransferOutcome, TransferRequest,
};
use vstd::prelude::*;

verus! {

/// What the caller decides once, when the executor is made.
#[derive(Clone, Copy, Debug, PartialEq, Eq)]
pub struct ExecutorConfig {
    /// The priority fee added to the quoted gas price.
    pub priority_fee: Wei,
    /// How long to wait for a submitted transfer to be mined, in
    /// milliseconds; `None` waits without limit.
    pub confirmation_timeout_ms: Option<u64>,
}

impl ExecutorConfig {
    /// The configuration that offers the default priority fee and waits
    /// without limit.
    pub open spec fn standard() -> ExecutorConfig {
        ExecutorConfig {
            priority_fee: Wei::of(DEFAULT_PRIORITY_FEE as int),
            confirmation_timeout_ms: None,
        }
    }
}

impl Default for ExecutorConfig {
    fn default() -> (r: ExecutorConfig)
        ensures
            r == ExecutorConfig::standard(),
    {
        ExecutorConfig {
            priority_fee: Wei::from_u64(DEFAULT_PRIORITY_FEE),
            confirmation_timeout_ms: None,
        }
    }
}

/// The call to the chain client that an attempt is waiting for.
#[derive(Clone, Copy, Debug, PartialEq, Eq)]
pub enum Stage {
    /// The sender's balance has been asked for.
    AwaitingBalance,
    /// The balance covers the amount; the gas price has been asked for.
    AwaitingGasPrice { balance: Wei },
    /// The request has been handed over for signing and broadcast.
    AwaitingSubmission { request: TransferRequest, estimate: FeeEstimate },
    /// The transfer is submitted; its receipt is being polled.
    AwaitingReceipt { tx_id: TxId },
}

/// The call that the driver is to make next.
#[derive(Clone, Copy, Debug, PartialEq, Eq)]
pub enum Action {
    /// Read the balance of `address`.
    QueryBalance { address: Address },
    /// Read the network's current gas price.
    QueryGasPrice,
    /// Sign `request` for the chain `chain_id` and broadcast it.
    Submit { request: TransferRequest, chain_id: u64 },
    /// Look for the receipt of `tx_id`.
    PollReceipt { tx_id: TxId },
}

/// The answer of the chain client to one call.
#[derive(Debug, PartialEq, Eq)]
pub enum Event {
    /// The sender's balance, or why it could not be read.
    Balance(Result<Wei, String>),
    /// The gas price, or why it could not be read.
    GasPrice(Result<Wei, String>),
    /// The identifier of the broadcast transaction, or why the broadcast was
    /// rejected.
    Submission(Result<TxId, String>),
    /// The block that holds the transaction, if it has been mined, and the
    /// time spent waiting since the submission.
    Receipt { block_number: Option<u64>, waited_ms: u64 },
    /// The caller gives up waiting for confirmation.
    Cancelled,
}

/// One attempt at a transfer that has not ended yet.
#[derive(Clone, Copy, Debug, PartialEq, Eq)]
pub struct Attempt {
    pub sender: Address,
    pub recipient: Address,
    pub amount: Wei,
    pub chain_id: u64,
    pub config: ExecutorConfig,
    pub stage: Stage,
}

/// Where an attempt stands after a step: still under way, or ended.
#[derive(Debug, PartialEq, Eq)]
pub enum Progress {
    /// A call to the chain client is due; see [`Attempt::action`].
    Pending(Attempt),
    /// The attempt has ended, with its outcome or its error.
    Finished(Result<TransferOutcome, TransferError>),
}

/// The error of a call to the chain client.
pub open spec fn network_error(call: ClientCall, message: String) -> TransferError {
    TransferError::NetworkError { cause: NetworkCause { call, message } }
}

impl Attempt {
    /// What holds of every attempt that the executor hands out: the amount is
    /// positive; once the balance is known it covers the amount; and a request
    /// that is out for submission is the attempt's own, well formed, and
    /// priced at the gas price of its fee estimate.
    pub open spec fn wf(&self) -> bool {
        &&& self.amount@ > 0
        &&& match self.stage {
            Stage::AwaitingBalance => true,
            Stage::AwaitingGasPrice { balance } => self.amount@ <= balance@,
            Stage::AwaitingSubmission { request, estimate } => {
                &&& request.wf()
                &&& estimate.wf()
                &&& request.priced_at(estimate.gas_price)
                &&& request.sender.address == self.sender
                &&& request.recipient == self.recipient
                &&& request.amount == self.amount
                &&& request.priority_fee == self.config.priority_fee
            },
            Stage::AwaitingReceipt { tx_id } => true,
        }
    }

    /// The call that is due.
    pub open spec fn spec_action(&self) -> Action {
        match self.stage {
            Stage::AwaitingBalance => Action::QueryBalance { address: self.sender },
            Stage::AwaitingGasPrice { .. } => Action::QueryGasPrice,
            Stage::AwaitingSubmission { request, .. } => Action::Submit {
                request,
                chain_id: self.chain_id,
            },
            Stage::AwaitingReceipt { tx_id } => Action::PollReceipt { tx_id },
        }
    }

    /// The call that is due.
    #[verifier::when_used_as_spec(spec_action)]
    pub fn action(&self) -> (r: Action)
        ensures
            r == self.spec_action(),
    {
        match self.stage {
            Stage::AwaitingBalance => Action::QueryBalance { address: self.sender },
            Stage::AwaitingGasPrice { .. } => Action::QueryGasPrice,
            Stage::AwaitingSubmission { request, .. } => Action::Submit {
                request,
                chain_id: self.chain_id,
            },
            Stage::AwaitingReceipt { tx_id } => Action::PollReceipt { tx_id },
        }
    }

    /// The outcome so far: `Submitted` from the moment the client has
    /// accepted the transfer, nothing before.
    pub open spec fn spec_outcome(&self) -> Option<TransferOutcome> {
        match self.stage {
            Stage::AwaitingReceipt { tx_id } => Some(TransferOutcome::Submitted { tx_id }),
            _ => None,
        }
    }

    /// The outcome so far: `Submitted` from the moment the client has
    /// accepted the transfer, nothing before.
    #[verifier::when_used_as_spec(spec_outcome)]
    pub fn outcome(&self) -> (r: Option<TransferOutcome>)
        ensures
            r == self.spec_outcome(),
    {
        match self.stage {
            Stage::AwaitingReceipt { tx_id } => Some(TransferOutcome::Submitted { tx_id }),
            _ => None,
        }
    }

    /// Whether the wait for confirmation has run out after `waited_ms`.
    pub open spec fn expired(&self, waited_ms: u64) -> bool {
        self.config.confirmation_timeout_ms matches Some(limit) && waited_ms >= limit
    }

    /// How long the wait for confirmation may still last after `waited_ms`,
    /// in milliseconds: nothing once it has expired, `None` where it has no
    /// limit.
    pub open spec fn spec_wait_left(&self, waited_ms: u64) -> Option<u64> {
        match self.config.confirmation_timeout_ms {
            None => None,
            Some(limit) => Some(
                if self.expired(waited_ms) {
                    0
                } else {
                    (limit - waited_ms) as u64
                },
            ),
        }
    }

    /// How long the wait for confirmation may still last after `waited_ms`,
    /// in milliseconds: nothing once it has expired, `None` where it has no
    /// limit.
    #[verifier::when_used_as_spec(spec_wait_left)]
    pub fn wait_left(&self, waited_ms: u64) -> (r: Option<u64>)
        ensures
            r == self.spec_wait_left(waited_ms),
            self.expired(waited_ms) <==> r == Some(0u64),
    {
        match self.config.confirmation_timeout_ms {
            None => None,
            Some(limit) => Some(
                if waited_ms >= limit {
                    0
                } else {
                    limit - waited_ms
                },
            ),
        }
    }

    /// Whether the attempt can take the event: every event but a gas price
    /// so high that the fee or the fee cap would not fit in an amount.
    pub open spec fn spec_accepts(&self, event: &Event) -> bool {
        self.stage is AwaitingGasPrice ==> (*event matches Event::GasPrice(Ok(gas_price))
            ==> FeeEstimate::quotable(gas_price) && TransferRequest::affordable(
            gas_price,
            self.config.priority_fee,
        ))
    }

    /// Whether the attempt can take the event: every event but a gas price
    /// so high that the fee or the fee cap would not fit in an amount.
    #[verifier::when_used_as_spec(spec_accepts)]
    pub fn accepts(&self, event: &Event) -> (r: bool)
        ensures
            r == self.spec_accepts(event),
    {
        match self.stage {
            Stage::AwaitingGasPrice { .. } => match event {
                Event::GasPrice(Ok(gas_price)) => {
                    gas_price.checked_mul_u64(TRANSFER_GAS_LIMIT).is_some()
                        && gas_price.checked_add(&self.config.priority_fee).is_some()
                },
                _ => true,
            },
            _ => true,
        }
    }

    /// The attempt at another stage.
    pub open spec fn at(self, stage: Stage) -> Attempt {
        Attempt { stage, ..self }
    }

    /// Where the attempt stands after the event.
    ///
    /// An event that does not answer the call that is due leaves the attempt
    /// as it is. Only the wait for confirmation can be cancelled, and
    /// cancelling it leaves the submitted transfer on the network: the attempt
    /// ends with `Dropped`, as it does when the wait runs out.
    pub open spec fn after(self, event: Event) -> Progress {
        match self.stage {
            Stage::AwaitingBalance => match event {
                Event::Balance(Ok(balance)) => if balance@ < self.amount@ {
                    Progress::Finished(
                        Err(TransferError::InsufficientFunds { have: balance, need: self.amount }),
                    )
                } else {
                    Progress::Pending(self.at(Stage::AwaitingGasPrice { balance }))
                },
                Event::Balance(Err(message)) => Progress::Finished(
                    Err(network_error(ClientCall::Balance, message)),
                ),
                _ => Progress::Pending(self),
            },
            Stage::AwaitingGasPrice { balance } => match event {
                Event::GasPrice(Ok(gas_price)) => Progress::Pending(
                    self.at(
                        Stage::AwaitingSubmission {
                            request: TransferRequest::build(
                                Account { address: self.sender, balance },
                                self.recipient,
                                self.amount,
                                gas_price,
                                self.config.priority_fee,
                            ),
                            estimate: FeeEstimate::at(gas_price),
                        },
                    ),
                ),
                Event::GasPrice(Err(message)) => Progress::Finished(
                    Err(network_error(ClientCall::GasPrice, message)),
                ),
                _ => Progress::Pending(self),
            },
            Stage::AwaitingSubmission { .. } => match event {
                Event::Submission(Ok(tx_id)) => Progress::Pending(
                    self.at(Stage::AwaitingReceipt { tx_id }),
                ),
                Event::Submission(Err(message)) => Progress::Finished(
                    Err(network_error(ClientCall::Submission, message)),
                ),
                _ => Progress::Pending(self),
            },
            Stage::AwaitingReceipt { tx_id } => match event {
                Event::Receipt { block_number: Some(block_number), .. } => Progress::Finished(
                    Ok(TransferOutcome::Confirmed { tx_id, block_number }),
                ),
                Event::Receipt { block_number: None, waited_ms } => if self.expired(waited_ms) {
                    Progress::Finished(Ok(TransferOutcome::Dropped { tx_id }))
                } else {
                    Progress::Pending(self)
                },
                Event::Cancelled => Progress::Finished(Ok(TransferOutcome::Dropped { tx_id })),
                _ => Progress::Pending(self),
            },
        }
    }

    /// Takes the answer of the chain client and says where the attempt stands.
    ///
    /// The event must be one that the attempt accepts; see [`Attempt::accepts`].
    pub fn step(self, event: Event) -> (next: Progress)
        requires
            self.spec_accepts(&event),
        ensures
            next == self.after(event),
            self.wf() ==> (next matches Progress::Pending(attempt) ==> attempt.wf()),
            self.stage is AwaitingGasPrice ==> (next matches Progress::Pending(attempt) ==> (
            attempt.stage matches Stage::AwaitingSubmission { request, estimate } ==> {
                &&& event == Event::GasPrice(Ok(estimate.gas_price))
                &&& request.max_fee@ == estimate.gas_price@ + self.config.priority_fee@
                &&& estimate.fee@ == estimate.gas_price@ * TRANSFER_GAS_LIMIT
            })),
    {
        match self.stage {
            Stage::AwaitingBalance => match event {
                Event::Balance(Ok(balance)) => {
                    if balance.lt(&self.amount) {
                        Progress::Finished(
                            Err(
                                TransferError::InsufficientFunds {
                                    have: balance,
                                    need: self.amount,
                                },
                            ),
                        )
                    } else {
                        Progress::Pending(
                            Attempt { stage: Stage::AwaitingGasPrice { balance }, ..self },
                        )
                    }
                },
                Event::Balance(Err(message)) => Progress::Finished(
                    Err(
                        TransferError::NetworkError {
                            cause: NetworkCause { call: ClientCall::Balance, message },
                        },
                    ),
                ),
                _ => Progress::Pending(self),
            },
            Stage::AwaitingGasPrice { balance } => match event {
                Event::GasPrice(Ok(gas_price)) => {
                    let estimate = FeeEstimate::quote(gas_price).unwrap();
                    let request = TransferRequest {
                        sender: Account { address: self.sender, balance },
                        recipient: self.recipient,
                        amount: self.amount,
                        gas_limit: TRANSFER_GAS_LIMIT,
                        priority_fee: self.config.priority_fee,
                        max_fee: gas_price.checked_add(&self.config.priority_fee).unwrap(),
                    };
                    proof {
                        Wei::lemma_of_view((gas_price@ + self.config.priority_fee@) as int);
                    }
                    Progress::Pending(
                        Attempt { stage: Stage::AwaitingSubmission { request, estimate }, ..self },
                    )
                },
                Event::GasPrice(Err(message)) => Progress::Finished(
                    Err(
                        TransferError::NetworkError {
                            cause: NetworkCause { call: ClientCall::GasPrice, message },
                        },
                    ),
                ),
                _ => Progress::Pending(self),
            },
            Stage::AwaitingSubmission { .. } => match event {
                Event::Submission(Ok(tx_id)) => Progress::Pending(
                    Attempt { stage: Stage::AwaitingReceipt { tx_id }, ..self },
                ),
                Event::Submission(Err(message)) => Progress::Finished(
                    Err(
                        TransferError::NetworkError {
                            cause: NetworkCause { call: ClientCall::Submission, message },
                        },
                    ),
                ),
                _ => Progress::Pending(self),
            },
            Stage::AwaitingReceipt { tx_id } => match event {
                Event::Receipt { block_number: Some(block_number), .. } => Progress::Finished(
                    Ok(TransferOutcome::Confirmed { tx_id, block_number }),
                ),
                Event::Receipt { block_number: None, waited_ms } => {
                    let expired = match self.config.confirmation_timeout_ms {
                        Some(limit) => waited_ms >= limit,
                        None => false,
                    };
                    if expired {
                        Progress::Finished(Ok(TransferOutcome::Dropped { tx_id }))
                    } else {
                        Progress::Pending(self)
                    }
                },
                Event::Cancelled => Progress::Finished(Ok(TransferOutcome::Dropped { tx_id })),
                _ => Progress::Pending(self),
            },
        }
    }
}

/// The executor of transfers. It holds the configuration that every attempt
/// made through it starts from, and nothing of any attempt.
#[derive(Clone, Copy, Debug, PartialEq, Eq)]
pub struct TransferExecutor {
    pub config: ExecutorConfig,
}

impl TransferExecutor {
    /// An executor with the given configuration.
    pub fn new(config: ExecutorConfig) -> (r: TransferExecutor)
        ensures
            r.config == config,
    {
        TransferExecutor { config }
    }

    /// Where an attempt starts, given the sender and the recipient as far as
    /// they could be resolved: without a sender it ends with
    /// `InvalidCredentials`, else without a recipient with `InvalidAddress`,
    /// and else the sender's balance is asked for.
    pub open spec fn start(
        &self,
        sender: Option<Address>,
        recipient: Option<Address>,
        amount: Wei,
        chain_id: u64,
    ) -> Progress {
        match (sender, recipient) {
            (None, _) => Progress::Finished(Err(TransferError::InvalidCredentials)),
            (Some(_), None) => Progress::Finished(Err(TransferError::InvalidAddress)),
            (Some(sender), Some(recipient)) => Progress::Pending(
                Attempt {
                    sender,
                    recipient,
                    amount,
                    chain_id,
                    config: self.config,
                    stage: Stage::AwaitingBalance,
                },
            ),
        }
    }

    /// Begins an attempt for parties that have been resolved already.
    pub fn begin(
        &self,
        sender: Option<Address>,
        recipient: Option<Address>,
        amount: Wei,
        chain_id: u64,
    ) -> (r: Progress)
        requires
            amount@ > 0,
        ensures
            r == self.start(sender, recipient, amount, chain_id),
            r matches Progress::Pending(attempt) ==> attempt.wf(),
    {
        match sender {
            None => Progress::Finished(Err(TransferError::InvalidCredentials)),
            Some(sender) => match recipient {
                None => Progress::Finished(Err(TransferError::InvalidAddress)),
                Some(recipient) => Progress::Pending(
                    Attempt {
                        sender,
                        recipient,
                        amount,
                        chain_id,
                        config: self.config,
                        stage: Stage::AwaitingBalance,
                    },
                ),
            },
        }
    }

    /// Whether `progress` is where an attempt starts for the sender that
    /// `credentials` name and the recipient that `recipient` spells out.
    pub open spec fn starts(
        &self,
        credentials: Seq<char>,
        recipient: Seq<char>,
        amount: Wei,
        chain_id: u64,
        progress: Progress,
    ) -> bool {
        if signer_address(credentials) is None {
            progress == Progress::Finished(Err(TransferError::InvalidCredentials))
        } else if !is_address_text(recipient) {
            progress == Progress::Finished(Err(TransferError::InvalidAddress))
        } else {
            &&& progress matches Progress::Pending(attempt)
            &&& Some(attempt.sender@) == signer_address(credentials)
            &&& attempt.recipient@ == address_bytes(recipient)
            &&& attempt.amount == amount
            &&& attempt.chain_id == chain_id
            &&& attempt.config == self.config
            &&& attempt.stage == Stage::AwaitingBalance
        }
    }

    /// Begins an attempt to move `amount` from the account that `credentials`
    /// control to the account at `recipient`, on the chain `chain_id`.
    ///
    /// The credentials are resolved first, the recipient second; an attempt
    /// that fails here has asked the network for nothing.
    pub fn execute(&self, credentials: &str, recipient: &str, amount: Wei, chain_id: u64) -> (r:
        Progress)
        requires
            amount@ > 0,
        ensures
            self.starts(credentials@, recipient@, amount, chain_id, r),
            r matches Progress::Pending(attempt) ==> attempt.wf(),
    {
        let sender = resolve_signer(credentials);
        let recipient = Address::parse(recipient);
        self.begin(sender, recipient, amount, chain_id)
    }
}

} // verus!
