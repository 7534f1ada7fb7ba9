//! Authorizing a transfer and following its submission.
//!
//! The authorizer builds the intent and has the identity sign it. Handing
//! the signed transfer to a provider is the caller's part; `step` says what
//! becomes of the transfer for each thing that can happen then. A signed
//! transfer is submitted once and never again, whatever the provider
//! answers.

use vstd::prelude::*;
use crate::errors::{ProviderFault, SigningError, SubmissionError};
use crate::ethereum::address_of_key;
use crate::identity::{signed_intent, SigningIdentity};
use crate::signature::{Signature, SignatureView};
use crate::transfer::{Address, Amount, TransactionHandle, TransferIntent};

verus! {

/// A transfer together with the signature that authorizes it on one chain.
#[derive(Debug)]
pub struct AuthorizedTransfer {
    pub intent: TransferIntent,
    pub chain_id: u64,
    /// The call data that was signed with the intent.
    pub call_data: Vec<u8>,
    pub signature: Signature,
}

/// Where a signed transfer stands.
#[derive(Clone, Copy, Debug, PartialEq, Eq)]
pub enum SubmissionState {
    /// Signed, not yet handed to the provider.
    Ready,
    /// Handed to the provider, which has not answered.
    InFlight,
    /// The provider took the transfer.
    Accepted(TransactionHandle),
    /// The transfer was refused, or its fate is not known.
    Failed(SubmissionError),
}

/// What can happen to a signed transfer.
#[derive(Clone, Copy, Debug, PartialEq, Eq)]
pub enum SubmissionEvent {
    /// The caller asks for the transfer to be carried out.
    Start,
    /// The provider took the transfer and named it.
    Accepted(TransactionHandle),
    /// The provider refused the transfer.
    Refused(ProviderFault),
    /// The caller gave up waiting for the provider.
    Cancelled,
}

/// What the caller is to do next.
#[derive(Clone, Copy, Debug, PartialEq, Eq, Structural)]
pub enum SubmissionAction {
    /// Hand the signed transfer to the provider.
    Submit,
    /// Nothing.
    Rest,
}

impl SubmissionState {
    /// Whether the transfer has come to an end.
    pub open spec fn is_final(self) -> bool {
        self is Accepted || self is Failed
    }

    /// The state after an event.
    pub open spec fn next(self, event: SubmissionEvent) -> SubmissionState {
        match (self, event) {
            (SubmissionState::Ready, SubmissionEvent::Start) => SubmissionState::InFlight,
            (SubmissionState::InFlight, SubmissionEvent::Accepted(handle)) => {
                SubmissionState::Accepted(handle)
            },
            (SubmissionState::InFlight, SubmissionEvent::Refused(fault)) => {
                SubmissionState::Failed(SubmissionError::SubmissionFailure(fault))
            },
            (SubmissionState::InFlight, SubmissionEvent::Cancelled) => {
                SubmissionState::Failed(SubmissionError::UnknownOutcome)
            },
            _ => self,
        }
    }

    /// What the caller is to do after an event.
    pub open spec fn action(self, event: SubmissionEvent) -> SubmissionAction {
        match (self, event) {
            (SubmissionState::Ready, SubmissionEvent::Start) => SubmissionAction::Submit,
            _ => SubmissionAction::Rest,
        }
    }

    /// The state after a sequence of events.
    pub open spec fn after(self, events: Seq<SubmissionEvent>) -> SubmissionState
        decreases events.len(),
    {
        if events.len() == 0 {
            self
        } else {
            self.next(events[0]).after(events.drop_first())
        }
    }

    /// How often a sequence of events has the caller submit.
    pub open spec fn submissions(self, events: Seq<SubmissionEvent>) -> nat
        decreases events.len(),
    {
        if events.len() == 0 {
            0
        } else {
            let first: nat = if self.action(events[0]) == SubmissionAction::Submit {
                1
            } else {
                0
            };
            first + self.next(events[0]).submissions(events.drop_first())
        }
    }

    /// What the transfer came to, once it has come to an end.
    pub open spec fn result(self) -> Option<Result<TransactionHandle, SubmissionError>> {
        match self {
            SubmissionState::Accepted(handle) => Some(Ok(handle)),
            SubmissionState::Failed(e) => Some(Err(e)),
            _ => None,
        }
    }

    /// Takes one event and says what state follows and what to do.
    pub fn step(self, event: SubmissionEvent) -> (out: (SubmissionState, SubmissionAction))
        ensures
            out.0 == self.next(event),
            out.1 == self.action(event),
    {
        match self {
            SubmissionState::Ready => match event {
                SubmissionEvent::Start => (SubmissionState::InFlight, SubmissionAction::Submit),
                _ => (self, SubmissionAction::Rest),
            },
            SubmissionState::InFlight => match event {
                SubmissionEvent::Start => (self, SubmissionAction::Rest),
                SubmissionEvent::Accepted(handle) => (
                    SubmissionState::Accepted(handle),
                    SubmissionAction::Rest,
                ),
                SubmissionEvent::Refused(fault) => (
                    SubmissionState::Failed(SubmissionError::SubmissionFailure(fault)),
                    SubmissionAction::Rest,
                ),
                SubmissionEvent::Cancelled => (
                    SubmissionState::Failed(SubmissionError::UnknownOutcome),
                    SubmissionAction::Rest,
                ),
            },
            _ => (self, SubmissionAction::Rest),
        }
    }

    /// What the transfer came to, if it has come to an end.
    pub fn outcome(self) -> (out: Option<Result<TransactionHandle, SubmissionError>>)
        ensures
            out == self.result(),
            out is Some <==> self.is_final(),
    {
        match self {
            SubmissionState::Accepted(handle) => Some(Ok(handle)),
            SubmissionState::Failed(e) => Some(Err(e)),
            _ => None,
        }
    }
}

/// Signs an intent and returns it with its signature, ready for the
/// provider.
pub fn authorize(identity: &SigningIdentity, intent: TransferIntent) -> (made: Result<
    AuthorizedTransfer,
    SigningError,
>)
    ensures
        match made {
            Ok(transfer) => transfer.intent == intent && transfer.chain_id == identity@.chain_id
                && transfer.call_data@ == intent.payload_data() && signed_intent(
                identity@,
                intent,
            ) == Ok::<SignatureView, SigningError>(transfer.signature@),
            Err(e) => signed_intent(identity@, intent) == Err::<SignatureView, SigningError>(e),
        },
{
    match identity.sign_transaction(&intent) {
        Ok(signature) => Ok(
            AuthorizedTransfer {
                intent,
                chain_id: identity.chain_id(),
                call_data: intent.call_data(),
                signature,
            },
        ),
        Err(e) => Err(e),
    }
}

/// Authorizes a transfer of the native asset from the identity's account.
pub fn authorize_native(identity: &SigningIdentity, to: Address, amount: Amount) -> (made: Result<
    AuthorizedTransfer,
    SigningError,
>)
    ensures
        match made {
            Ok(transfer) => transfer.intent.from@ == address_of_key(identity@.key)
                && transfer.intent.to == to && transfer.intent.amount == amount
                && transfer.intent.token_contract is None && transfer.chain_id
                == identity@.chain_id && transfer.call_data@ == transfer.intent.payload_data()
                && signed_intent(identity@, transfer.intent) == Ok::<SignatureView, SigningError>(
                transfer.signature@,
            ),
            Err(e) => forall|from: Address| #[trigger]
                signed_intent(
                    identity@,
                    TransferIntent { from, to, amount, token_contract: None },
                ) == Err::<SignatureView, SigningError>(e),
        },
{
    let intent = TransferIntent::native(identity.address(), to, amount);
    authorize(identity, intent)
}

/// Authorizes a transfer of tokens from the identity's account.
pub fn authorize_token(
    identity: &SigningIdentity,
    token_contract: Address,
    to: Address,
    amount: Amount,
) -> (made: Result<AuthorizedTransfer, SigningError>)
    ensures
        match made {
            Ok(transfer) => transfer.intent.from@ == address_of_key(identity@.key)
                && transfer.intent.to == to && transfer.intent.amount == amount
                && transfer.intent.token_contract == Some(token_contract) && transfer.chain_id
                == identity@.chain_id && transfer.call_data@ == transfer.intent.payload_data()
                && signed_intent(identity@, transfer.intent) == Ok::<SignatureView, SigningError>(
                transfer.signature@,
            ),
            Err(e) => forall|from: Address| #[trigger]
                signed_intent(
                    identity@,
                    TransferIntent { from, to, amount, token_contract: Some(token_contract) },
                ) == Err::<SignatureView, SigningError>(e),
        },
{
    let intent = TransferIntent::token(identity.address(), token_contract, to, amount);
    authorize(identity, intent)
}

/// Only a transfer that is ready is ever submitted, and it is in flight
/// afterwards.
pub proof fn lemma_submit_only_when_ready(state: SubmissionState, event: SubmissionEvent)
    ensures
        state.action(event) == SubmissionAction::Submit ==> state is Ready && state.next(event)
            is InFlight,
        !(state is Ready) ==> !(state.next(event) is Ready),
        state.is_final() ==> state.next(event) == state,
{
}

/// A transfer that has come to an end stays as it is and is not submitted
/// again, whatever happens.
pub proof fn lemma_final_is_final(state: SubmissionState, events: Seq<SubmissionEvent>)
    requires
        state.is_final(),
    ensures
        state.after(events) == state,
        state.submissions(events) == 0,
    decreases events.len(),
{
    if events.len() > 0 {
        lemma_final_is_final(state, events.drop_first());
    }
}

/// Whatever happens, a transfer is submitted at most once, and not at all
/// once it has left the ready state.
pub proof fn lemma_single_submission(state: SubmissionState, events: Seq<SubmissionEvent>)
    ensures
        state.submissions(events) <= 1,
        !(state is Ready) ==> state.submissions(events) == 0,
    decreases events.len(),
{
    if events.len() > 0 {
        lemma_single_submission(state.next(events[0]), events.drop_first());
    }
}

/// A refusal by the provider ends the transfer with the provider's reason:
/// nothing that happens later changes that, and nothing is submitted again.
pub proof fn lemma_refusal_is_not_retried(fault: ProviderFault, later: Seq<SubmissionEvent>)
    ensures
        SubmissionState::InFlight.next(SubmissionEvent::Refused(fault)).after(later).result()
            == Some(
            Err::<TransactionHandle, SubmissionError>(SubmissionError::SubmissionFailure(fault)),
        ),
        SubmissionState::InFlight.next(SubmissionEvent::Refused(fault)).submissions(later) == 0,
{
    lemma_final_is_final(
        SubmissionState::Failed(SubmissionError::SubmissionFailure(fault)),
        later,
    );
}

} // verus!
