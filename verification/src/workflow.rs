//! The transfer workflow as a sequence of decisions.
//!
//! The steps are strictly sequential: resolve the ledger offset, fetch the
//! party's active holding contracts at that offset, select the eligible ones,
//! build the request, submit it. This module decides what to do next; the
//! caller performs each action and reports what came of it. The first failure
//! ends the workflow, and nothing is retried.

use vstd::prelude::*;
use crate::holding::ActiveContract;
use crate::holding::HoldingSelectionCriteria;
use crate::holding::contract_ids;
use crate::holding::eligible;
use crate::holding::holding_ids;
use crate::holding::lowercase_of;
use crate::holding::select;
use crate::holding::selection;
use crate::holding::selection_is_sound;
use crate::ledger::IdentifierFilter;
use crate::ledger::InterfaceFilter;
use crate::ledger::LedgerError;
use crate::ledger::LedgerOffset;
use crate::ledger::holding_filter;
use crate::transfer::BuildError;
use crate::transfer::InstrumentId;
use crate::transfer::Meta;
use crate::transfer::build_transfer;
use crate::transfer_factory::HttpReply;
use crate::transfer_factory::Request;
use crate::transfer_factory::Response;
use crate::transfer_factory::SubmitError;
use crate::transfer_factory::conclude;
use crate::transfer_factory::concludes;
use crate::transfer_factory::endpoint;
use crate::transfer_factory::endpoint_of;

verus! {

/// The first failure of a workflow.
#[derive(Debug)]
pub enum WorkflowError {
    Ledger(LedgerError),
    Build(BuildError),
    Submit(SubmitError),
}

/// Everything a workflow is told at its start.
#[derive(Debug)]
pub struct Plan {
    /// The party whose holdings are spent; the sender of the transfer.
    pub party: String,
    pub receiver: String,
    pub amount: String,
    pub instrument_id: InstrumentId,
    /// How long the transfer stays valid, in microseconds.
    pub validity: i64,
    pub meta: Vec<(String, String)>,
    pub exclude_debug_fields: bool,
    /// The interface through which holdings are viewed.
    pub holding_interface_id: String,
    pub registry_url: String,
    pub decentralized_party_id: String,
}

/// Where a workflow stands.
#[derive(Debug)]
pub enum Stage {
    AwaitingOffset(Plan),
    AwaitingContracts(Plan),
    AwaitingReply,
    Done,
}

/// What the caller reports back.
#[derive(Debug)]
pub enum Event {
    /// The ledger's current offset for the party, or why it could not be had.
    OffsetResolved(Result<LedgerOffset, LedgerError>),
    /// The active contracts at the offset, and the time at which they arrived,
    /// in microseconds since the Unix epoch.
    ContractsFetched { outcome: Result<Vec<ActiveContract>, LedgerError>, now: i64 },
    /// The registry's reply, or why none came.
    Replied(Result<HttpReply, String>),
}

/// What the caller is to do next.
#[derive(Debug)]
pub enum Action {
    ResolveOffset,
    FetchContracts { party: String, offset: LedgerOffset, filter: IdentifierFilter },
    Submit { url: String, request: Request },
    Finish(Result<Response, WorkflowError>),
    /// The event was not the one awaited; it is ignored.
    Ignore,
}

/// Whether `request` is the one this workflow posts for the given inputs: it
/// holds them unchanged, its window runs from `now` for `validity`, and it is
/// funded by exactly the eligible holdings among `contracts`, in their order.
pub open spec fn spends_selection(
    request: Request,
    contracts: Seq<ActiveContract>,
    sender: String,
    receiver: String,
    amount: String,
    instrument_id: InstrumentId,
    now: i64,
    validity: i64,
    meta: Vec<(String, String)>,
    exclude_debug_fields: bool,
) -> bool {
    let transfer = request.choice_arguments.transfer;
    &&& request.exclude_debug_fields == exclude_debug_fields
    &&& request.choice_arguments.expected_admin == instrument_id.admin
    &&& request.choice_arguments.extra_args.context.values@.len() == 0
    &&& request.choice_arguments.extra_args.meta.values@.len() == 0
    &&& transfer.sender == sender
    &&& transfer.receiver == receiver
    &&& transfer.amount == amount
    &&& transfer.instrument_id == instrument_id
    &&& transfer.requested_at == now
    &&& transfer.execute_before == now + validity
    &&& transfer.meta == Some(Meta { values: Some(meta) })
    &&& transfer.input_holding_cids is Some
    &&& transfer.input_holding_cids->Some_0@ == contract_ids(
        selection(contracts, instrument_id.id@),
    )
}

/// Selects the unlocked holdings of `instrument_id` among `contracts` and
/// assembles the request that transfers `amount` of it, funded by exactly
/// those holdings, in the order in which they were fetched.
///
/// The holdings named in the request are therefore always contracts that were
/// given, and always eligible ones. Fails as `build_transfer` does, on a
/// validity that is not positive or a window that cannot be represented.
pub fn prepare_request(
    contracts: &Vec<ActiveContract>,
    sender: String,
    receiver: String,
    amount: String,
    instrument_id: InstrumentId,
    now: i64,
    validity: i64,
    meta: Vec<(String, String)>,
    exclude_debug_fields: bool,
) -> (prepared: Result<Request, BuildError>)
    ensures
        validity <= 0 ==> prepared == Err::<Request, BuildError>(BuildError::NonPositiveValidity),
        validity > 0 && now + validity > i64::MAX ==> prepared == Err::<Request, BuildError>(
            BuildError::WindowOutOfRange,
        ),
        validity > 0 && now + validity <= i64::MAX ==> prepared is Ok && spends_selection(
            prepared->Ok_0,
            contracts@,
            sender,
            receiver,
            amount,
            instrument_id,
            now,
            validity,
            meta,
            exclude_debug_fields,
        ),
{
    let criteria = HoldingSelectionCriteria { instrument_id: instrument_id.id.clone() };
    let chosen = select(contracts, &criteria);
    let ids = holding_ids(&chosen);
    match build_transfer(sender, receiver, amount, instrument_id, now, validity, ids, meta) {
        Ok(transfer) => Ok(Request::new(transfer, exclude_debug_fields)),
        Err(error) => Err(error),
    }
}

/// Starts a workflow: the first thing to do is to resolve the offset.
pub fn begin(plan: Plan) -> (started: (Stage, Action))
    ensures
        started.0 == Stage::AwaitingOffset(plan),
        started.1 == Action::ResolveOffset,
{
    (Stage::AwaitingOffset(plan), Action::ResolveOffset)
}

/// What follows the offset: the contract query at that offset, for the
/// plan's party and through the holding interface.
pub open spec fn follows_offset(
    plan: Plan,
    outcome: Result<LedgerOffset, LedgerError>,
    next: Stage,
    action: Action,
) -> bool {
    match outcome {
        Ok(offset) => next == Stage::AwaitingContracts(plan) && action == (Action::FetchContracts {
            party: plan.party,
            offset,
            filter: IdentifierFilter::InterfaceIdentifierFilter(
                InterfaceFilter {
                    interface_id: Some(plan.holding_interface_id),
                    include_interface_view: true,
                    include_created_event_blob: true,
                },
            ),
        }),
        Err(error) => next == Stage::Done && action == Action::Finish(
            Err(WorkflowError::Ledger(error)),
        ),
    }
}

/// What follows the contracts: the submission of the request that spends the
/// eligible ones, to the plan's registry.
pub open spec fn follows_contracts(
    plan: Plan,
    outcome: Result<Vec<ActiveContract>, LedgerError>,
    now: i64,
    next: Stage,
    action: Action,
) -> bool {
    match outcome {
        Err(error) => next == Stage::Done && action == Action::Finish(
            Err(WorkflowError::Ledger(error)),
        ),
        Ok(contracts) => if plan.validity <= 0 {
            next == Stage::Done && action == Action::Finish(
                Err(WorkflowError::Build(BuildError::NonPositiveValidity)),
            )
        } else if now + plan.validity > i64::MAX {
            next == Stage::Done && action == Action::Finish(
                Err(WorkflowError::Build(BuildError::WindowOutOfRange)),
            )
        } else {
            &&& next == Stage::AwaitingReply
            &&& action is Submit
            &&& action->Submit_url@ == endpoint_of(
                plan.registry_url@,
                plan.decentralized_party_id@,
            )
            &&& spends_selection(
                action->Submit_request,
                contracts@,
                plan.party,
                plan.receiver,
                plan.amount,
                plan.instrument_id,
                now,
                plan.validity,
                plan.meta,
                plan.exclude_debug_fields,
            )
        },
    }
}

/// What follows the registry's reply: the end, with the response or the
/// error that the exchange means.
pub open spec fn follows_reply(
    exchange: Result<HttpReply, String>,
    next: Stage,
    action: Action,
) -> bool {
    &&& next == Stage::Done
    &&& action is Finish
    &&& match action->Finish_0 {
        Ok(response) => concludes(exchange, Ok(response)),
        Err(WorkflowError::Submit(error)) => concludes(exchange, Err(error)),
        Err(_) => false,
    }
}

/// The step relation of the workflow. An event that the stage does not await
/// leaves the stage as it is.
pub open spec fn follows(stage: Stage, event: Event, next: Stage, action: Action) -> bool {
    match (stage, event) {
        (Stage::AwaitingOffset(plan), Event::OffsetResolved(outcome)) => follows_offset(
            plan,
            outcome,
            next,
            action,
        ),
        (
            Stage::AwaitingContracts(plan),
            Event::ContractsFetched { outcome, now },
        ) => follows_contracts(plan, outcome, now, next, action),
        (Stage::AwaitingReply, Event::Replied(exchange)) => follows_reply(exchange, next, action),
        _ => next == stage && action == Action::Ignore,
    }
}

/// Takes one step: from where the workflow stands and what the caller
/// reports, to where it stands next and what the caller is to do.
pub fn advance(stage: Stage, event: Event) -> (step: (Stage, Action))
    ensures
        follows(stage, event, step.0, step.1),
{
    match stage {
        Stage::AwaitingOffset(plan) => match event {
            Event::OffsetResolved(Ok(offset)) => {
                let party = plan.party.clone();
                let filter = holding_filter(plan.holding_interface_id.clone());
                (Stage::AwaitingContracts(plan), Action::FetchContracts { party, offset, filter })
            },
            Event::OffsetResolved(Err(error)) => (
                Stage::Done,
                Action::Finish(Err(WorkflowError::Ledger(error))),
            ),
            _ => (Stage::AwaitingOffset(plan), Action::Ignore),
        },
        Stage::AwaitingContracts(plan) => match event {
            Event::ContractsFetched { outcome: Ok(contracts), now } => {
                let url = endpoint(
                    plan.registry_url.as_str(),
                    plan.decentralized_party_id.as_str(),
                );
                let prepared = prepare_request(
                    &contracts,
                    plan.party,
                    plan.receiver,
                    plan.amount,
                    plan.instrument_id,
                    now,
                    plan.validity,
                    plan.meta,
                    plan.exclude_debug_fields,
                );
                match prepared {
                    Ok(request) => (Stage::AwaitingReply, Action::Submit { url, request }),
                    Err(error) => (Stage::Done, Action::Finish(Err(WorkflowError::Build(error)))),
                }
            },
            Event::ContractsFetched { outcome: Err(error), now: _ } => (
                Stage::Done,
                Action::Finish(Err(WorkflowError::Ledger(error))),
            ),
            _ => (Stage::AwaitingContracts(plan), Action::Ignore),
        },
        Stage::AwaitingReply => match event {
            Event::Replied(exchange) => match conclude(exchange) {
                Ok(response) => (Stage::Done, Action::Finish(Ok(response))),
                Err(error) => (Stage::Done, Action::Finish(Err(WorkflowError::Submit(error)))),
            },
            _ => (Stage::AwaitingReply, Action::Ignore),
        },
        Stage::Done => (Stage::Done, Action::Ignore),
    }
}

/// A failure at any step ends the workflow at once, with that failure, and
/// asks for no further action.
pub proof fn first_failure_ends(stage: Stage, event: Event, next: Stage, action: Action)
    requires
        follows(stage, event, next, action),
        action is Finish,
    ensures
        next == Stage::Done,
{
}

/// Whether `id` is the contract id of an eligible contract among `contracts`.
pub open spec fn names_eligible_holding(
    id: String,
    contracts: Seq<ActiveContract>,
    instrument: Seq<char>,
) -> bool {
    exists|j: int|
        0 <= j < contracts.len() && eligible(#[trigger] contracts[j], lowercase_of(instrument))
            && contracts[j].contract_id == id
}

/// Whatever is submitted is funded only by contracts that were fetched, each
/// of them eligible, and must be executed strictly after it was requested.
pub proof fn submission_spends_fetched_holdings(
    plan: Plan,
    contracts: Vec<ActiveContract>,
    now: i64,
    next: Stage,
    action: Action,
)
    requires
        follows_contracts(plan, Ok(contracts), now, next, action),
        action is Submit,
    ensures
        action->Submit_request.choice_arguments.transfer.window_is_valid(),
        action->Submit_request.choice_arguments.transfer.input_holding_cids is Some,
        forall|i: int|
            #![trigger action->Submit_request.choice_arguments.transfer.input_holding_cids->Some_0@[i]]
            0 <= i
                < action->Submit_request.choice_arguments.transfer.input_holding_cids->Some_0@.len()
                ==> names_eligible_holding(
                action->Submit_request.choice_arguments.transfer.input_holding_cids->Some_0@[i],
                contracts@,
                plan.instrument_id.id@,
            ),
{
    let ids = action->Submit_request.choice_arguments.transfer.input_holding_cids->Some_0@;
    let chosen = selection(contracts@, plan.instrument_id.id@);
    selection_is_sound(contracts@, plan.instrument_id.id@);
    assert forall|i: int| 0 <= i < ids.len() implies names_eligible_holding(
        #[trigger] ids[i],
        contracts@,
        plan.instrument_id.id@,
    ) by {
        assert(contracts@.contains(chosen[i]));
        let j = choose|j: int| 0 <= j < contracts@.len() && contracts@[j] == chosen[i];
        assert(eligible(contracts@[j], lowercase_of(plan.instrument_id.id@)));
        assert(contracts@[j].contract_id == ids[i]);
    }
}

} // verus!
