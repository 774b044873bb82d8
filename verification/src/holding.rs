//! Selecting the holdings that may fund a transfer.
//!
//! A contract is eligible when at least one of its interface views names the
//! wanted instrument, compared without regard to case, and carries a `lock`
//! field that is present and null. A view that lacks either field, or holds
//! something of another shape there, simply does not match: selection never
//! fails.

use vstd::prelude::*;
use crate::value::ViewValue;

verus! {

/// A contract's data as seen through one interface it implements.
#[derive(Debug)]
pub struct InterfaceView {
    pub interface_id: String,
    pub view_value: ViewValue,
    pub has_created_event_blob: bool,
}

/// A contract currently active on the ledger.
#[derive(Debug)]
pub struct ActiveContract {
    pub contract_id: String,
    pub interface_views: Option<Vec<InterfaceView>>,
}

/// What a holding must satisfy to be selected: it is of the given instrument,
/// and it is not locked.
#[derive(Debug)]
pub struct HoldingSelectionCriteria {
    pub instrument_id: String,
}

/// The lowercase form of a text, as `str::to_lowercase` computes it.
pub uninterp spec fn lowercase_of(text: Seq<char>) -> Seq<char>;

/// Calls `str::to_lowercase`, which returns the lowercase equivalent of the
/// string as a new `String`. The mapping is not spelled out here; the contract
/// only gives the result its name.
#[verifier::external_body]
fn to_lowercase(text: &str) -> (lowered: String)
    ensures
        lowered@ == lowercase_of(text@),
{
    text.to_lowercase()
}

/// The instrument a view speaks of: the string at `instrumentId.id`.
pub open spec fn instrument_of(view_value: ViewValue) -> Option<Seq<char>> {
    match view_value.field("instrumentId"@) {
        Some(instrument) => match instrument.field("id"@) {
            Some(id) => id.text(),
            None => None,
        },
        None => None,
    }
}

/// Whether a view carries a `lock` field whose value is null.
pub open spec fn lock_is_null(view_value: ViewValue) -> bool {
    view_value.field("lock"@) == Some(ViewValue::Null)
}

/// Whether a view's instrument, once lowered, is the one wanted.
pub open spec fn names_instrument(view_value: ViewValue, lowered_target: Seq<char>) -> bool {
    match instrument_of(view_value) {
        Some(id) => lowercase_of(id) == lowered_target,
        None => false,
    }
}

/// A view is eligible when it names the instrument and its lock is null.
pub open spec fn view_eligible(view: InterfaceView, lowered_target: Seq<char>) -> bool {
    names_instrument(view.view_value, lowered_target) && lock_is_null(view.view_value)
}

/// Whether at least one of the views is eligible.
pub open spec fn any_view_eligible(
    views: Seq<InterfaceView>,
    lowered_target: Seq<char>,
) -> bool {
    exists|i: int| 0 <= i < views.len() && #[trigger] view_eligible(views[i], lowered_target)
}

/// A contract without views is never eligible.
pub open spec fn eligible(contract: ActiveContract, lowered_target: Seq<char>) -> bool {
    match contract.interface_views {
        Some(views) => any_view_eligible(views@, lowered_target),
        None => false,
    }
}

/// Eligibility for one instrument, as a predicate on contracts.
pub open spec fn eligibility(lowered_target: Seq<char>) -> spec_fn(ActiveContract) -> bool {
    |contract: ActiveContract| eligible(contract, lowered_target)
}

/// The eligible contracts, in the order in which they were given.
pub open spec fn selection(contracts: Seq<ActiveContract>, target: Seq<char>) -> Seq<
    ActiveContract,
> {
    contracts.filter(eligibility(lowercase_of(target)))
}

/// The contracts that a sequence of references points at.
pub open spec fn referents(refs: Seq<&ActiveContract>) -> Seq<ActiveContract> {
    Seq::new(refs.len(), |i: int| *refs[i])
}

/// The contract ids of a sequence of contracts, in order.
pub open spec fn contract_ids(contracts: Seq<ActiveContract>) -> Seq<String> {
    Seq::new(contracts.len(), |i: int| contracts[i].contract_id)
}

/// Reads `instrumentId.id` from a view value.
pub fn instrument_id(view_value: &ViewValue) -> (id: Option<&str>)
    ensures
        match id {
            Some(s) => instrument_of(*view_value) == Some(s@),
            None => instrument_of(*view_value) is None,
        },
{
    match view_value.get("instrumentId") {
        Some(instrument) => match instrument.get("id") {
            Some(id) => id.as_str(),
            None => None,
        },
        None => None,
    }
}

/// Whether the view value has a `lock` field that is explicitly null.
pub fn has_null_lock(view_value: &ViewValue) -> (unlocked: bool)
    ensures
        unlocked == lock_is_null(*view_value),
{
    match view_value.get("lock") {
        Some(lock) => lock.is_null(),
        None => false,
    }
}

/// Decides one view against an instrument id that is already in lowercase.
pub fn view_is_eligible(view: &InterfaceView, lowered_target: &str) -> (ok: bool)
    ensures
        ok == view_eligible(*view, lowered_target@),
{
    match instrument_id(&view.view_value) {
        Some(id) => {
            let lowered = to_lowercase(id);
            lowered == lowered_target.to_owned() && has_null_lock(&view.view_value)
        },
        None => false,
    }
}

/// Decides one contract against an instrument id that is already in lowercase.
pub fn is_eligible(contract: &ActiveContract, lowered_target: &str) -> (ok: bool)
    ensures
        ok == eligible(*contract, lowered_target@),
{
    match &contract.interface_views {
        Some(views) => {
            let mut i: usize = 0;
            while i < views.len()
                invariant
                    contract.interface_views == Some(*views),
                    i <= views.len(),
                    forall|j: int| 0 <= j < i ==> !view_eligible(views@[j], lowered_target@),
                decreases views.len() - i,
            {
                if view_is_eligible(&views[i], lowered_target) {
                    assert(view_eligible(views@[i as int], lowered_target@));
                    return true;
                }
                i += 1;
            }
            false
        },
        None => false,
    }
}

/// Picks the contracts that satisfy the criteria, keeping their order and
/// keeping duplicates.
pub fn select<'a>(contracts: &'a Vec<ActiveContract>, criteria: &HoldingSelectionCriteria) -> (chosen:
    Vec<&'a ActiveContract>)
    ensures
        referents(chosen@) == selection(contracts@, criteria.instrument_id@),
{
    let lowered = to_lowercase(criteria.instrument_id.as_str());
    let ghost wanted = eligibility(lowered@);
    let mut chosen: Vec<&ActiveContract> = Vec::new();
    let mut i: usize = 0;
    proof {
        reveal(Seq::filter);
        assert(referents(chosen@) =~= contracts@.take(0).filter(wanted));
    }
    while i < contracts.len()
        invariant
            i <= contracts.len(),
            wanted == eligibility(lowered@),
            referents(chosen@) == contracts@.take(i as int).filter(wanted),
        decreases contracts.len() - i,
    {
        let contract = &contracts[i];
        let ghost before = chosen@;
        proof {
            contracts@.take(i as int).lemma_filter_push(*contract, wanted);
            assert(contracts@.take(i as int).push(*contract) =~= contracts@.take(i + 1));
        }
        if is_eligible(contract, lowered.as_str()) {
            chosen.push(contract);
            assert(referents(chosen@) =~= referents(before).push(*contract));
        }
        i += 1;
    }
    assert(contracts@.take(i as int) =~= contracts@);
    chosen
}

/// The contract ids of the chosen holdings, in order.
pub fn holding_ids(chosen: &Vec<&ActiveContract>) -> (ids: Vec<String>)
    ensures
        ids@ == contract_ids(referents(chosen@)),
{
    let mut ids: Vec<String> = Vec::new();
    let mut i: usize = 0;
    while i < chosen.len()
        invariant
            i <= chosen.len(),
            ids@.len() == i,
            forall|j: int| 0 <= j < i ==> ids@[j] == chosen@[j].contract_id,
        decreases chosen.len() - i,
    {
        ids.push(chosen[i].contract_id.clone());
        i += 1;
    }
    assert(ids@ =~= contract_ids(referents(chosen@)));
    ids
}

/// Selection returns only contracts that were given to it, and only eligible
/// ones: each has a view that names the instrument and has a null lock.
pub proof fn selection_is_sound(contracts: Seq<ActiveContract>, target: Seq<char>)
    ensures
        forall|i: int|
            0 <= i < selection(contracts, target).len() ==> contracts.contains(
                #[trigger] selection(contracts, target)[i],
            ) && eligible(selection(contracts, target)[i], lowercase_of(target)),
        selection(contracts, target).len() <= contracts.len(),
{
    let wanted = eligibility(lowercase_of(target));
    let chosen = contracts.filter(wanted);
    contracts.lemma_filter_len(wanted);
    assert forall|i: int| 0 <= i < chosen.len() implies contracts.contains(#[trigger] chosen[i])
        && eligible(chosen[i], lowercase_of(target)) by {
        contracts.lemma_filter_pred(wanted, i);
        assert(chosen.contains(chosen[i]));
        contracts.lemma_filter_contains_rev(wanted, chosen[i]);
    }
}

/// Selection misses nothing: every eligible contract given is returned.
pub proof fn selection_is_complete(contracts: Seq<ActiveContract>, target: Seq<char>, i: int)
    requires
        0 <= i < contracts.len(),
        eligible(contracts[i], lowercase_of(target)),
    ensures
        selection(contracts, target).contains(contracts[i]),
{
    contracts.lemma_filter_contains(eligibility(lowercase_of(target)), i);
}

/// Two spellings of an instrument id that agree once lowered select the same
/// holdings.
pub proof fn selection_ignores_case(
    contracts: Seq<ActiveContract>,
    target: Seq<char>,
    other: Seq<char>,
)
    requires
        lowercase_of(target) == lowercase_of(other),
    ensures
        selection(contracts, target) == selection(contracts, other),
{
}

/// Two views whose instrument ids agree once lowered name the same
/// instruments.
pub proof fn instrument_case_is_ignored(
    view_value: ViewValue,
    other: ViewValue,
    lowered_target: Seq<char>,
)
    requires
        instrument_of(view_value) is Some,
        instrument_of(other) is Some,
        lowercase_of(instrument_of(view_value)->Some_0) == lowercase_of(
            instrument_of(other)->Some_0,
        ),
    ensures
        names_instrument(view_value, lowered_target) == names_instrument(other, lowered_target),
{
}

/// For a view of the wanted instrument the lock decides: the view is eligible
/// when `lock` is present and null, and not when it is absent or holds
/// anything else.
pub proof fn lock_decides(view: InterfaceView, lowered_target: Seq<char>)
    requires
        names_instrument(view.view_value, lowered_target),
    ensures
        view.view_value.field("lock"@) == Some(ViewValue::Null) ==> view_eligible(view, lowered_target),
        view.view_value.field("lock"@) is None ==> !view_eligible(view, lowered_target),
        view.view_value.field("lock"@) is Some && view.view_value.field("lock"@)->Some_0
            != ViewValue::Null ==> !view_eligible(view, lowered_target),
{
}

/// Selecting again from what was selected changes nothing.
pub proof fn selection_is_idempotent(contracts: Seq<ActiveContract>, target: Seq<char>)
    ensures
        selection(selection(contracts, target), target) == selection(contracts, target),
    decreases contracts.len(),
{
    let wanted = eligibility(lowercase_of(target));
    reveal(Seq::filter);
    if contracts.len() > 0 {
        let front = contracts.drop_last();
        selection_is_idempotent(front, target);
        if wanted(contracts.last()) {
            front.filter(wanted).lemma_filter_push(contracts.last(), wanted);
        }
    }
}

/// Selection is a function of its input: two results for the same contracts
/// and the same instrument id are the same sequence.
pub proof fn selection_is_repeatable(
    contracts: Seq<ActiveContract>,
    target: Seq<char>,
    first: Seq<ActiveContract>,
    second: Seq<ActiveContract>,
)
    requires
        first == selection(contracts, target),
        second == selection(contracts, target),
    ensures
        first == second,
{
}

} // verus!
