//! What the workflow asks of the ledger, and what it gets back.

use vstd::prelude::*;
use crate::holding::ActiveContract;

verus! {

/// A position in a party's ledger stream. Opaque: it is obtained from the
/// ledger and handed back to it unchanged.
#[derive(Debug)]
pub struct LedgerOffset {
    pub position: String,
}

/// Why a query to the ledger failed.
#[derive(Debug)]
pub enum LedgerError {
    /// The connection failed.
    Transport { reason: String },
    /// The ledger rejected the credentials.
    Auth { reason: String },
    /// The ledger's answer, or one contract in it, could not be decoded.
    Protocol { reason: String },
}

/// Restricts a contract query to one interface.
#[derive(Debug)]
pub struct InterfaceFilter {
    pub interface_id: Option<String>,
    pub include_interface_view: bool,
    pub include_created_event_blob: bool,
}

/// The selector of a contract query.
#[derive(Debug)]
pub enum IdentifierFilter {
    InterfaceIdentifierFilter(InterfaceFilter),
}

/// The query filter of this workflow: one interface, with the decoded view
/// and the raw creation payload both included.
pub fn holding_filter(interface_id: String) -> (filter: IdentifierFilter)
    ensures
        filter == IdentifierFilter::InterfaceIdentifierFilter(
            InterfaceFilter {
                interface_id: Some(interface_id),
                include_interface_view: true,
                include_created_event_blob: true,
            },
        ),
{
    IdentifierFilter::InterfaceIdentifierFilter(
        InterfaceFilter {
            interface_id: Some(interface_id),
            include_interface_view: true,
            include_created_event_blob: true,
        },
    )
}

/// The reason of the first item at or after `from` that failed to decode.
pub open spec fn first_failure_from(
    items: Seq<Result<ActiveContract, String>>,
    from: int,
) -> Option<String>
    decreases items.len() - from,
{
    if from < 0 || from >= items.len() {
        None
    } else {
        match items[from] {
            Err(reason) => Some(reason),
            Ok(_) => first_failure_from(items, from + 1),
        }
    }
}

/// The reason of the first item that failed to decode, if any did.
pub open spec fn first_failure(items: Seq<Result<ActiveContract, String>>) -> Option<String> {
    first_failure_from(items, 0)
}

/// A failure is reported exactly when some item failed, and the one
/// reported is the first: everything before it decoded.
pub proof fn first_failure_is_first(items: Seq<Result<ActiveContract, String>>, from: int)
    requires
        0 <= from,
    ensures
        match first_failure_from(items, from) {
            Some(reason) => exists|i: int|
                from <= i < items.len() && #[trigger] items[i] == Err::<ActiveContract, String>(
                    reason,
                ) && forall|j: int| from <= j < i ==> (#[trigger] items[j]) is Ok,
            None => forall|i: int| from <= i < items.len() ==> (#[trigger] items[i]) is Ok,
        },
    decreases items.len() - from,
{
    if from < items.len() {
        match items[from] {
            Err(reason) => {
                assert(items[from] == Err::<ActiveContract, String>(reason) && forall|j: int|
                    from <= j < from ==> (#[trigger] items[j]) is Ok);
            },
            Ok(_) => {
                first_failure_is_first(items, from + 1);
                match first_failure_from(items, from + 1) {
                    Some(reason) => {
                        let i = choose|i: int|
                            from + 1 <= i < items.len() && #[trigger] items[i] == Err::<
                                ActiveContract,
                                String,
                            >(reason) && forall|j: int|
                                from + 1 <= j < i ==> (#[trigger] items[j]) is Ok;
                        assert(from <= i < items.len() && items[i] == Err::<
                            ActiveContract,
                            String,
                        >(reason) && forall|j: int| from <= j < i ==> (#[trigger] items[j]) is Ok);
                    },
                    None => {},
                }
            },
        }
    }
}

/// The contracts of a stream in which every item decoded.
pub open spec fn decoded(items: Seq<Result<ActiveContract, String>>) -> Seq<ActiveContract> {
    Seq::new(items.len(), |i: int| items[i]->Ok_0)
}

/// Materialises the result of a contract query. One item that failed to
/// decode fails the whole query, with the reason of the first such item:
/// nothing is skipped silently.
pub fn materialize(items: Vec<Result<ActiveContract, String>>) -> (fetched: Result<
    Vec<ActiveContract>,
    LedgerError,
>)
    ensures
        match first_failure(items@) {
            Some(reason) => fetched == Err::<Vec<ActiveContract>, LedgerError>(
                LedgerError::Protocol { reason },
            ),
            None => fetched is Ok && fetched->Ok_0@ == decoded(items@),
        },
{
    let mut contracts: Vec<ActiveContract> = Vec::new();
    for item in iter: items
        invariant
            iter.seq() == items@,
            contracts@ == decoded(items@.take(iter.index() as int)),
            first_failure(items@) == first_failure_from(items@, iter.index() as int),
    {
        match item {
            Ok(contract) => {
                assert(first_failure_from(items@, iter.index() as int) == first_failure_from(
                    items@,
                    iter.index() + 1,
                ));
                contracts.push(contract);
                assert(contracts@ =~= decoded(items@.take(iter.index() + 1)));
            },
            Err(reason) => {
                return Err(LedgerError::Protocol { reason });
            },
        }
    }
    assert(items@.take(items@.len() as int) =~= items@);
    Ok(contracts)
}

} // verus!
