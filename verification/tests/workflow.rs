use transfer_factory::holding::{ActiveContract, InterfaceView};
use transfer_factory::transfer::{BuildError, InstrumentId};
use transfer_factory::transfer_factory::{HttpReply, SubmitError};
use transfer_factory::value::ViewValue;
use transfer_factory::ledger::{
    holding_filter, materialize, IdentifierFilter, LedgerError, LedgerOffset,
};
use transfer_factory::workflow::{advance, begin, Action, Event, Plan, Stage, WorkflowError};

const HOLDING: &str = "#splice-api-token-holding-v1:Splice.Api.Token.HoldingV1:Holding";

fn plan(validity: i64) -> Plan {
    Plan {
        party: "alice::1220".to_string(),
        receiver: "bob::1220".to_string(),
        amount: "0.02".to_string(),
        instrument_id: InstrumentId { admin: "dso::1220".to_string(), id: "CBTC".to_string() },
        validity,
        meta: vec![("splice.lfdecentralizedtrust.org/reason".to_string(), "".to_string())],
        exclude_debug_fields: true,
        holding_interface_id: HOLDING.to_string(),
        registry_url: "https://registry.example".to_string(),
        decentralized_party_id: "dso::1220".to_string(),
    }
}

fn holding(id: &str, instrument: &str, lock: ViewValue) -> ActiveContract {
    ActiveContract {
        contract_id: id.to_string(),
        interface_views: Some(vec![InterfaceView {
            interface_id: HOLDING.to_string(),
            view_value: ViewValue::Mapping(vec![
                (
                    "instrumentId".to_string(),
                    ViewValue::Mapping(vec![(
                        "id".to_string(),
                        ViewValue::Text(instrument.to_string()),
                    )]),
                ),
                ("lock".to_string(), lock),
            ]),
            has_created_event_blob: true,
        }]),
    }
}

fn offset(position: &str) -> LedgerOffset {
    LedgerOffset { position: position.to_string() }
}

fn two_contracts() -> Vec<ActiveContract> {
    vec![
        holding("free", "CBTC", ViewValue::Null),
        holding(
            "held",
            "CBTC",
            ViewValue::Mapping(vec![("holder".to_string(), ViewValue::Text("x".to_string()))]),
        ),
    ]
}

fn submitted(validity: i64, now: i64) -> (Stage, Action) {
    let (stage, _) = begin(plan(validity));
    let (stage, _) = advance(stage, Event::OffsetResolved(Ok(offset("00000012"))));
    advance(stage, Event::ContractsFetched { outcome: Ok(two_contracts()), now })
}

#[test]
fn workflow_starts_by_resolving_the_offset() {
    let (stage, action) = begin(plan(60));
    assert!(matches!(stage, Stage::AwaitingOffset(_)));
    assert!(matches!(action, Action::ResolveOffset));
}

#[test]
fn offset_leads_to_the_holding_query() {
    let (stage, _) = begin(plan(60));
    let (stage, action) = advance(stage, Event::OffsetResolved(Ok(offset("00000012"))));
    assert!(matches!(stage, Stage::AwaitingContracts(_)));
    match action {
        Action::FetchContracts { party, offset, filter } => {
            assert_eq!(party, "alice::1220");
            assert_eq!(offset.position, "00000012");
            let IdentifierFilter::InterfaceIdentifierFilter(f) = filter;
            assert_eq!(f.interface_id, Some(HOLDING.to_string()));
            assert!(f.include_interface_view);
            assert!(f.include_created_event_blob);
        }
        other => panic!("unexpected action: {:?}", other),
    }
}

#[test]
fn holding_filter_includes_view_and_payload() {
    let IdentifierFilter::InterfaceIdentifierFilter(f) = holding_filter("iface".to_string());
    assert_eq!(f.interface_id, Some("iface".to_string()));
    assert!(f.include_interface_view);
    assert!(f.include_created_event_blob);
}

#[test]
fn scenario_selects_exactly_the_first_of_two() {
    let (stage, action) = submitted(18_000_000_000, 1_000_000);
    assert!(matches!(stage, Stage::AwaitingReply));
    match action {
        Action::Submit { url, request } => {
            assert_eq!(
                url,
                "https://registry.example/api/token-standard/v0/registrars/dso::1220/registry/transfer-instruction/v1/transfer-factory"
            );
            let transfer = request.choice_arguments.transfer;
            assert_eq!(transfer.input_holding_cids, Some(vec!["free".to_string()]));
            assert_eq!(transfer.sender, "alice::1220");
            assert_eq!(transfer.receiver, "bob::1220");
            assert_eq!(transfer.requested_at, 1_000_000);
            assert_eq!(transfer.execute_before, 18_001_000_000);
            assert_eq!(request.choice_arguments.expected_admin, "dso::1220");
            assert!(request.exclude_debug_fields);
        }
        other => panic!("unexpected action: {:?}", other),
    }
}

#[test]
fn scenario_rejected_submission_is_surfaced() {
    let (stage, _) = submitted(60, 0);
    let reply = HttpReply { status: 400, body: "{\"error\":\"insufficient funds\"}".to_string() };
    let (stage, action) = advance(stage, Event::Replied(Ok(reply)));
    assert!(matches!(stage, Stage::Done));
    match action {
        Action::Finish(Err(WorkflowError::Submit(SubmitError::RegistrySubmission {
            status,
            body,
        }))) => {
            assert_eq!(status, 400);
            assert_eq!(body, "{\"error\":\"insufficient funds\"}");
        }
        other => panic!("unexpected action: {:?}", other),
    }
}

#[test]
fn scenario_undecodable_success_is_surfaced() {
    let (stage, _) = submitted(60, 0);
    let reply = HttpReply { status: 200, body: "this is not json".to_string() };
    let (stage, action) = advance(stage, Event::Replied(Ok(reply)));
    assert!(matches!(stage, Stage::Done));
    match action {
        Action::Finish(Err(WorkflowError::Submit(SubmitError::ResponseDecode { body, .. }))) => {
            assert_eq!(body, "this is not json");
        }
        other => panic!("unexpected action: {:?}", other),
    }
}

#[test]
fn accepted_submission_finishes_with_the_response() {
    let (stage, _) = submitted(60, 0);
    let reply = HttpReply { status: 200, body: "{\"factoryId\":\"f\"}".to_string() };
    let (stage, action) = advance(stage, Event::Replied(Ok(reply)));
    assert!(matches!(stage, Stage::Done));
    match action {
        Action::Finish(Ok(response)) => {
            assert_eq!(response.document.get("factoryId").and_then(|v| v.as_str()), Some("f"));
        }
        other => panic!("unexpected action: {:?}", other),
    }
}

#[test]
fn transport_failure_at_submission_ends_the_workflow() {
    let (stage, _) = submitted(60, 0);
    let (stage, action) = advance(stage, Event::Replied(Err("timed out".to_string())));
    assert!(matches!(stage, Stage::Done));
    match action {
        Action::Finish(Err(WorkflowError::Submit(SubmitError::Transport { reason }))) => {
            assert_eq!(reason, "timed out");
        }
        other => panic!("unexpected action: {:?}", other),
    }
}

#[test]
fn offset_failure_ends_the_workflow() {
    let (stage, _) = begin(plan(60));
    let failure = LedgerError::Auth { reason: "token expired".to_string() };
    let (stage, action) = advance(stage, Event::OffsetResolved(Err(failure)));
    assert!(matches!(stage, Stage::Done));
    match action {
        Action::Finish(Err(WorkflowError::Ledger(LedgerError::Auth { reason }))) => {
            assert_eq!(reason, "token expired");
        }
        other => panic!("unexpected action: {:?}", other),
    }
}

#[test]
fn fetch_failure_ends_the_workflow() {
    let (stage, _) = begin(plan(60));
    let (stage, _) = advance(stage, Event::OffsetResolved(Ok(offset("1"))));
    let failure = LedgerError::Protocol { reason: "bad contract payload".to_string() };
    let (stage, action) =
        advance(stage, Event::ContractsFetched { outcome: Err(failure), now: 5 });
    assert!(matches!(stage, Stage::Done));
    match action {
        Action::Finish(Err(WorkflowError::Ledger(LedgerError::Protocol { reason }))) => {
            assert_eq!(reason, "bad contract payload");
        }
        other => panic!("unexpected action: {:?}", other),
    }
    let (stage, _) = begin(plan(60));
    let (stage, _) = advance(stage, Event::OffsetResolved(Ok(offset("1"))));
    let failure = LedgerError::Transport { reason: "reset".to_string() };
    let (_, action) = advance(stage, Event::ContractsFetched { outcome: Err(failure), now: 5 });
    assert!(matches!(
        action,
        Action::Finish(Err(WorkflowError::Ledger(LedgerError::Transport { .. })))
    ));
}

#[test]
fn non_positive_validity_ends_the_workflow_before_submission() {
    for validity in [0, -1] {
        let (stage, action) = submitted(validity, 100);
        assert!(matches!(stage, Stage::Done));
        assert!(matches!(
            action,
            Action::Finish(Err(WorkflowError::Build(BuildError::NonPositiveValidity)))
        ));
    }
    let (stage, action) = submitted(1, i64::MAX);
    assert!(matches!(stage, Stage::Done));
    assert!(matches!(
        action,
        Action::Finish(Err(WorkflowError::Build(BuildError::WindowOutOfRange)))
    ));
}

#[test]
fn unawaited_event_is_ignored() {
    let (stage, _) = begin(plan(60));
    let (stage, action) = advance(stage, Event::Replied(Err("early".to_string())));
    assert!(matches!(stage, Stage::AwaitingOffset(_)));
    assert!(matches!(action, Action::Ignore));
    let (stage, action) =
        advance(stage, Event::ContractsFetched { outcome: Ok(vec![]), now: 0 });
    assert!(matches!(stage, Stage::AwaitingOffset(_)));
    assert!(matches!(action, Action::Ignore));
    let (stage, action) = advance(Stage::Done, Event::OffsetResolved(Ok(offset("1"))));
    assert!(matches!(stage, Stage::Done));
    assert!(matches!(action, Action::Ignore));
    let (stage, action) = advance(Stage::AwaitingReply, Event::OffsetResolved(Ok(offset("1"))));
    assert!(matches!(stage, Stage::AwaitingReply));
    assert!(matches!(action, Action::Ignore));
}

#[test]
fn empty_fetch_submits_with_no_holdings() {
    let (stage, _) = begin(plan(60));
    let (stage, _) = advance(stage, Event::OffsetResolved(Ok(offset("1"))));
    let (_, action) = advance(stage, Event::ContractsFetched { outcome: Ok(vec![]), now: 0 });
    match action {
        Action::Submit { request, .. } => {
            assert_eq!(request.choice_arguments.transfer.input_holding_cids, Some(vec![]));
        }
        other => panic!("unexpected action: {:?}", other),
    }
}

#[test]
fn stream_of_decoded_contracts_is_materialised_in_order() {
    let items = vec![
        Ok(holding("a", "CBTC", ViewValue::Null)),
        Ok(holding("b", "CETH", ViewValue::Null)),
        Ok(holding("c", "CBTC", ViewValue::Bool(true))),
    ];
    let contracts = materialize(items).unwrap();
    let ids: Vec<&str> = contracts.iter().map(|c| c.contract_id.as_str()).collect();
    assert_eq!(ids, vec!["a", "b", "c"]);
    assert!(materialize(vec![]).unwrap().is_empty());
}

#[test]
fn one_malformed_contract_fails_the_whole_fetch() {
    let items = vec![
        Ok(holding("a", "CBTC", ViewValue::Null)),
        Err("missing contractId".to_string()),
        Ok(holding("c", "CBTC", ViewValue::Null)),
        Err("second failure".to_string()),
    ];
    match materialize(items) {
        Err(LedgerError::Protocol { reason }) => assert_eq!(reason, "missing contractId"),
        other => panic!("unexpected outcome: {:?}", other),
    }
}
