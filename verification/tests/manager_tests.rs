use sip_transaction::addressing::{
    ack_destination_candidates, best_transport_for_scheme, get_best_transport_for_uri, via_ack_candidates,
    websocket_status, AddrCandidate,
    TransportChoice, TransportSupport,
};
use sip_transaction::client_invite::{ClientInviteLogic, ClientInviteTimers};
use sip_transaction::common_logic::handle_response_by_status;
use sip_transaction::error::{Error, HeaderField};
use sip_transaction::event::{Action, TimerKind, TuEvent};
use sip_transaction::key::TransactionKey;
use sip_transaction::routing::{route_transport_request, RequestRoute};
use sip_transaction::common_logic::handle_response_for_client_transaction;
use sip_transaction::event::TuEvent as Ev;
use sip_transaction::manager::{
    client_via, plan_client_transaction, choose_ack_destination, extract_cseq, find_transaction_by_message, plan_server_transaction, poll_step,
    remove_terminated_transaction, transaction_exists, PollStep, ServerTransactionPlan,
};
use sip_transaction::message::{CSeqInfo, Message, Party, RequestInfo, ResponseInfo};
use sip_transaction::method::Method;
use sip_transaction::runner::{
    apply_transition, dispatch_logic_result, run_command, LogicFollowUp, RunnerCommand, TransactionCore,
    TransitionOutcome,
};
use sip_transaction::state::{validate_transition, TransactionKind, TransactionLifecycle, TransactionState};
use sip_transaction::subscriptions::{broadcast_plan, BroadcastKind, SubscriberRegistry};
use sip_transaction::table::{DialogIds, TransactionRecord, TransactionTable};
use sip_transaction::text_scan::{find_text, parse_u16_text};
use sip_transaction::timer::{TimerManager, TimerSettings};

fn key(branch: &str, method: Method, server: bool) -> TransactionKey {
    TransactionKey::new(branch.to_string(), method, server)
}

fn record(k: TransactionKey, kind: TransactionKind, state: TransactionState) -> TransactionRecord {
    TransactionRecord {
        key: k,
        kind,
        core: TransactionCore::new(state),
        dialog: DialogIds { call_id: None, from_tag: None, to_tag: None },
    }
}

fn request(method: Method, branch: Option<&str>) -> RequestInfo {
    RequestInfo {
        method: method.clone(),
        uri: "sip:bob@example.com".to_string(),
        via_branches: vec![branch.map(|b| b.to_string())],
        call_id: Some("call-1".to_string()),
        from: Some(Party { display_name: None, uri: "sip:alice@example.com".to_string(), tag: Some("a".to_string()) }),
        to: Some(Party { display_name: None, uri: "sip:bob@example.com".to_string(), tag: None }),
        cseq: Some(CSeqInfo { seq: 1, method }),
        has_max_forwards: true,
        has_contact: false,
        routes: Vec::new(),
        via_headers: Vec::new(),
        from_header: None,
        to_header: None,
    }
}

fn response(status: u16, branch: &str, method: Method) -> ResponseInfo {
    ResponseInfo {
        status,
        via_branches: vec![Some(branch.to_string())],
        call_id: Some("call-1".to_string()),
        from: None,
        to: None,
        cseq: Some(CSeqInfo { seq: 1, method }),
    }
}

#[test]
fn terminated_state_is_final() {
    for kind in [
        TransactionKind::InviteClient,
        TransactionKind::NonInviteClient,
        TransactionKind::InviteServer,
        TransactionKind::NonInviteServer,
    ] {
        for to in [TransactionState::Calling, TransactionState::Trying, TransactionState::Completed] {
            assert!(validate_transition(kind, TransactionState::Terminated, to).is_err());
        }
        assert!(validate_transition(kind, TransactionState::Completed, TransactionState::Terminated).is_ok());
    }
    assert!(validate_transition(TransactionKind::InviteClient, TransactionState::Calling, TransactionState::Trying).is_err());
}

#[test]
fn apply_transition_starts_teardown_on_terminated() {
    let mut core = TransactionCore::new(TransactionState::Calling);
    let r = apply_transition(&mut core, TransactionKind::InviteClient, TransactionState::Terminated);
    assert!(matches!(r, TransitionOutcome::Applied { previous: TransactionState::Calling, .. }));
    assert_eq!(core.lifecycle, TransactionLifecycle::Terminating);
    let again = apply_transition(&mut core, TransactionKind::InviteClient, TransactionState::Terminated);
    assert_eq!(again, TransitionOutcome::AlreadyInState);
    let refused = apply_transition(&mut core, TransactionKind::InviteClient, TransactionState::Calling);
    assert!(matches!(refused, TransitionOutcome::Rejected(_)));
    assert_eq!(core.state, TransactionState::Terminated);
}

#[test]
fn response_status_drives_client_states() {
    assert_eq!(
        handle_response_by_status(180, TransactionState::Calling, true, false),
        (Some(TuEvent::ProvisionalResponse), Some(TransactionState::Proceeding))
    );
    let (e, s) = handle_response_by_status(200, TransactionState::Trying, false, false);
    assert_eq!(e, Some(TuEvent::SuccessResponse { need_ack: false }));
    assert_eq!(s, Some(TransactionState::Completed));
    let (e, s) = handle_response_by_status(486, TransactionState::Proceeding, false, false);
    assert_eq!(e, Some(TuEvent::FailureResponse));
    assert_eq!(s, Some(TransactionState::Completed));
}

#[test]
fn invite_client_process_response_stops_timer_a() {
    let logic = ClientInviteLogic { timer_config: TimerSettings::default() };
    let k = key("z9hG4bKi", Method::Invite, false);
    let mut timers = ClientInviteTimers::new();
    let mut actions = Vec::new();
    logic.handle_calling_state(&mut timers, true, &mut actions).unwrap();
    assert!(timers.timer_a && timers.timer_b);
    let mut actions = Vec::new();
    let next = logic.process_response(
        &k,
        &Method::Invite,
        &response(180, "z9hG4bKi", Method::Invite),
        TransactionState::Calling,
        &mut timers,
        true,
        &mut actions,
    );
    assert_eq!(next, Some(TransactionState::Proceeding));
    assert_eq!(actions, vec![Action::AbortTimer(TimerKind::A), Action::Emit(TuEvent::ProvisionalResponse)]);
    assert!(!timers.timer_a);
    let mut actions = Vec::new();
    let other = logic.process_response(
        &k,
        &Method::Invite,
        &response(200, "z9hG4bKother", Method::Invite),
        TransactionState::Proceeding,
        &mut timers,
        true,
        &mut actions,
    );
    assert_eq!(other, None);
    assert!(actions.is_empty());
}

#[test]
fn server_plan_for_new_and_retransmitted_requests() {
    let mut server = TransactionTable::new();
    let client = TransactionTable::new();
    let req = request(Method::Options, Some("z9hG4bKs"));
    match plan_server_transaction(&server, &client, &req).unwrap() {
        ServerTransactionPlan::Create { key, kind, initial_state, .. } => {
            assert_eq!(key, TransactionKey::new("z9hG4bKs".to_string(), Method::Options, true));
            assert_eq!(kind, TransactionKind::NonInviteServer);
            assert_eq!(initial_state, TransactionState::Trying);
        }
        other => panic!("unexpected plan {:?}", other),
    }
    server.insert(record(key("z9hG4bKs", Method::Options, true), TransactionKind::NonInviteServer, TransactionState::Trying));
    assert!(matches!(plan_server_transaction(&server, &client, &req).unwrap(), ServerTransactionPlan::Existing(_)));
    assert_eq!(
        plan_server_transaction(&server, &client, &request(Method::Options, None)).unwrap_err(),
        Error::MissingBranch
    );
    let mut no_via = request(Method::Options, None);
    no_via.via_branches.clear();
    assert_eq!(
        plan_server_transaction(&server, &client, &no_via).unwrap_err(),
        Error::MissingHeader(HeaderField::Via)
    );
    assert_eq!(
        plan_server_transaction(&server, &client, &request(Method::Ack, Some("z9hG4bKnew"))).unwrap_err(),
        Error::WrongMethod
    );
}

#[test]
fn removal_forgets_transaction_everywhere() {
    let mut client = TransactionTable::new();
    let mut server = TransactionTable::new();
    let a = key("z9hG4bKa", Method::Invite, false);
    let b = key("z9hG4bKb", Method::Bye, false);
    client.insert(record(a.clone(), TransactionKind::InviteClient, TransactionState::Calling));
    client.insert(record(b.clone(), TransactionKind::NonInviteClient, TransactionState::Trying));
    let mut subs = SubscriberRegistry::new();
    let mut timers = TimerManager::new(None);
    timers.register_transaction(a.clone());
    let id = subs.subscribe_to_transaction(&client, &server, &a).unwrap();
    assert_eq!(id, 0);
    assert_eq!(subs.interested_subscribers(&a), vec![0]);

    assert!(remove_terminated_transaction(&mut client, &mut server, &mut subs, &mut timers, &a));
    assert!(!transaction_exists(&client, &server, &a));
    assert!(transaction_exists(&client, &server, &b));
    assert!(subs.interested_subscribers(&a).is_empty());
    assert!(!timers.is_registered(&a));
    assert!(!remove_terminated_transaction(&mut client, &mut server, &mut subs, &mut timers, &a));
}

#[test]
fn subscriptions_filter_events() {
    let mut client = TransactionTable::new();
    let server = TransactionTable::new();
    let a = key("z9hG4bKa", Method::Invite, false);
    let b = key("z9hG4bKb", Method::Bye, false);
    client.insert(record(a.clone(), TransactionKind::InviteClient, TransactionState::Calling));
    client.insert(record(b.clone(), TransactionKind::NonInviteClient, TransactionState::Trying));
    let mut subs = SubscriberRegistry::new();
    let global = subs.subscribe();
    let on_a = subs.subscribe_to_transaction(&client, &server, &a).unwrap();
    let on_both = subs.subscribe_to_transactions(&client, &server, &[a.clone(), b.clone()]).unwrap();
    assert_eq!((global, on_a, on_both), (0, 1, 2));
    assert_eq!(subs.transactions_of(2), vec![a.clone(), b.clone()]);

    let (to_a, _) = broadcast_plan(&subs, BroadcastKind::StateChanged, Some(&a), true, true);
    assert_eq!(to_a, vec![1, 2]);
    let (to_b, _) = broadcast_plan(&subs, BroadcastKind::SuccessResponse, Some(&b), true, true);
    assert_eq!(to_b, vec![2]);
    let (stray, _) = broadcast_plan(&subs, BroadcastKind::StrayResponse, None, true, true);
    assert_eq!(stray, vec![0, 1, 2]);
    let (unfiltered, _) = broadcast_plan(&subs, BroadcastKind::AckReceived, Some(&a), false, false);
    assert_eq!(unfiltered, vec![0, 1, 2]);
    let (_, process) = broadcast_plan(&subs, BroadcastKind::TransactionTerminated, Some(&a), true, true);
    assert!(process);

    let missing = key("z9hG4bKzz", Method::Invite, false);
    assert_eq!(subs.subscribe_to_transaction(&client, &server, &missing), Err(Error::TransactionNotFound));
    assert_eq!(
        subs.subscribe_to_transactions(&client, &server, &[a.clone(), missing]),
        Err(Error::TransactionNotFound)
    );
    subs.remove_transaction(&a);
    let (after, _) = broadcast_plan(&subs, BroadcastKind::StateChanged, Some(&a), true, true);
    assert_eq!(after, vec![0, 1, 2]);
    subs.clear();
    let (none, _) = broadcast_plan(&subs, BroadcastKind::StateChanged, None, true, true);
    assert!(none.is_empty());
}

#[test]
fn message_lookup_by_side() {
    let mut client = TransactionTable::new();
    let mut server = TransactionTable::new();
    client.insert(record(key("z9hG4bKc", Method::Invite, false), TransactionKind::InviteClient, TransactionState::Calling));
    client.insert(record(key("z9hG4bKc", Method::Cancel, false), TransactionKind::NonInviteClient, TransactionState::Trying));
    server.insert(record(key("z9hG4bKs", Method::Bye, true), TransactionKind::NonInviteServer, TransactionState::Trying));
    let r = Message::Response(response(200, "z9hG4bKc", Method::Cancel));
    assert_eq!(find_transaction_by_message(&client, &server, &r), Some(key("z9hG4bKc", Method::Cancel, false)));
    let q = Message::Request(request(Method::Bye, Some("z9hG4bKs")));
    assert_eq!(find_transaction_by_message(&client, &server, &q), Some(key("z9hG4bKs", Method::Bye, true)));
    let stray = Message::Request(request(Method::Bye, Some("z9hG4bKnone")));
    assert_eq!(find_transaction_by_message(&client, &server, &stray), None);
    assert_eq!(extract_cseq(&r), Some((1, Method::Cancel)));
}

#[test]
fn waiting_loops_give_up_after_their_limit() {
    assert_eq!(poll_step(true, 7, 20), (PollStep::Ready, 7));
    assert_eq!(poll_step(false, 0, 20), (PollStep::Wait, 1));
    assert_eq!(poll_step(false, 19, 20), (PollStep::Wait, 20));
    assert_eq!(poll_step(false, 20, 20), (PollStep::GiveUp, 21));
}

#[test]
fn ack_destination_order() {
    assert_eq!(choose_ack_destination(Some(1), Some(2)), Ok(1));
    assert_eq!(choose_ack_destination(None, Some(2)), Ok(2));
    assert_eq!(choose_ack_destination::<u8>(None, None), Err(Error::DestinationNotFound));

    let c = ack_destination_candidates(
        Some(("192.168.1.2".to_string(), None)),
        Some("10.0.0.1".to_string()),
        None,
        Some(("proxy.example.com".to_string(), Some(5070))),
    );
    assert_eq!(c.len(), 2);
    assert!(matches!(&c[0], AddrCandidate::Resolve { host, port: 5060 } if host == "192.168.1.2"));
    assert!(matches!(&c[1], AddrCandidate::Resolve { host, port: 5070 } if host == "proxy.example.com"));

    let v = via_ack_candidates(None, Some("SIP/2.0/UDP 10.0.0.5:5062;branch=z9hG4bKx;received=1.2.3.4;rport=6000"));
    assert_eq!(v.len(), 3);
    assert!(matches!(&v[0], AddrCandidate::Ip { host, port: 6000 } if host == "1.2.3.4"));
    assert!(matches!(&v[1], AddrCandidate::SocketAddr(t) if t == "10.0.0.5:5062"));
    assert!(matches!(&v[2], AddrCandidate::Ip { host, port: 5062 } if host == "10.0.0.5"));
    let w = via_ack_candidates(None, Some("SIP/2.0/UDP h;received=1.2.3.4;rport=6000;x"));
    assert!(matches!(&w[0], AddrCandidate::Ip { host, port: 6000 } if host == "1.2.3.4"));
    assert!(matches!(&w[2], AddrCandidate::Ip { host, port: 5060 } if host == "h"));
}

#[test]
fn text_helpers() {
    assert_eq!(find_text("a;b;c", ";", 0), Some(1));
    assert_eq!(find_text("a;b;c", ";", 2), Some(3));
    assert_eq!(find_text("abc", "x", 0), None);
    assert_eq!(parse_u16_text("5060"), Some(5060));
    assert_eq!(parse_u16_text("+7"), Some(7));
    assert_eq!(parse_u16_text("65536"), None);
    assert_eq!(parse_u16_text(""), None);
    assert_eq!(parse_u16_text("12a"), None);
    assert_eq!(parse_u16_text("-1"), None);
}

#[test]
fn transport_choice_by_scheme() {
    let all = TransportSupport { supports_tls: true, supports_ws: true, supports_wss: true };
    let none = TransportSupport { supports_tls: false, supports_ws: false, supports_wss: false };
    assert_eq!(best_transport_for_scheme("sips", &all), TransportChoice::Tls);
    assert_eq!(best_transport_for_scheme("wss", &all), TransportChoice::Wss);
    assert_eq!(best_transport_for_scheme("ws", &all), TransportChoice::Ws);
    assert_eq!(best_transport_for_scheme("sip", &all), TransportChoice::Default);
    assert_eq!(best_transport_for_scheme("sips", &none), TransportChoice::Default);
    let wss_only = TransportSupport { supports_tls: false, supports_ws: false, supports_wss: true };
    assert_eq!(best_transport_for_scheme("sips", &wss_only), TransportChoice::Wss);
    assert!(websocket_status(false, false, 1, 1, true, true).is_none());
    assert!(websocket_status(true, false, 2, 0, false, true).unwrap().has_active_connection);
}

#[test]
fn server_cancel_targets_the_invite_client_with_its_branch() {
    let server = TransactionTable::new();
    let mut client = TransactionTable::new();
    client.insert(record(key("z9hG4bKother", Method::Invite, false), TransactionKind::InviteClient, TransactionState::Calling));
    let cancel = request(Method::Cancel, Some("z9hG4bKc"));
    match plan_server_transaction(&server, &client, &cancel).unwrap() {
        ServerTransactionPlan::Create { cancel_target, .. } => assert_eq!(cancel_target, None),
        other => panic!("unexpected plan {:?}", other),
    }
    client.insert(record(key("z9hG4bKc", Method::Invite, false), TransactionKind::InviteClient, TransactionState::Proceeding));
    match plan_server_transaction(&server, &client, &cancel).unwrap() {
        ServerTransactionPlan::Create { key: k, cancel_target, .. } => {
            assert_eq!(k, TransactionKey::new("z9hG4bKc".to_string(), Method::Cancel, true));
            assert_eq!(cancel_target, Some(TransactionKey::new("z9hG4bKc".to_string(), Method::Invite, false)));
        }
        other => panic!("unexpected plan {:?}", other),
    }
    let mut no_call_id = request(Method::Cancel, Some("z9hG4bKc"));
    no_call_id.call_id = None;
    match plan_server_transaction(&server, &client, &no_call_id).unwrap() {
        ServerTransactionPlan::Create { cancel_target, .. } => assert_eq!(cancel_target, None),
        other => panic!("unexpected plan {:?}", other),
    }
}

#[test]
fn transport_follows_the_uri_scheme() {
    let all = TransportSupport { supports_tls: true, supports_ws: true, supports_wss: true };
    let none = TransportSupport { supports_tls: false, supports_ws: false, supports_wss: false };
    let sips: rvoip_sip_core::Uri = "sips:bob@example.com".parse().unwrap();
    let sip: rvoip_sip_core::Uri = "sip:bob@example.com".parse().unwrap();
    assert_eq!(get_best_transport_for_uri(&sips, &all), TransportChoice::Tls);
    assert_eq!(get_best_transport_for_uri(&sips, &none), TransportChoice::Default);
    assert_eq!(get_best_transport_for_uri(&sip, &all), TransportChoice::Default);
}

#[test]
fn logic_results_become_commands_or_errors() {
    assert_eq!(
        dispatch_logic_result(Ok(Some(TransactionState::Completed))),
        LogicFollowUp::TransitionTo(TransactionState::Completed)
    );
    assert_eq!(dispatch_logic_result(Ok(None)), LogicFollowUp::Nothing);
    assert_eq!(dispatch_logic_result(Err(Error::WrongMethod)), LogicFollowUp::ReportError(Error::WrongMethod));
}

#[test]
fn runner_commands_move_only_along_the_state_machine() {
    let mut core = TransactionCore::new(TransactionState::Initial);
    let kind = TransactionKind::InviteClient;
    let commands = [
        RunnerCommand::TransitionTo(TransactionState::Calling),
        RunnerCommand::TransitionTo(TransactionState::Confirmed),
        RunnerCommand::TransitionTo(TransactionState::Proceeding),
        RunnerCommand::TransitionTo(TransactionState::Completed),
        RunnerCommand::TransitionTo(TransactionState::Calling),
        RunnerCommand::Shutdown,
        RunnerCommand::TransitionTo(TransactionState::Calling),
        RunnerCommand::GracePeriodElapsed,
        RunnerCommand::DrainingPeriodElapsed,
    ];
    let expected = [
        TransactionState::Calling,
        TransactionState::Calling,
        TransactionState::Proceeding,
        TransactionState::Completed,
        TransactionState::Completed,
        TransactionState::Terminated,
        TransactionState::Terminated,
        TransactionState::Terminated,
        TransactionState::Terminated,
    ];
    for (c, want) in commands.iter().zip(expected.iter()) {
        let before = core.state;
        run_command(&mut core, kind, *c);
        assert_eq!(core.state, *want);
        if core.state != before {
            assert!(validate_transition(kind, before, core.state).is_ok() || core.state == TransactionState::Terminated);
        }
    }
    assert_eq!(core.lifecycle, TransactionLifecycle::Destroyed);
}

#[test]
fn ack_for_a_2xx_finds_the_invite_server_by_dialog() {
    let mut server = TransactionTable::new();
    let mut rec = record(key("z9hG4bKinv", Method::Invite, true), TransactionKind::InviteServer, TransactionState::Completed);
    rec.dialog = DialogIds { call_id: Some("call-1".to_string()), from_tag: Some("a".to_string()), to_tag: None };
    server.insert(rec);
    let ack = request(Method::Ack, Some("z9hG4bKnewack"));
    match route_transport_request(&server, &ack) {
        RequestRoute::AckToInviteServer(k) => assert_eq!(k, key("z9hG4bKinv", Method::Invite, true)),
        other => panic!("unexpected route {:?}", other),
    }
    let mut other_call = request(Method::Ack, Some("z9hG4bKnewack"));
    other_call.call_id = Some("call-2".to_string());
    assert!(matches!(route_transport_request(&server, &other_call), RequestRoute::StrayAck));
}

#[test]
fn cancel_routes_to_its_invite_or_is_stray() {
    let mut server = TransactionTable::new();
    server.insert(record(key("z9hG4bKinv", Method::Invite, true), TransactionKind::InviteServer, TransactionState::Proceeding));
    match route_transport_request(&server, &request(Method::Cancel, Some("z9hG4bKinv"))) {
        RequestRoute::CancelInvite(k) => assert_eq!(k, key("z9hG4bKinv", Method::Invite, true)),
        other => panic!("unexpected route {:?}", other),
    }
    assert!(matches!(route_transport_request(&server, &request(Method::Cancel, Some("z9hG4bKzzz"))), RequestRoute::StrayCancel));
}

#[test]
fn client_response_asks_ack_for_invite_only() {
    let inv = key("z9hG4bKa", Method::Invite, false);
    let opt = key("z9hG4bKb", Method::Options, false);
    let (ev, next) = handle_response_for_client_transaction(&inv, TransactionState::Calling, TransactionKind::InviteClient, 200);
    assert_eq!(ev, Some(Ev::SuccessResponse { need_ack: true }));
    assert_eq!(next, Ok(TransactionState::Terminated));
    let (ev, next) = handle_response_for_client_transaction(&opt, TransactionState::Trying, TransactionKind::NonInviteClient, 200);
    assert_eq!(ev, Some(Ev::SuccessResponse { need_ack: false }));
    assert_eq!(next, Ok(TransactionState::Completed));
}

#[test]
fn client_via_uses_the_local_address_and_key_branch() {
    let plan = plan_client_transaction(&request(Method::Options, Some("z9hG4bKkeep")));
    match client_via(&plan, "192.0.2.7:5070") {
        Some(sip_transaction::request_builders::RequestPart::Via { host, transport, branch }) => {
            assert_eq!(host, "192.0.2.7:5070");
            assert_eq!(transport, "UDP");
            assert_eq!(branch, "z9hG4bKkeep");
        }
        other => panic!("unexpected via {:?}", other),
    }
    let cancel_plan = plan_client_transaction(&request(Method::Cancel, Some("z9hG4bKc")));
    assert!(client_via(&cancel_plan, "192.0.2.7:5070").is_none());
}
