use rithmic_plant::command_types::{RithmicCancelOrder, RithmicConnectionInfo, RithmicModifyOrder};
use rithmic_plant::order_plant::{
    login_reply, single_reply, InboundEvent, InboundOutcome, LoginState, OrderPlant, OrderPlantCommand,
    PlantAction,
};
use rithmic_plant::receiver_api::{decode_response, RithmicResponse};
use rithmic_plant::request_handler::{Delivery, RithmicRequestHandler};

fn conn() -> RithmicConnectionInfo {
    RithmicConnectionInfo {
        url: "wss://example.invalid:443".to_string(),
        system_name: "Rithmic Test".to_string(),
        user: "u".to_string(),
        password: "p".to_string(),
    }
}

fn reply(template_id: i32, tag: Option<&str>, rp_code: &[&str]) -> RithmicResponse {
    decode_response(
        template_id,
        tag.map(|t| vec![t.to_string()]).unwrap_or_default(),
        rp_code.iter().map(|s| s.to_string()).collect(),
        vec![1, 2, 3],
    )
}

fn sent_tag(action: PlantAction) -> String {
    match action {
        PlantAction::Send { request_id: Some(t), .. } => t,
        _ => panic!("expected a request awaiting a reply"),
    }
}

#[test]
fn login_success_then_heartbeats() {
    let mut plant = OrderPlant::new(&conn());
    assert!(matches!(plant.handle_tick(), PlantAction::Idle));
    let action = plant.handle_command(OrderPlantCommand::Login);
    let tag = match action {
        PlantAction::Send { message, request_id: Some(t) } => {
            assert_eq!(message.template_id, 10);
            assert_eq!(message.system_name.as_deref(), Some("Rithmic Test"));
            assert_eq!(message.user.as_deref(), Some("u"));
            assert_eq!(message.password.as_deref(), Some("p"));
            assert_eq!(message.infra_type, Some(2));
            t
        }
        _ => panic!("login must be sent"),
    };
    assert_eq!(tag, "1");
    let outcome = plant.handle_rithmic_message(InboundEvent::Response(reply(11, Some("1"), &["0"])));
    let parts = match outcome {
        InboundOutcome::Delivered(Delivery::Completed { request_id, responses }) => {
            assert_eq!(request_id, "1");
            responses
        }
        _ => panic!("login reply must complete the request"),
    };
    let first = single_reply(parts).unwrap();
    let ok = login_reply(first).unwrap();
    assert_eq!(ok.template_id, 11);
    assert!(!plant.logged_in());
    assert!(matches!(plant.handle_command(OrderPlantCommand::SetLogin), PlantAction::Idle));
    assert!(plant.logged_in());
    for _ in 0..2 {
        match plant.handle_tick() {
            PlantAction::Send { message, request_id: None } => assert_eq!(message.template_id, 18),
            _ => panic!("a heartbeat is due"),
        }
    }
    assert_eq!(plant.pending_count(), 0);
}

#[test]
fn login_failure_reports_error_text() {
    let r = reply(11, Some("1"), &["3", "bad credentials"]);
    assert_eq!(r.error.as_deref(), Some("bad credentials"));
    assert_eq!(login_reply(r).unwrap_err(), "bad credentials");
}

#[test]
fn bracket_order_through_plant() {
    let mut plant = OrderPlant::new(&conn());
    for _ in 0..2 {
        plant.handle_command(OrderPlantCommand::SendHeartbeat);
    }
    let order = rithmic_plant::command_types::RithmicBracketOrder {
        action: 1,
        duration: 1,
        exchange: "CME".to_string(),
        localid: "L1".to_string(),
        ordertype: 2,
        price: Some(5000.0f64.to_bits()),
        profit_ticks: 8,
        qty: 1,
        stop_ticks: 4,
        symbol: "ESZ4".to_string(),
    };
    match plant.handle_command(OrderPlantCommand::PlaceBracketOrder { bracket_order: order }) {
        PlantAction::Send { message, request_id: Some(t) } => {
            assert_eq!(t, "3");
            assert_eq!(message.template_id, 330);
            assert_eq!(message.price, None);
            assert_eq!(message.user_tag.as_deref(), Some("L1"));
            assert_eq!(message.user_msg, vec!["3".to_string()]);
        }
        _ => panic!("bracket order must be sent"),
    }
    assert_eq!(plant.pending_count(), 1);
}

#[test]
fn modify_and_cancel_through_plant() {
    let mut plant = OrderPlant::new(&conn());
    let modify = RithmicModifyOrder {
        id: "B9".to_string(),
        exchange: "CME".to_string(),
        symbol: "ESZ4".to_string(),
        qty: 1,
        price: 4999.25f64.to_bits(),
        ordertype: 4,
    };
    match plant.handle_command(OrderPlantCommand::ModifyOrder { order: modify }) {
        PlantAction::Send { message, .. } => {
            assert_eq!(message.template_id, 314);
            assert_eq!(message.trigger_price.map(f64::from_bits), Some(4999.25));
        }
        _ => panic!("modify must be sent"),
    }
    let cancel = RithmicCancelOrder { id: "B9".to_string() };
    match plant.handle_command(OrderPlantCommand::CancelOrder { order_id: cancel.id }) {
        PlantAction::Send { message, .. } => {
            assert_eq!(message.template_id, 316);
            assert_eq!(message.basket_id.as_deref(), Some("B9"));
            assert_eq!(message.manual_or_auto, Some(2));
        }
        _ => panic!("cancel must be sent"),
    }
    match plant.handle_command(OrderPlantCommand::ModifyStop { order_id: "B9".to_string(), ticks: 6 }) {
        PlantAction::Send { message, .. } => assert_eq!((message.template_id, message.stop_ticks), (334, Some(6))),
        _ => panic!("stop adjustment must be sent"),
    }
    match plant.handle_command(OrderPlantCommand::ModifyProfit { order_id: "B9".to_string(), ticks: 9 }) {
        PlantAction::Send { message, .. } => assert_eq!((message.template_id, message.target_ticks), (332, Some(9))),
        _ => panic!("target adjustment must be sent"),
    }
    assert_eq!(plant.pending_count(), 4);
}

#[test]
fn show_orders_multi_part() {
    let mut plant = OrderPlant::new(&conn());
    for _ in 0..6 {
        plant.handle_command(OrderPlantCommand::SendHeartbeat);
    }
    let tag = sent_tag(plant.handle_command(OrderPlantCommand::ShowOrders));
    assert_eq!(tag, "7");
    for _ in 0..2 {
        let o = plant.handle_rithmic_message(InboundEvent::Response(reply(321, Some("7"), &[])));
        assert!(matches!(o, InboundOutcome::Delivered(Delivery::Pending)));
        assert_eq!(plant.pending_count(), 1);
    }
    let o = plant.handle_rithmic_message(InboundEvent::Response(reply(321, Some("7"), &["0"])));
    match o {
        InboundOutcome::Delivered(Delivery::Completed { request_id, responses }) => {
            assert_eq!(request_id, "7");
            assert_eq!(responses.len(), 3);
            assert_eq!(responses[2].rp_code.as_deref(), Some("0"));
        }
        _ => panic!("the third part ends the request"),
    }
    assert_eq!(plant.pending_count(), 0);
}

#[test]
fn multi_part_error_ends_request() {
    let mut handler = RithmicRequestHandler::new();
    handler.register_request("4".to_string());
    assert!(matches!(handler.handle_response(reply(321, Some("4"), &[])), Delivery::Pending));
    match handler.handle_response(reply(321, Some("4"), &["7", "no permission"])) {
        Delivery::Completed { responses, .. } => {
            assert_eq!(responses.len(), 2);
            assert_eq!(responses[1].error.as_deref(), Some("no permission"));
        }
        _ => panic!("an error code ends the request"),
    }
    assert!(handler.is_empty());
}

#[test]
fn update_during_pending_request() {
    let mut plant = OrderPlant::new(&conn());
    for _ in 0..4 {
        plant.handle_command(OrderPlantCommand::SendHeartbeat);
    }
    let tag = sent_tag(plant.handle_command(OrderPlantCommand::ShowOrders));
    assert_eq!(tag, "5");
    let o = plant.handle_rithmic_message(InboundEvent::Response(reply(321, Some("5"), &[])));
    assert!(matches!(o, InboundOutcome::Delivered(Delivery::Pending)));
    let update = reply(351, None, &[]);
    assert!(update.is_update);
    match plant.handle_rithmic_message(InboundEvent::Response(update)) {
        InboundOutcome::Broadcast(b) => assert_eq!(b.template_id, 351),
        _ => panic!("an update is broadcast"),
    }
    assert_eq!(plant.pending_count(), 1);
    match plant.handle_rithmic_message(InboundEvent::Response(reply(321, Some("5"), &["0"]))) {
        InboundOutcome::Delivered(Delivery::Completed { responses, .. }) => {
            assert_eq!(responses.len(), 2);
            assert!(responses.iter().all(|r| r.template_id == 321));
        }
        _ => panic!("the request completes untouched by the update"),
    }
}

#[test]
fn tagged_reply_off_allowlist_goes_to_registry() {
    let mut plant = OrderPlant::new(&conn());
    let tag = sent_tag(plant.handle_command(OrderPlantCommand::SubscribeOrderUpdates));
    let r = reply(309, Some(&tag), &["0"]);
    assert!(!r.is_update);
    match plant.handle_rithmic_message(InboundEvent::Response(r)) {
        InboundOutcome::Delivered(Delivery::Completed { request_id, .. }) => assert_eq!(request_id, tag),
        _ => panic!("a tagged reply goes to its request"),
    }
}

#[test]
fn untagged_message_is_an_update() {
    let r = reply(312, None, &[]);
    assert!(r.is_update);
    assert_eq!(r.request_id, None);
    let r = reply(150, Some("3"), &[]);
    assert!(r.is_update);
    assert_eq!(r.request_id.as_deref(), Some("3"));
    assert_eq!(r.payload, vec![1, 2, 3]);
}

#[test]
fn registered_tag_wins_over_allowlist() {
    let mut plant = OrderPlant::new(&conn());
    let tag = sent_tag(plant.handle_command(OrderPlantCommand::SubscribeOrderUpdates));
    let r = reply(351, Some(&tag), &["0"]);
    assert!(r.is_update);
    match plant.handle_rithmic_message(InboundEvent::Response(r)) {
        InboundOutcome::Delivered(Delivery::Completed { request_id, responses }) => {
            assert_eq!(request_id, tag);
            assert_eq!(responses.len(), 1);
            assert_eq!(responses[0].template_id, 351);
        }
        _ => panic!("a reply to a request in flight goes to the registry"),
    }
    assert_eq!(plant.pending_count(), 0);
}

#[test]
fn tagged_update_without_request_is_broadcast() {
    let mut plant = OrderPlant::new(&conn());
    sent_tag(plant.handle_command(OrderPlantCommand::ShowOrders));
    match plant.handle_rithmic_message(InboundEvent::Response(reply(150, Some("42"), &[]))) {
        InboundOutcome::Broadcast(b) => assert_eq!(b.request_id.as_deref(), Some("42")),
        _ => panic!("an update whose tag is not in flight is broadcast"),
    }
    assert_eq!(plant.pending_count(), 1);
}

#[test]
fn plant_identity_and_route() {
    let mut plant = OrderPlant::new(&conn());
    plant.set_identity("ACC", "FCM", "IB");
    plant.set_trade_route("globex");
    let order = rithmic_plant::command_types::RithmicBracketOrder {
        action: 1,
        duration: 1,
        exchange: "CME".to_string(),
        localid: "L".to_string(),
        ordertype: 1,
        price: Some(1.5f64.to_bits()),
        profit_ticks: 2,
        qty: 1,
        stop_ticks: 2,
        symbol: "ESZ4".to_string(),
    };
    match plant.handle_command(OrderPlantCommand::PlaceBracketOrder { bracket_order: order }) {
        PlantAction::Send { message, .. } => {
            assert_eq!(message.account_id.as_deref(), Some("ACC"));
            assert_eq!(message.fcm_id.as_deref(), Some("FCM"));
            assert_eq!(message.ib_id.as_deref(), Some("IB"));
            assert_eq!(message.trade_route.as_deref(), Some("globex"));
        }
        _ => panic!("bracket order must be sent"),
    }
}

#[test]
fn unmatched_reply_is_dropped() {
    let mut plant = OrderPlant::new(&conn());
    sent_tag(plant.handle_command(OrderPlantCommand::ShowOrders));
    let o = plant.handle_rithmic_message(InboundEvent::Response(reply(321, Some("99"), &["0"])));
    assert!(matches!(o, InboundOutcome::Delivered(Delivery::Unmatched)));
    assert_eq!(plant.pending_count(), 1);
}

#[test]
fn shutdown_drains_pending() {
    let mut plant = OrderPlant::new(&conn());
    let mut tags = Vec::new();
    tags.push(sent_tag(plant.handle_command(OrderPlantCommand::ShowOrders)));
    tags.push(sent_tag(plant.handle_command(OrderPlantCommand::SubscribeBracketUpdates)));
    tags.push(sent_tag(plant.handle_command(OrderPlantCommand::SubscribePnlUpdates)));
    assert_eq!(plant.pending_count(), 3);
    match plant.handle_rithmic_message(InboundEvent::CloseFrame) {
        InboundOutcome::Stop { pending } => assert_eq!(pending, tags),
        _ => panic!("a close frame stops the plant"),
    }
    assert_eq!(plant.pending_count(), 0);
    assert!(matches!(plant.handle_command(OrderPlantCommand::ShowOrders), PlantAction::Refused));
}

#[test]
fn close_command_and_connection_loss() {
    let mut plant = OrderPlant::new(&conn());
    let t = sent_tag(plant.handle_command(OrderPlantCommand::Logout));
    match plant.handle_command(OrderPlantCommand::Close) {
        PlantAction::Close { pending } => assert_eq!(pending, vec![t]),
        _ => panic!("close stops the plant"),
    }
    let mut plant = OrderPlant::new(&conn());
    match plant.handle_rithmic_message(InboundEvent::ConnectionClosed) {
        InboundOutcome::Stop { pending } => assert!(pending.is_empty()),
        _ => panic!("connection loss stops the plant"),
    }
    assert!(matches!(plant.handle_rithmic_message(InboundEvent::Other), InboundOutcome::Ignored));
    assert!(matches!(LoginState::Closed, LoginState::Closed));
}

#[test]
fn single_reply_of_nothing() {
    assert!(single_reply(vec![]).is_none());
}

#[test]
fn send_failure_releases_registration() {
    let mut plant = OrderPlant::new(&conn());
    let a = sent_tag(plant.handle_command(OrderPlantCommand::ShowOrders));
    let b = sent_tag(plant.handle_command(OrderPlantCommand::SubscribeOrderUpdates));
    assert!(plant.handle_send_failure(&a));
    assert_eq!(plant.pending_count(), 1);
    assert!(!plant.handle_send_failure(&a));
    let o = plant.handle_rithmic_message(InboundEvent::Response(reply(321, Some(&a), &["0"])));
    assert!(matches!(o, InboundOutcome::Delivered(Delivery::Unmatched)));
    let o = plant.handle_rithmic_message(InboundEvent::Response(reply(309, Some(&b), &["0"])));
    assert!(matches!(o, InboundOutcome::Delivered(Delivery::Completed { .. })));
}

#[test]
fn registry_remove_and_contains() {
    let mut handler = RithmicRequestHandler::new();
    handler.register_request("1".to_string());
    handler.register_request("2".to_string());
    assert!(handler.contains(&"2".to_string()));
    assert!(handler.remove_request(&"1".to_string()));
    assert!(!handler.contains(&"1".to_string()));
    assert_eq!(handler.len(), 1);
    assert_eq!(handler.drain(), vec!["2".to_string()]);
    assert!(handler.is_empty());
}

fn is_heartbeat(action: PlantAction) -> bool {
    matches!(action, PlantAction::Send { message, request_id: None } if message.template_id == 18)
}

#[test]
fn heartbeats_continue_through_logout_until_close() {
    let mut plant = OrderPlant::new(&conn());
    sent_tag(plant.handle_command(OrderPlantCommand::Login));
    assert!(matches!(plant.handle_tick(), PlantAction::Idle));
    plant.handle_command(OrderPlantCommand::SetLogin);
    assert!(is_heartbeat(plant.handle_tick()));
    sent_tag(plant.handle_command(OrderPlantCommand::Login));
    assert!(plant.logged_in());
    assert!(is_heartbeat(plant.handle_tick()));
    sent_tag(plant.handle_command(OrderPlantCommand::Logout));
    assert!(plant.logged_in());
    assert!(is_heartbeat(plant.handle_tick()));
    assert!(matches!(plant.handle_command(OrderPlantCommand::Close), PlantAction::Close { .. }));
    assert!(!plant.logged_in());
    assert!(matches!(plant.handle_tick(), PlantAction::Idle));
}

#[test]
fn heartbeats_stop_when_connection_is_lost() {
    let mut plant = OrderPlant::new(&conn());
    plant.handle_command(OrderPlantCommand::SetLogin);
    assert!(is_heartbeat(plant.handle_tick()));
    plant.handle_rithmic_message(InboundEvent::ConnectionClosed);
    assert!(!plant.logged_in());
    assert!(matches!(plant.handle_tick(), PlantAction::Idle));
    assert!(matches!(plant.handle_command(OrderPlantCommand::SetLogin), PlantAction::Refused));
    assert!(matches!(plant.handle_tick(), PlantAction::Idle));
}
