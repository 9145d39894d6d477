use rithmic_plant::command_types::{
    RithmicBracketOrder, RithmicConnectionInfo, DURATION_DAY, PRICE_TYPE_MARKET, PRICE_TYPE_STOP_MARKET,
    SEARCH_PATTERN_CONTAINS, SEARCH_PATTERN_EQUALS, TRANSACTION_BUY,
};
use rithmic_plant::sender_api::{RithmicSenderApi, USER_TYPE};

fn conn() -> RithmicConnectionInfo {
    RithmicConnectionInfo {
        url: "wss://example.invalid:443".to_string(),
        system_name: "Rithmic Test".to_string(),
        user: "u".to_string(),
        password: "p".to_string(),
    }
}

fn bracket(ordertype: i32, price: Option<f64>) -> RithmicBracketOrder {
    RithmicBracketOrder {
        action: TRANSACTION_BUY,
        duration: DURATION_DAY,
        exchange: "CME".to_string(),
        localid: "L1".to_string(),
        ordertype,
        price: price.map(|p| p.to_bits()),
        profit_ticks: 8,
        qty: 1,
        stop_ticks: 4,
        symbol: "ESZ4".to_string(),
    }
}

#[test]
fn tags_count_up_from_one() {
    let mut api = RithmicSenderApi::new(&conn());
    let mut tags = Vec::new();
    for _ in 0..12 {
        let (m, tag) = api.request_heartbeat();
        assert_eq!(m.user_msg, vec![tag.clone()]);
        tags.push(tag);
    }
    let expected: Vec<String> = (1..=12).map(|n: u64| n.to_string()).collect();
    assert_eq!(tags, expected);
    assert_eq!(tags[9], "10");
}

#[test]
fn tags_are_shared_by_all_request_kinds() {
    let mut api = RithmicSenderApi::new(&conn());
    let (_, a) = api.request_show_orders();
    let (_, b) = api.request_logout();
    let (m, c) = api.request_cancel_order("B1");
    assert_eq!((a.as_str(), b.as_str(), c.as_str()), ("1", "2", "3"));
    assert_eq!(m.user_msg, vec!["3".to_string()]);
}

#[test]
fn login_request_fields() {
    let mut api = RithmicSenderApi::new(&conn());
    let (m, tag) = api.request_login("Rithmic Test", 2, "u", "p");
    assert_eq!(tag, "1");
    assert_eq!(m.template_id, 10);
    assert_eq!(m.template_version.as_deref(), Some("5.27"));
    assert_eq!(m.app_name.as_deref(), Some("pede:pts"));
    assert_eq!(m.app_version.as_deref(), Some("1"));
    assert_eq!(m.system_name.as_deref(), Some("Rithmic Test"));
    assert_eq!(m.user.as_deref(), Some("u"));
    assert_eq!(m.password.as_deref(), Some("p"));
    assert_eq!(m.infra_type, Some(2));
    assert_eq!(m.user_msg, vec!["1".to_string()]);
}

#[test]
fn bracket_order_at_market_has_no_price() {
    let mut api = RithmicSenderApi::new(&conn());
    let mut last = None;
    for _ in 0..3 {
        last = Some(api.request_bracket_order(bracket(PRICE_TYPE_MARKET, Some(5000.0))));
    }
    let (m, tag) = last.unwrap();
    assert_eq!(m.template_id, 330);
    assert_eq!(m.price, None);
    assert_eq!(m.user_tag.as_deref(), Some("L1"));
    assert_eq!(tag, "3");
    assert_eq!(m.user_msg, vec!["3".to_string()]);
    assert_eq!(m.user_type, Some(USER_TYPE));
    assert_eq!(m.user_type, Some(3));
    assert_eq!(m.manual_or_auto, Some(2));
    assert_eq!(m.bracket_type, Some(6));
    assert_eq!(m.target_quantity, Some(1));
    assert_eq!(m.stop_quantity, Some(1));
    assert_eq!(m.target_ticks, Some(8));
    assert_eq!(m.stop_ticks, Some(4));
    assert_eq!(m.exchange.as_deref(), Some("CME"));
    assert_eq!(m.symbol.as_deref(), Some("ESZ4"));
}

#[test]
fn bracket_order_at_limit_keeps_price() {
    let mut api = RithmicSenderApi::new(&conn());
    let (m, _) = api.request_bracket_order(bracket(1, Some(5000.5)));
    assert_eq!(m.price.map(f64::from_bits), Some(5000.5));
}

#[test]
fn modify_to_stop_limit_sets_trigger_price() {
    let mut api = RithmicSenderApi::new(&conn());
    let (m, _) = api.request_modify_order("B1", "CME", "ESZ4", 1, 4999.25f64.to_bits(), 4);
    assert_eq!(m.template_id, 314);
    assert_eq!(m.trigger_price.map(f64::from_bits), Some(4999.25));
    assert_eq!(m.price.map(f64::from_bits), Some(4999.25));
    let (m, _) = api.request_modify_order("B1", "CME", "ESZ4", 1, 4999.25f64.to_bits(), 3);
    assert_eq!(m.trigger_price.map(f64::from_bits), Some(4999.25));
    assert_eq!(PRICE_TYPE_STOP_MARKET, 4);
}

#[test]
fn modify_to_limit_has_no_trigger_price() {
    let mut api = RithmicSenderApi::new(&conn());
    let (m, _) = api.request_modify_order("B1", "CME", "ESZ4", 1, 4999.25f64.to_bits(), 1);
    assert_eq!(m.trigger_price, None);
    assert_eq!(m.manual_or_auto, Some(2));
}

#[test]
fn cancel_order_fields() {
    let mut api = RithmicSenderApi::new(&conn());
    let (m, _) = api.request_cancel_order("B9");
    assert_eq!(m.template_id, 316);
    assert_eq!(m.basket_id.as_deref(), Some("B9"));
    assert_eq!(m.manual_or_auto, Some(2));
    assert_eq!(m.fcm_id.as_deref(), Some(""));
    assert_eq!(m.ib_id.as_deref(), Some(""));
    assert_eq!(m.account_id.as_deref(), Some(""));
}

#[test]
fn new_order_defaults_to_day_duration() {
    let mut api = RithmicSenderApi::new(&conn());
    let (m, _) = api.request_new_order("CME", "ESZ4", 2, 5000.0f64.to_bits(), 1, 1, "L2", None);
    assert_eq!(m.template_id, 312);
    assert_eq!(m.duration, Some(1));
    assert_eq!(m.manual_or_auto, Some(2));
    assert_eq!(m.user_tag.as_deref(), Some("L2"));
    let (m, _) = api.request_new_order("CME", "ESZ4", 2, 5000.0f64.to_bits(), 1, 1, "L2", Some(2));
    assert_eq!(m.duration, Some(2));
}

#[test]
fn session_identity_is_stamped() {
    let mut api = RithmicSenderApi::new(&conn());
    api.set_identity("ACC", "FCM", "IB");
    let (m, _) = api.request_show_orders();
    assert_eq!(m.template_id, 320);
    assert_eq!(m.account_id.as_deref(), Some("ACC"));
    assert_eq!(m.fcm_id.as_deref(), Some("FCM"));
    assert_eq!(m.ib_id.as_deref(), Some("IB"));
    let (m, _) = api.request_exit_position("ESZ4", "CME");
    assert_eq!(m.template_id, 3504);
    assert_eq!(m.manual_or_auto, Some(2));
    assert_eq!(m.account_id.as_deref(), Some("ACC"));
}

#[test]
fn trade_route_is_configurable() {
    let mut api = RithmicSenderApi::new(&conn());
    let (m, _) = api.request_new_order("CME", "ESZ4", 1, 0, 1, 2, "L", None);
    assert_eq!(m.trade_route.as_deref(), Some(""));
    api.set_trade_route(rithmic_plant::sender_api::TRADE_ROUTE_DEMO);
    let (m, _) = api.request_bracket_order(bracket(1, Some(1.0)));
    assert_eq!(m.trade_route.as_deref(), Some("simulator"));
}

#[test]
fn market_data_update_bits_are_ored() {
    let mut api = RithmicSenderApi::new(&conn());
    let (m, _) = api.request_market_data_update("ESZ4", "CME", vec![1, 2, 4, 2], 1);
    assert_eq!(m.template_id, 100);
    assert_eq!(m.update_bits, Some(7));
    let (m, _) = api.request_market_data_update("ESZ4", "CME", vec![], 1);
    assert_eq!(m.update_bits, Some(0));
}

#[test]
fn search_symbols_pattern() {
    let mut api = RithmicSenderApi::new(&conn());
    let (m, _) = api.request_search_symbols(Some("ES".to_string()), None, Some(true));
    assert_eq!(m.template_id, 109);
    assert_eq!(m.pattern, Some(SEARCH_PATTERN_EQUALS));
    let (m, _) = api.request_search_symbols(None, Some(1), None);
    assert_eq!(m.pattern, Some(SEARCH_PATTERN_CONTAINS));
    assert_eq!(m.instrument_type, Some(1));
}

#[test]
fn bar_and_misc_request_templates() {
    let mut api = RithmicSenderApi::new(&conn());
    assert_eq!(api.request_time_bar_update("ESZ4", "CME", 2, 1, 1).0.template_id, 200);
    assert_eq!(api.request_time_bar_replay("ESZ4", "CME", 2, 1, 0, 10, 1, 1).0.template_id, 202);
    assert_eq!(api.request_tick_bar_update("ESZ4", "CME", 1, 1, "1", 1).0.template_id, 204);
    let (m, _) = api.request_tick_bar_replay("ESZ4", "CME", 1, 1, "5", 0, 10, 1, 2);
    assert_eq!(m.template_id, 206);
    assert_eq!(m.bar_type_specifier.as_deref(), Some("5"));
    assert_eq!(m.time_order, Some(2));
    assert_eq!(api.request_product_codes(None).0.give_toi_products_only, Some(true));
    assert_eq!(api.request_reference_data(None, None).0.template_id, 14);
    assert_eq!(api.request_rithmic_system_info().0.template_id, 16);
    assert_eq!(api.request_rithmic_system_gateway_info("Rithmic Test".to_string()).0.template_id, 20);
    assert_eq!(api.request_get_instrument_by_underlying().0.template_id, 103);
    assert_eq!(api.request_pnl_position_updates(1).0.template_id, 400);
    assert_eq!(api.request_pnl_position_snapshot().0.template_id, 402);
    assert_eq!(api.request_subscribe_for_order_updates().0.template_id, 308);
    assert_eq!(api.request_subscribe_to_bracket_updates().0.template_id, 336);
    assert_eq!(api.request_show_brackets().0.template_id, 338);
    assert_eq!(api.request_show_bracket_stops().0.template_id, 340);
    assert_eq!(api.request_update_target_bracket_level("B", 5).0.target_ticks, Some(5));
    assert_eq!(api.request_update_stop_bracket_level("B", 6).0.stop_ticks, Some(6));
}
