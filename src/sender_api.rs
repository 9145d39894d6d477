use vstd::prelude::*;

use crate::command_types::{
    RithmicBracketOrder, RithmicConnectionInfo, BRACKET_TYPE_TARGET_AND_STOP, DURATION_DAY,
    MANUAL_OR_AUTO_AUTO, PRICE_TYPE_MARKET, PRICE_TYPE_STOP_LIMIT, PRICE_TYPE_STOP_MARKET,
    SEARCH_PATTERN_CONTAINS, SEARCH_PATTERN_EQUALS,
};
use crate::message::{blank_view, opt_str, OutboundMessage, OutboundMessageView};
use crate::tag::{decimal_of, decimal_string, decimal_value, lemma_decimal_round_trip};

verus! {

/// Trade route of live trading.
pub const TRADE_ROUTE_LIVE: &'static str = "globex";

/// Trade route of the demo environment.
pub const TRADE_ROUTE_DEMO: &'static str = "simulator";

/// `user_type` of every bracket order.
pub const USER_TYPE: i32 = 3;

/// The bitwise or of all the values.
pub open spec fn or_all(s: Seq<u32>) -> u32
    decreases s.len(),
{
    if s.len() == 0 {
        0
    } else {
        or_all(s.drop_last()) | s.last()
    }
}

/// The session identifiers that order-bearing requests carry.
pub struct SessionIdentity {
    pub account_id: Seq<char>,
    pub fcm_id: Seq<char>,
    pub ib_id: Seq<char>,
}

/// Builds the outbound requests of one connection and stamps each with a
/// fresh correlation tag.
#[derive(Debug, Clone)]
pub struct RithmicSenderApi {
    account_id: String,
    conn_info: RithmicConnectionInfo,
    fcm_id: String,
    ib_id: String,
    message_id_counter: u64,
    trade_route: String,
}

impl RithmicSenderApi {
    /// How many tags this encoder has handed out; the last one is its decimal text.
    pub closed spec fn counter(&self) -> nat {
        self.message_id_counter as nat
    }

    /// The session identifiers stamped on order-bearing requests.
    pub closed spec fn identity(&self) -> SessionIdentity {
        SessionIdentity { account_id: self.account_id@, fcm_id: self.fcm_id@, ib_id: self.ib_id@ }
    }

    /// The trade route stamped on new and bracket orders.
    pub closed spec fn route(&self) -> Seq<char> {
        self.trade_route@
    }

    /// The connection configuration the encoder was made with.
    pub closed spec fn config(&self) -> RithmicConnectionInfo {
        self.conn_info
    }

    /// Another tag can be handed out without the counter overflowing.
    pub open spec fn can_tag(&self) -> bool {
        self.counter() < u64::MAX
    }

    /// `self` is `prev` after handing out exactly one tag.
    pub open spec fn stepped_from(&self, prev: &RithmicSenderApi) -> bool {
        &&& self.counter() == prev.counter() + 1
        &&& self.identity() == prev.identity()
        &&& self.route() == prev.route()
        &&& self.config() == prev.config()
    }

    /// The tag handed out last.
    pub open spec fn last_tag(&self) -> Seq<char> {
        decimal_of(self.counter())
    }

    /// `m` stamps the session identifiers of `self`.
    pub open spec fn stamps_identity(&self, m: OutboundMessageView) -> OutboundMessageView {
        OutboundMessageView {
            fcm_id: Some(self.identity().fcm_id),
            ib_id: Some(self.identity().ib_id),
            account_id: Some(self.identity().account_id),
            ..m
        }
    }

    /// The message that `request_market_data_update` builds with tag `tag`.
    pub open spec fn market_data_update_message(&self, symbol: Seq<char>, exchange: Seq<char>, fields: Vec<u32>, request_type: i32, tag: Seq<char>) -> OutboundMessageView {
        OutboundMessageView {
            symbol: Some(symbol),
            exchange: Some(exchange),
            request: Some(request_type),
            update_bits: Some(or_all(fields@)),
            ..blank_view(100, tag)
        }
    }

    /// The message that `request_new_order` builds with tag `tag`.
    pub open spec fn new_order_message(&self, exchange: Seq<char>, symbol: Seq<char>, qty: i32, price: u64, action: i32, ordertype: i32, localid: Seq<char>, duration: Option<i32>, tag: Seq<char>) -> OutboundMessageView {
        self.stamps_identity(OutboundMessageView {
            trade_route: Some(self.route()),
            exchange: Some(exchange),
            symbol: Some(symbol),
            quantity: Some(qty),
            price: Some(price),
            transaction_type: Some(action),
            price_type: Some(ordertype),
            manual_or_auto: Some(MANUAL_OR_AUTO_AUTO),
            duration: Some(match duration { Some(d) => d, None => DURATION_DAY }),
            user_tag: Some(localid),
            ..blank_view(312, tag)
            })
    }

    /// The message that `request_modify_order` builds with tag `tag`.
    pub open spec fn modify_order_message(&self, basket_id: Seq<char>, exchange: Seq<char>, symbol: Seq<char>, qty: i32, price: u64, ordertype: i32, tag: Seq<char>) -> OutboundMessageView {
        self.stamps_identity(OutboundMessageView {
            basket_id: Some(basket_id),
            manual_or_auto: Some(MANUAL_OR_AUTO_AUTO),
            exchange: Some(exchange),
            symbol: Some(symbol),
            price_type: Some(ordertype),
            quantity: Some(qty),
            price: Some(price),
            trigger_price: if ordertype == PRICE_TYPE_STOP_LIMIT || ordertype == PRICE_TYPE_STOP_MARKET { Some(price) } else { None },
            ..blank_view(314, tag)
            })
    }

    /// The message that `request_heartbeat` builds with tag `tag`.
    pub open spec fn heartbeat_message(&self, tag: Seq<char>) -> OutboundMessageView {
        blank_view(18, tag)
    }

    /// The message that `request_login` builds with tag `tag`.
    pub open spec fn login_message(&self, system_name: Seq<char>, infra_type: i32, user: Seq<char>, password: Seq<char>, tag: Seq<char>) -> OutboundMessageView {
        OutboundMessageView {
            template_version: Some("5.27"@),
            user: Some(user),
            password: Some(password),
            app_name: Some("pede:pts"@),
            app_version: Some("1"@),
            system_name: Some(system_name),
            infra_type: Some(infra_type),
            ..blank_view(10, tag)
        }
    }

    /// The message that `request_bracket_order` builds with tag `tag`.
    pub open spec fn bracket_order_message(&self, bracket_order: RithmicBracketOrder, tag: Seq<char>) -> OutboundMessageView {
        self.stamps_identity(OutboundMessageView {
            trade_route: Some(self.route()),
            exchange: Some(bracket_order.exchange@),
            symbol: Some(bracket_order.symbol@),
            user_type: Some(USER_TYPE),
            quantity: Some(bracket_order.qty),
            transaction_type: Some(bracket_order.action),
            price_type: Some(bracket_order.ordertype),
            manual_or_auto: Some(MANUAL_OR_AUTO_AUTO),
            duration: Some(bracket_order.duration),
            bracket_type: Some(BRACKET_TYPE_TARGET_AND_STOP),
            target_quantity: Some(bracket_order.qty),
            stop_quantity: Some(bracket_order.qty),
            target_ticks: Some(bracket_order.profit_ticks),
            stop_ticks: Some(bracket_order.stop_ticks),
            price: if bracket_order.ordertype == PRICE_TYPE_MARKET {
                None
            } else {
                bracket_order.price
            },
            user_tag: Some(bracket_order.localid@),
            ..blank_view(330, tag)
        })
    }

    /// The message that `request_logout` builds with tag `tag`.
    pub open spec fn logout_message(&self, tag: Seq<char>) -> OutboundMessageView {
        blank_view(12, tag)
    }

    /// The message that `request_get_instrument_by_underlying` builds with tag `tag`.
    pub open spec fn get_instrument_by_underlying_message(&self, tag: Seq<char>) -> OutboundMessageView {
        blank_view(103, tag)
    }

    /// The message that `request_rithmic_system_info` builds with tag `tag`.
    pub open spec fn rithmic_system_info_message(&self, tag: Seq<char>) -> OutboundMessageView {
        blank_view(16, tag)
    }

    /// The message that `request_rithmic_system_gateway_info` builds with tag `tag`.
    pub open spec fn rithmic_system_gateway_info_message(&self, system_name: String, tag: Seq<char>) -> OutboundMessageView {
        OutboundMessageView {
            system_name: Some(system_name@),
            ..blank_view(20, tag)
        }
    }

    /// The message that `request_reference_data` builds with tag `tag`.
    pub open spec fn reference_data_message(&self, symbol: Option<String>, exchange: Option<String>, tag: Seq<char>) -> OutboundMessageView {
        OutboundMessageView {
            symbol: opt_str(symbol),
            exchange: opt_str(exchange),
            ..blank_view(14, tag)
        }
    }

    /// The message that `request_product_codes` builds with tag `tag`.
    pub open spec fn product_codes_message(&self, exchange: Option<String>, tag: Seq<char>) -> OutboundMessageView {
        OutboundMessageView {
            exchange: opt_str(exchange),
            give_toi_products_only: Some(true),
            ..blank_view(111, tag)
        }
    }

    /// The message that `request_search_symbols` builds with tag `tag`.
    pub open spec fn search_symbols_message(&self, search_text: Option<String>, instrument_type: Option<i32>, exact_search: Option<bool>, tag: Seq<char>) -> OutboundMessageView {
        OutboundMessageView {
            search_text: opt_str(search_text),
            instrument_type: instrument_type,
            pattern: Some(if exact_search == Some(true) { SEARCH_PATTERN_EQUALS } else { SEARCH_PATTERN_CONTAINS }),
            ..blank_view(109, tag)
        }
    }

    /// The message that `request_subscribe_for_order_updates` builds with tag `tag`.
    pub open spec fn subscribe_for_order_updates_message(&self, tag: Seq<char>) -> OutboundMessageView {
        self.stamps_identity(blank_view(308, tag))
    }

    /// The message that `request_subscribe_to_bracket_updates` builds with tag `tag`.
    pub open spec fn subscribe_to_bracket_updates_message(&self, tag: Seq<char>) -> OutboundMessageView {
        self.stamps_identity(blank_view(336, tag))
    }

    /// The message that `request_tick_bar_replay` builds with tag `tag`.
    pub open spec fn tick_bar_replay_message(&self, symbol: Seq<char>, exchange: Seq<char>, bar_type: i32, bar_sub_type: i32, bar_type_specifier: Seq<char>, start_index: i32, finish_index: i32, direction: i32, time_order: i32, tag: Seq<char>) -> OutboundMessageView {
        OutboundMessageView {
            symbol: Some(symbol),
            exchange: Some(exchange),
            bar_type: Some(bar_type),
            bar_sub_type: Some(bar_sub_type),
            bar_type_specifier: Some(bar_type_specifier),
            start_index: Some(start_index),
            finish_index: Some(finish_index),
            direction: Some(direction),
            time_order: Some(time_order),
            ..blank_view(206, tag)
        }
    }

    /// The message that `request_tick_bar_update` builds with tag `tag`.
    pub open spec fn tick_bar_update_message(&self, symbol: Seq<char>, exchange: Seq<char>, bar_type: i32, bar_sub_type: i32, bar_type_specifier: Seq<char>, request_type: i32, tag: Seq<char>) -> OutboundMessageView {
        OutboundMessageView {
            symbol: Some(symbol),
            exchange: Some(exchange),
            bar_type: Some(bar_type),
            bar_sub_type: Some(bar_sub_type),
            bar_type_specifier: Some(bar_type_specifier),
            request: Some(request_type),
            ..blank_view(204, tag)
        }
    }

    /// The message that `request_time_bar_replay` builds with tag `tag`.
    pub open spec fn time_bar_replay_message(&self, symbol: Seq<char>, exchange: Seq<char>, bar_type: i32, bar_type_period: i32, start_index: i32, finish_index: i32, direction: i32, time_order: i32, tag: Seq<char>) -> OutboundMessageView {
        OutboundMessageView {
            symbol: Some(symbol),
            exchange: Some(exchange),
            bar_type: Some(bar_type),
            bar_type_period: Some(bar_type_period),
            start_index: Some(start_index),
            finish_index: Some(finish_index),
            direction: Some(direction),
            time_order: Some(time_order),
            ..blank_view(202, tag)
        }
    }

    /// The message that `request_time_bar_update` builds with tag `tag`.
    pub open spec fn time_bar_update_message(&self, symbol: Seq<char>, exchange: Seq<char>, bar_type: i32, bar_type_period: i32, request_type: i32, tag: Seq<char>) -> OutboundMessageView {
        OutboundMessageView {
            symbol: Some(symbol),
            exchange: Some(exchange),
            bar_type: Some(bar_type),
            bar_type_period: Some(bar_type_period),
            request: Some(request_type),
            ..blank_view(200, tag)
        }
    }

    /// The message that `request_cancel_order` builds with tag `tag`.
    pub open spec fn cancel_order_message(&self, basket_id: Seq<char>, tag: Seq<char>) -> OutboundMessageView {
        self.stamps_identity(OutboundMessageView {
            basket_id: Some(basket_id),
            manual_or_auto: Some(MANUAL_OR_AUTO_AUTO),
            ..blank_view(316, tag)
        })
    }

    /// The message that `request_exit_position` builds with tag `tag`.
    pub open spec fn exit_position_message(&self, symbol: Seq<char>, exchange: Seq<char>, tag: Seq<char>) -> OutboundMessageView {
        self.stamps_identity(OutboundMessageView {
            symbol: Some(symbol),
            exchange: Some(exchange),
            manual_or_auto: Some(MANUAL_OR_AUTO_AUTO),
            ..blank_view(3504, tag)
        })
    }

    /// The message that `request_update_target_bracket_level` builds with tag `tag`.
    pub open spec fn update_target_bracket_level_message(&self, basket_id: Seq<char>, profit_ticks: i32, tag: Seq<char>) -> OutboundMessageView {
        self.stamps_identity(OutboundMessageView {
            basket_id: Some(basket_id),
            target_ticks: Some(profit_ticks),
            ..blank_view(332, tag)
        })
    }

    /// The message that `request_update_stop_bracket_level` builds with tag `tag`.
    pub open spec fn update_stop_bracket_level_message(&self, basket_id: Seq<char>, stop_ticks: i32, tag: Seq<char>) -> OutboundMessageView {
        self.stamps_identity(OutboundMessageView {
            basket_id: Some(basket_id),
            stop_ticks: Some(stop_ticks),
            ..blank_view(334, tag)
        })
    }

    /// The message that `request_show_brackets` builds with tag `tag`.
    pub open spec fn show_brackets_message(&self, tag: Seq<char>) -> OutboundMessageView {
        self.stamps_identity(blank_view(338, tag))
    }

    /// The message that `request_show_bracket_stops` builds with tag `tag`.
    pub open spec fn show_bracket_stops_message(&self, tag: Seq<char>) -> OutboundMessageView {
        self.stamps_identity(blank_view(340, tag))
    }

    /// The message that `request_show_orders` builds with tag `tag`.
    pub open spec fn show_orders_message(&self, tag: Seq<char>) -> OutboundMessageView {
        self.stamps_identity(blank_view(320, tag))
    }

    /// The message that `request_pnl_position_updates` builds with tag `tag`.
    pub open spec fn pnl_position_updates_message(&self, action: i32, tag: Seq<char>) -> OutboundMessageView {
        self.stamps_identity(OutboundMessageView {
            request: Some(action),
            ..blank_view(400, tag)
        })
    }

    /// The message that `request_pnl_position_snapshot` builds with tag `tag`.
    pub open spec fn pnl_position_snapshot_message(&self, tag: Seq<char>) -> OutboundMessageView {
        self.stamps_identity(blank_view(402, tag))
    }

    pub fn new(conn_info: &RithmicConnectionInfo) -> (r: RithmicSenderApi)
        ensures
            r.counter() == 0,
            r.identity() == (SessionIdentity {
                account_id: Seq::<char>::empty(),
                fcm_id: Seq::<char>::empty(),
                ib_id: Seq::<char>::empty(),
            }),
            r.route() == Seq::<char>::empty(),
            r.config() == *conn_info,
    {
        RithmicSenderApi {
            account_id: String::new(),
            conn_info: RithmicConnectionInfo {
                url: conn_info.url.clone(),
                system_name: conn_info.system_name.clone(),
                user: conn_info.user.clone(),
                password: conn_info.password.clone(),
            },
            fcm_id: String::new(),
            ib_id: String::new(),
            message_id_counter: 0,
            trade_route: String::new(),
        }
    }

    /// Sets the session identifiers that later order-bearing requests carry.
    pub fn set_identity(&mut self, account_id: &str, fcm_id: &str, ib_id: &str)
        ensures
            final(self).identity() == (SessionIdentity {
                account_id: account_id@,
                fcm_id: fcm_id@,
                ib_id: ib_id@,
            }),
            final(self).counter() == old(self).counter(),
            final(self).route() == old(self).route(),
            final(self).config() == old(self).config(),
    {
        self.account_id = account_id.to_string();
        self.fcm_id = fcm_id.to_string();
        self.ib_id = ib_id.to_string();
    }

    /// Sets the trade route that later new and bracket orders carry.
    pub fn set_trade_route(&mut self, trade_route: &str)
        ensures
            final(self).route() == trade_route@,
            final(self).counter() == old(self).counter(),
            final(self).identity() == old(self).identity(),
            final(self).config() == old(self).config(),
    {
        self.trade_route = trade_route.to_string();
    }

    /// Whether another tag can be handed out.
    pub fn has_next_tag(&self) -> (r: bool)
        ensures
            r == self.can_tag(),
    {
        self.message_id_counter < u64::MAX
    }

    fn get_next_message_id(&mut self) -> (r: String)
        requires
            old(self).can_tag(),
        ensures
            final(self).stepped_from(old(self)),
            r@ == final(self).last_tag(),
    {
        self.message_id_counter = self.message_id_counter + 1;
        decimal_string(self.message_id_counter)
    }

    fn stamp_identity(&self, m: &mut OutboundMessage)
        ensures
            final(m)@ == self.stamps_identity(old(m)@),
    {
        m.fcm_id = Some(self.fcm_id.clone());
        m.ib_id = Some(self.ib_id.clone());
        m.account_id = Some(self.account_id.clone());
    }

    pub fn request_heartbeat(&mut self) -> (r: (OutboundMessage, String))
        requires
            old(self).can_tag(),
        ensures
            final(self).stepped_from(old(self)),
            r.1@ == final(self).last_tag(),
            r.0@ == old(self).heartbeat_message(r.1@),
    {
        let id = self.get_next_message_id();
        let req = OutboundMessage::blank(18, &id);
        (req, id)
    }

    pub fn request_login(&mut self, system_name: &str, infra_type: i32, user: &str, password: &str) -> (r: (OutboundMessage, String))
        requires
            old(self).can_tag(),
        ensures
            final(self).stepped_from(old(self)),
            r.1@ == final(self).last_tag(),
            r.0@ == old(self).login_message(system_name@, infra_type, user@, password@, r.1@),
    {
        let id = self.get_next_message_id();
        let mut req = OutboundMessage::blank(10, &id);
        req.template_version = Some("5.27".to_string());
        req.user = Some(user.to_string());
        req.password = Some(password.to_string());
        req.app_name = Some("pede:pts".to_string());
        req.app_version = Some("1".to_string());
        req.system_name = Some(system_name.to_string());
        req.infra_type = Some(infra_type);
        (req, id)
    }

    pub fn request_bracket_order(&mut self, bracket_order: RithmicBracketOrder) -> (r: (OutboundMessage, String))
        requires
            old(self).can_tag(),
        ensures
            final(self).stepped_from(old(self)),
            r.1@ == final(self).last_tag(),
            r.0@ == old(self).bracket_order_message(bracket_order, r.1@),
    {
        let id = self.get_next_message_id();
        let mut req = OutboundMessage::blank(330, &id);
        self.stamp_identity(&mut req);
        req.trade_route = Some(self.trade_route.clone());
        req.exchange = Some(bracket_order.exchange);
        req.symbol = Some(bracket_order.symbol);
        req.user_type = Some(USER_TYPE);
        req.quantity = Some(bracket_order.qty);
        req.transaction_type = Some(bracket_order.action);
        req.price_type = Some(bracket_order.ordertype);
        req.manual_or_auto = Some(MANUAL_OR_AUTO_AUTO);
        req.duration = Some(bracket_order.duration);
        req.bracket_type = Some(BRACKET_TYPE_TARGET_AND_STOP);
        req.target_quantity = Some(bracket_order.qty);
        req.stop_quantity = Some(bracket_order.qty);
        req.target_ticks = Some(bracket_order.profit_ticks);
        req.stop_ticks = Some(bracket_order.stop_ticks);
        req.price = if bracket_order.ordertype != PRICE_TYPE_MARKET {
            bracket_order.price
        } else {
            None
        };
        req.user_tag = Some(bracket_order.localid);
        (req, id)
    }

    pub fn request_logout(&mut self) -> (r: (OutboundMessage, String))
        requires
            old(self).can_tag(),
        ensures
            final(self).stepped_from(old(self)),
            r.1@ == final(self).last_tag(),
            r.0@ == old(self).logout_message(r.1@),
    {
        let id = self.get_next_message_id();
        let req = OutboundMessage::blank(12, &id);
        (req, id)
    }

    pub fn request_get_instrument_by_underlying(&mut self) -> (r: (OutboundMessage, String))
        requires
            old(self).can_tag(),
        ensures
            final(self).stepped_from(old(self)),
            r.1@ == final(self).last_tag(),
            r.0@ == old(self).get_instrument_by_underlying_message(r.1@),
    {
        let id = self.get_next_message_id();
        let req = OutboundMessage::blank(103, &id);
        (req, id)
    }

    pub fn request_rithmic_system_info(&mut self) -> (r: (OutboundMessage, String))
        requires
            old(self).can_tag(),
        ensures
            final(self).stepped_from(old(self)),
            r.1@ == final(self).last_tag(),
            r.0@ == old(self).rithmic_system_info_message(r.1@),
    {
        let id = self.get_next_message_id();
        let req = OutboundMessage::blank(16, &id);
        (req, id)
    }

    pub fn request_rithmic_system_gateway_info(&mut self, system_name: String) -> (r: (OutboundMessage, String))
        requires
            old(self).can_tag(),
        ensures
            final(self).stepped_from(old(self)),
            r.1@ == final(self).last_tag(),
            r.0@ == old(self).rithmic_system_gateway_info_message(system_name, r.1@),
    {
        let id = self.get_next_message_id();
        let mut req = OutboundMessage::blank(20, &id);
        req.system_name = Some(system_name);
        (req, id)
    }

    pub fn request_reference_data(&mut self, symbol: Option<String>, exchange: Option<String>) -> (r: (OutboundMessage, String))
        requires
            old(self).can_tag(),
        ensures
            final(self).stepped_from(old(self)),
            r.1@ == final(self).last_tag(),
            r.0@ == old(self).reference_data_message(symbol, exchange, r.1@),
    {
        let id = self.get_next_message_id();
        let mut req = OutboundMessage::blank(14, &id);
        req.symbol = symbol;
        req.exchange = exchange;
        (req, id)
    }

    pub fn request_product_codes(&mut self, exchange: Option<String>) -> (r: (OutboundMessage, String))
        requires
            old(self).can_tag(),
        ensures
            final(self).stepped_from(old(self)),
            r.1@ == final(self).last_tag(),
            r.0@ == old(self).product_codes_message(exchange, r.1@),
    {
        let id = self.get_next_message_id();
        let mut req = OutboundMessage::blank(111, &id);
        req.exchange = exchange;
        req.give_toi_products_only = Some(true);
        (req, id)
    }

    /// `update_bits` is the bitwise or of the requested field bits.
    pub fn request_market_data_update(&mut self, symbol: &str, exchange: &str, fields: Vec<u32>, request_type: i32) -> (r: (OutboundMessage, String))
        requires
            old(self).can_tag(),
        ensures
            final(self).stepped_from(old(self)),
            r.1@ == final(self).last_tag(),
            r.0@ == old(self).market_data_update_message(symbol@, exchange@, fields, request_type, r.1@),
    {
        let mut bits: u32 = 0;
        let mut i: usize = 0;
        while i < fields.len()
            invariant
                0 <= i <= fields@.len(),
                bits == or_all(fields@.subrange(0, i as int)),
            decreases fields@.len() - i,
        {
            assert(fields@.subrange(0, i + 1).drop_last() == fields@.subrange(0, i as int));
            bits = bits | fields[i];
            i = i + 1;
        }
        assert(fields@.subrange(0, fields@.len() as int) == fields@);
        let id = self.get_next_message_id();
        let mut req = OutboundMessage::blank(100, &id);
        req.symbol = Some(symbol.to_string());
        req.exchange = Some(exchange.to_string());
        req.request = Some(request_type);
        req.update_bits = Some(bits);
        (req, id)
    }

    pub fn request_search_symbols(&mut self, search_text: Option<String>, instrument_type: Option<i32>, exact_search: Option<bool>) -> (r: (OutboundMessage, String))
        requires
            old(self).can_tag(),
        ensures
            final(self).stepped_from(old(self)),
            r.1@ == final(self).last_tag(),
            r.0@ == old(self).search_symbols_message(search_text, instrument_type, exact_search, r.1@),
    {
        let id = self.get_next_message_id();
        let mut req = OutboundMessage::blank(109, &id);
        req.search_text = search_text;
        req.instrument_type = instrument_type;
        req.pattern = Some(match exact_search {
            Some(true) => SEARCH_PATTERN_EQUALS,
            _ => SEARCH_PATTERN_CONTAINS,
        });
        (req, id)
    }

    pub fn request_subscribe_for_order_updates(&mut self) -> (r: (OutboundMessage, String))
        requires
            old(self).can_tag(),
        ensures
            final(self).stepped_from(old(self)),
            r.1@ == final(self).last_tag(),
            r.0@ == old(self).subscribe_for_order_updates_message(r.1@),
    {
        let id = self.get_next_message_id();
        let mut req = OutboundMessage::blank(308, &id);
        self.stamp_identity(&mut req);
        (req, id)
    }

    pub fn request_subscribe_to_bracket_updates(&mut self) -> (r: (OutboundMessage, String))
        requires
            old(self).can_tag(),
        ensures
            final(self).stepped_from(old(self)),
            r.1@ == final(self).last_tag(),
            r.0@ == old(self).subscribe_to_bracket_updates_message(r.1@),
    {
        let id = self.get_next_message_id();
        let mut req = OutboundMessage::blank(336, &id);
        self.stamp_identity(&mut req);
        (req, id)
    }

    pub fn request_tick_bar_replay(&mut self, symbol: &str, exchange: &str, bar_type: i32, bar_sub_type: i32, bar_type_specifier: &str, start_index: i32, finish_index: i32, direction: i32, time_order: i32) -> (r: (OutboundMessage, String))
        requires
            old(self).can_tag(),
        ensures
            final(self).stepped_from(old(self)),
            r.1@ == final(self).last_tag(),
            r.0@ == old(self).tick_bar_replay_message(symbol@, exchange@, bar_type, bar_sub_type, bar_type_specifier@, start_index, finish_index, direction, time_order, r.1@),
    {
        let id = self.get_next_message_id();
        let mut req = OutboundMessage::blank(206, &id);
        req.symbol = Some(symbol.to_string());
        req.exchange = Some(exchange.to_string());
        req.bar_type = Some(bar_type);
        req.bar_sub_type = Some(bar_sub_type);
        req.bar_type_specifier = Some(bar_type_specifier.to_string());
        req.start_index = Some(start_index);
        req.finish_index = Some(finish_index);
        req.direction = Some(direction);
        req.time_order = Some(time_order);
        (req, id)
    }

    pub fn request_tick_bar_update(&mut self, symbol: &str, exchange: &str, bar_type: i32, bar_sub_type: i32, bar_type_specifier: &str, request_type: i32) -> (r: (OutboundMessage, String))
        requires
            old(self).can_tag(),
        ensures
            final(self).stepped_from(old(self)),
            r.1@ == final(self).last_tag(),
            r.0@ == old(self).tick_bar_update_message(symbol@, exchange@, bar_type, bar_sub_type, bar_type_specifier@, request_type, r.1@),
    {
        let id = self.get_next_message_id();
        let mut req = OutboundMessage::blank(204, &id);
        req.symbol = Some(symbol.to_string());
        req.exchange = Some(exchange.to_string());
        req.bar_type = Some(bar_type);
        req.bar_sub_type = Some(bar_sub_type);
        req.bar_type_specifier = Some(bar_type_specifier.to_string());
        req.request = Some(request_type);
        (req, id)
    }

    pub fn request_time_bar_replay(&mut self, symbol: &str, exchange: &str, bar_type: i32, bar_type_period: i32, start_index: i32, finish_index: i32, direction: i32, time_order: i32) -> (r: (OutboundMessage, String))
        requires
            old(self).can_tag(),
        ensures
            final(self).stepped_from(old(self)),
            r.1@ == final(self).last_tag(),
            r.0@ == old(self).time_bar_replay_message(symbol@, exchange@, bar_type, bar_type_period, start_index, finish_index, direction, time_order, r.1@),
    {
        let id = self.get_next_message_id();
        let mut req = OutboundMessage::blank(202, &id);
        req.symbol = Some(symbol.to_string());
        req.exchange = Some(exchange.to_string());
        req.bar_type = Some(bar_type);
        req.bar_type_period = Some(bar_type_period);
        req.start_index = Some(start_index);
        req.finish_index = Some(finish_index);
        req.direction = Some(direction);
        req.time_order = Some(time_order);
        (req, id)
    }

    pub fn request_time_bar_update(&mut self, symbol: &str, exchange: &str, bar_type: i32, bar_type_period: i32, request_type: i32) -> (r: (OutboundMessage, String))
        requires
            old(self).can_tag(),
        ensures
            final(self).stepped_from(old(self)),
            r.1@ == final(self).last_tag(),
            r.0@ == old(self).time_bar_update_message(symbol@, exchange@, bar_type, bar_type_period, request_type, r.1@),
    {
        let id = self.get_next_message_id();
        let mut req = OutboundMessage::blank(200, &id);
        req.symbol = Some(symbol.to_string());
        req.exchange = Some(exchange.to_string());
        req.bar_type = Some(bar_type);
        req.bar_type_period = Some(bar_type_period);
        req.request = Some(request_type);
        (req, id)
    }

    /// A new order; without a duration it is a day order.
    pub fn request_new_order(&mut self, exchange: &str, symbol: &str, qty: i32, price: u64, action: i32, ordertype: i32, localid: &str, duration: Option<i32>) -> (r: (OutboundMessage, String))
        requires
            old(self).can_tag(),
        ensures
            final(self).stepped_from(old(self)),
            r.1@ == final(self).last_tag(),
            r.0@ == old(self).new_order_message(exchange@, symbol@, qty, price, action, ordertype, localid@, duration, r.1@),
    {
        let id = self.get_next_message_id();
        let mut req = OutboundMessage::blank(312, &id);
        self.stamp_identity(&mut req);
        req.trade_route = Some(self.trade_route.clone());
        req.exchange = Some(exchange.to_string());
        req.symbol = Some(symbol.to_string());
        req.quantity = Some(qty);
        req.price = Some(price);
        req.transaction_type = Some(action);
        req.price_type = Some(ordertype);
        req.manual_or_auto = Some(MANUAL_OR_AUTO_AUTO);
        req.duration = Some(match duration {
            Some(d) => d,
            None => DURATION_DAY,
        });
        req.user_tag = Some(localid.to_string());
        (req, id)
    }

    /// A stop or stop-limit modification carries its price as the trigger price too.
    pub fn request_modify_order(&mut self, basket_id: &str, exchange: &str, symbol: &str, qty: i32, price: u64, ordertype: i32) -> (r: (OutboundMessage, String))
        requires
            old(self).can_tag(),
        ensures
            final(self).stepped_from(old(self)),
            r.1@ == final(self).last_tag(),
            r.0@ == old(self).modify_order_message(basket_id@, exchange@, symbol@, qty, price, ordertype, r.1@),
    {
        let id = self.get_next_message_id();
        let mut req = OutboundMessage::blank(314, &id);
        self.stamp_identity(&mut req);
        req.basket_id = Some(basket_id.to_string());
        req.manual_or_auto = Some(MANUAL_OR_AUTO_AUTO);
        req.exchange = Some(exchange.to_string());
        req.symbol = Some(symbol.to_string());
        req.price_type = Some(ordertype);
        req.quantity = Some(qty);
        req.price = Some(price);
        req.trigger_price = if ordertype == PRICE_TYPE_STOP_LIMIT || ordertype == PRICE_TYPE_STOP_MARKET {
            Some(price)
        } else {
            None
        };
        (req, id)
    }

    pub fn request_cancel_order(&mut self, basket_id: &str) -> (r: (OutboundMessage, String))
        requires
            old(self).can_tag(),
        ensures
            final(self).stepped_from(old(self)),
            r.1@ == final(self).last_tag(),
            r.0@ == old(self).cancel_order_message(basket_id@, r.1@),
    {
        let id = self.get_next_message_id();
        let mut req = OutboundMessage::blank(316, &id);
        self.stamp_identity(&mut req);
        req.basket_id = Some(basket_id.to_string());
        req.manual_or_auto = Some(MANUAL_OR_AUTO_AUTO);
        (req, id)
    }

    pub fn request_exit_position(&mut self, symbol: &str, exchange: &str) -> (r: (OutboundMessage, String))
        requires
            old(self).can_tag(),
        ensures
            final(self).stepped_from(old(self)),
            r.1@ == final(self).last_tag(),
            r.0@ == old(self).exit_position_message(symbol@, exchange@, r.1@),
    {
        let id = self.get_next_message_id();
        let mut req = OutboundMessage::blank(3504, &id);
        self.stamp_identity(&mut req);
        req.symbol = Some(symbol.to_string());
        req.exchange = Some(exchange.to_string());
        req.manual_or_auto = Some(MANUAL_OR_AUTO_AUTO);
        (req, id)
    }

    pub fn request_update_target_bracket_level(&mut self, basket_id: &str, profit_ticks: i32) -> (r: (OutboundMessage, String))
        requires
            old(self).can_tag(),
        ensures
            final(self).stepped_from(old(self)),
            r.1@ == final(self).last_tag(),
            r.0@ == old(self).update_target_bracket_level_message(basket_id@, profit_ticks, r.1@),
    {
        let id = self.get_next_message_id();
        let mut req = OutboundMessage::blank(332, &id);
        self.stamp_identity(&mut req);
        req.basket_id = Some(basket_id.to_string());
        req.target_ticks = Some(profit_ticks);
        (req, id)
    }

    pub fn request_update_stop_bracket_level(&mut self, basket_id: &str, stop_ticks: i32) -> (r: (OutboundMessage, String))
        requires
            old(self).can_tag(),
        ensures
            final(self).stepped_from(old(self)),
            r.1@ == final(self).last_tag(),
            r.0@ == old(self).update_stop_bracket_level_message(basket_id@, stop_ticks, r.1@),
    {
        let id = self.get_next_message_id();
        let mut req = OutboundMessage::blank(334, &id);
        self.stamp_identity(&mut req);
        req.basket_id = Some(basket_id.to_string());
        req.stop_ticks = Some(stop_ticks);
        (req, id)
    }

    pub fn request_show_brackets(&mut self) -> (r: (OutboundMessage, String))
        requires
            old(self).can_tag(),
        ensures
            final(self).stepped_from(old(self)),
            r.1@ == final(self).last_tag(),
            r.0@ == old(self).show_brackets_message(r.1@),
    {
        let id = self.get_next_message_id();
        let mut req = OutboundMessage::blank(338, &id);
        self.stamp_identity(&mut req);
        (req, id)
    }

    pub fn request_show_bracket_stops(&mut self) -> (r: (OutboundMessage, String))
        requires
            old(self).can_tag(),
        ensures
            final(self).stepped_from(old(self)),
            r.1@ == final(self).last_tag(),
            r.0@ == old(self).show_bracket_stops_message(r.1@),
    {
        let id = self.get_next_message_id();
        let mut req = OutboundMessage::blank(340, &id);
        self.stamp_identity(&mut req);
        (req, id)
    }

    pub fn request_show_orders(&mut self) -> (r: (OutboundMessage, String))
        requires
            old(self).can_tag(),
        ensures
            final(self).stepped_from(old(self)),
            r.1@ == final(self).last_tag(),
            r.0@ == old(self).show_orders_message(r.1@),
    {
        let id = self.get_next_message_id();
        let mut req = OutboundMessage::blank(320, &id);
        self.stamp_identity(&mut req);
        (req, id)
    }

    pub fn request_pnl_position_updates(&mut self, action: i32) -> (r: (OutboundMessage, String))
        requires
            old(self).can_tag(),
        ensures
            final(self).stepped_from(old(self)),
            r.1@ == final(self).last_tag(),
            r.0@ == old(self).pnl_position_updates_message(action, r.1@),
    {
        let id = self.get_next_message_id();
        let mut req = OutboundMessage::blank(400, &id);
        self.stamp_identity(&mut req);
        req.request = Some(action);
        (req, id)
    }

    pub fn request_pnl_position_snapshot(&mut self) -> (r: (OutboundMessage, String))
        requires
            old(self).can_tag(),
        ensures
            final(self).stepped_from(old(self)),
            r.1@ == final(self).last_tag(),
            r.0@ == old(self).pnl_position_snapshot_message(r.1@),
    {
        let id = self.get_next_message_id();
        let mut req = OutboundMessage::blank(402, &id);
        self.stamp_identity(&mut req);
        (req, id)
    }
}

/// Along a run of encoder states that starts fresh and hands out one tag per
/// step, the k-th tag reads as the decimal number k: the tags start at "1",
/// increase strictly and never repeat.
pub proof fn lemma_tag_uniqueness(run: Seq<RithmicSenderApi>)
    requires
        run.len() >= 1,
        run[0].counter() == 0,
        forall|k: int| 0 <= k < run.len() - 1 ==> #[trigger] run[k + 1].stepped_from(&run[k]),
    ensures
        forall|k: int| 1 <= k < run.len() ==> decimal_value(#[trigger] run[k].last_tag()) == k,
        forall|a: int, b: int|
            1 <= a < b < run.len() ==> #[trigger] run[a].last_tag() != #[trigger] run[b].last_tag(),
{
    assert forall|k: int| 0 <= k < run.len() implies #[trigger] run[k].counter() == k by {
        lemma_counter_along_run(run, k);
    }
    assert forall|k: int| 1 <= k < run.len() implies decimal_value(#[trigger] run[k].last_tag()) == k by {
        lemma_decimal_round_trip(run[k].counter());
    }
    assert forall|a: int, b: int|
        1 <= a < b < run.len() implies #[trigger] run[a].last_tag() != #[trigger] run[b].last_tag() by {
        lemma_decimal_round_trip(run[a].counter());
        lemma_decimal_round_trip(run[b].counter());
    }
}

proof fn lemma_counter_along_run(run: Seq<RithmicSenderApi>, k: int)
    requires
        0 <= k < run.len(),
        run[0].counter() == 0,
        forall|j: int| 0 <= j < run.len() - 1 ==> #[trigger] run[j + 1].stepped_from(&run[j]),
    ensures
        run[k].counter() == k,
    decreases k,
{
    if k > 0 {
        lemma_counter_along_run(run, k - 1);
        assert(run[(k - 1) + 1].stepped_from(&run[k - 1]));
    }
}

/// A bracket order at the market price carries no price, whatever the caller's price.
pub proof fn lemma_market_bracket_has_no_price(api: RithmicSenderApi, order: RithmicBracketOrder, tag: Seq<char>)
    requires
        order.ordertype == PRICE_TYPE_MARKET,
    ensures
        api.bracket_order_message(order, tag).price is None,
{
}

/// A modification carries its price as trigger price exactly when it is a stop
/// or stop-limit order, and no trigger price otherwise.
pub proof fn lemma_modify_trigger_price(
    api: RithmicSenderApi,
    basket_id: Seq<char>,
    exchange: Seq<char>,
    symbol: Seq<char>,
    qty: i32,
    price: u64,
    ordertype: i32,
    tag: Seq<char>,
)
    ensures
        (ordertype == 3 || ordertype == 4) ==> api.modify_order_message(
            basket_id,
            exchange,
            symbol,
            qty,
            price,
            ordertype,
            tag,
        ).trigger_price == Some(price),
        !(ordertype == 3 || ordertype == 4) ==> api.modify_order_message(
            basket_id,
            exchange,
            symbol,
            qty,
            price,
            ordertype,
            tag,
        ).trigger_price is None,
{
}

/// Every order-bearing request is marked as automated.
pub proof fn lemma_orders_are_automated(
    api: RithmicSenderApi,
    order: RithmicBracketOrder,
    basket_id: Seq<char>,
    exchange: Seq<char>,
    symbol: Seq<char>,
    qty: i32,
    price: u64,
    action: i32,
    ordertype: i32,
    localid: Seq<char>,
    duration: Option<i32>,
    tag: Seq<char>,
)
    ensures
        api.bracket_order_message(order, tag).manual_or_auto == Some(2i32),
        api.new_order_message(exchange, symbol, qty, price, action, ordertype, localid, duration, tag).manual_or_auto
            == Some(2i32),
        api.modify_order_message(basket_id, exchange, symbol, qty, price, ordertype, tag).manual_or_auto
            == Some(2i32),
        api.cancel_order_message(basket_id, tag).manual_or_auto == Some(2i32),
        api.exit_position_message(symbol, exchange, tag).manual_or_auto == Some(2i32),
{
}

/// A new order without a duration is a day order.
pub proof fn lemma_new_order_default_duration(
    api: RithmicSenderApi,
    exchange: Seq<char>,
    symbol: Seq<char>,
    qty: i32,
    price: u64,
    action: i32,
    ordertype: i32,
    localid: Seq<char>,
    tag: Seq<char>,
)
    ensures
        api.new_order_message(exchange, symbol, qty, price, action, ordertype, localid, None, tag).duration
            == Some(1i32),
{
}

/// The `update_bits` of a market-data subscription is the bitwise or of the
/// requested field bits.
pub proof fn lemma_update_bits(
    api: RithmicSenderApi,
    symbol: Seq<char>,
    exchange: Seq<char>,
    fields: Vec<u32>,
    request_type: i32,
    tag: Seq<char>,
)
    ensures
        api.market_data_update_message(symbol, exchange, fields, request_type, tag).update_bits
            == Some(or_all(fields@)),
        fields@.len() == 0 ==> api.market_data_update_message(symbol, exchange, fields, request_type, tag).update_bits
            == Some(0u32),
{
}

} // verus!
