use vstd::prelude::*;

verus! {

/// An outbound request as the schema describes it: its template id, the
/// correlation tag carried in `user_msg`, and the optional business fields.
/// Prices are carried as the bit pattern of the IEEE-754 double that the
/// schema transmits.
#[derive(Debug, Clone)]
pub struct OutboundMessage {
    pub template_id: i32,
    pub user_msg: Vec<String>,
    pub template_version: Option<String>,
    pub user: Option<String>,
    pub password: Option<String>,
    pub app_name: Option<String>,
    pub app_version: Option<String>,
    pub system_name: Option<String>,
    pub infra_type: Option<i32>,
    pub fcm_id: Option<String>,
    pub ib_id: Option<String>,
    pub account_id: Option<String>,
    pub trade_route: Option<String>,
    pub exchange: Option<String>,
    pub symbol: Option<String>,
    pub quantity: Option<i32>,
    pub price: Option<u64>,
    pub trigger_price: Option<u64>,
    pub transaction_type: Option<i32>,
    pub price_type: Option<i32>,
    pub manual_or_auto: Option<i32>,
    pub duration: Option<i32>,
    pub user_type: Option<i32>,
    pub bracket_type: Option<i32>,
    pub target_quantity: Option<i32>,
    pub stop_quantity: Option<i32>,
    pub target_ticks: Option<i32>,
    pub stop_ticks: Option<i32>,
    pub user_tag: Option<String>,
    pub basket_id: Option<String>,
    pub request: Option<i32>,
    pub update_bits: Option<u32>,
    pub give_toi_products_only: Option<bool>,
    pub search_text: Option<String>,
    pub instrument_type: Option<i32>,
    pub pattern: Option<i32>,
    pub bar_type: Option<i32>,
    pub bar_sub_type: Option<i32>,
    pub bar_type_specifier: Option<String>,
    pub bar_type_period: Option<i32>,
    pub start_index: Option<i32>,
    pub finish_index: Option<i32>,
    pub direction: Option<i32>,
    pub time_order: Option<i32>,
}

/// The mathematical value of an [`OutboundMessage`]: strings as character sequences.
pub struct OutboundMessageView {
    pub template_id: i32,
    pub user_msg: Seq<Seq<char>>,
    pub template_version: Option<Seq<char>>,
    pub user: Option<Seq<char>>,
    pub password: Option<Seq<char>>,
    pub app_name: Option<Seq<char>>,
    pub app_version: Option<Seq<char>>,
    pub system_name: Option<Seq<char>>,
    pub infra_type: Option<i32>,
    pub fcm_id: Option<Seq<char>>,
    pub ib_id: Option<Seq<char>>,
    pub account_id: Option<Seq<char>>,
    pub trade_route: Option<Seq<char>>,
    pub exchange: Option<Seq<char>>,
    pub symbol: Option<Seq<char>>,
    pub quantity: Option<i32>,
    pub price: Option<u64>,
    pub trigger_price: Option<u64>,
    pub transaction_type: Option<i32>,
    pub price_type: Option<i32>,
    pub manual_or_auto: Option<i32>,
    pub duration: Option<i32>,
    pub user_type: Option<i32>,
    pub bracket_type: Option<i32>,
    pub target_quantity: Option<i32>,
    pub stop_quantity: Option<i32>,
    pub target_ticks: Option<i32>,
    pub stop_ticks: Option<i32>,
    pub user_tag: Option<Seq<char>>,
    pub basket_id: Option<Seq<char>>,
    pub request: Option<i32>,
    pub update_bits: Option<u32>,
    pub give_toi_products_only: Option<bool>,
    pub search_text: Option<Seq<char>>,
    pub instrument_type: Option<i32>,
    pub pattern: Option<i32>,
    pub bar_type: Option<i32>,
    pub bar_sub_type: Option<i32>,
    pub bar_type_specifier: Option<Seq<char>>,
    pub bar_type_period: Option<i32>,
    pub start_index: Option<i32>,
    pub finish_index: Option<i32>,
    pub direction: Option<i32>,
    pub time_order: Option<i32>,
}

/// The characters of an optional string.
pub open spec fn opt_str(o: Option<String>) -> Option<Seq<char>> {
    match o {
        Some(s) => Some(s@),
        None => None,
    }
}

impl View for OutboundMessage {
    type V = OutboundMessageView;

    open spec fn view(&self) -> OutboundMessageView {
        OutboundMessageView {
            template_id: self.template_id,
            user_msg: self.user_msg@.map_values(|s: String| s@),
            template_version: opt_str(self.template_version),
            user: opt_str(self.user),
            password: opt_str(self.password),
            app_name: opt_str(self.app_name),
            app_version: opt_str(self.app_version),
            system_name: opt_str(self.system_name),
            infra_type: self.infra_type,
            fcm_id: opt_str(self.fcm_id),
            ib_id: opt_str(self.ib_id),
            account_id: opt_str(self.account_id),
            trade_route: opt_str(self.trade_route),
            exchange: opt_str(self.exchange),
            symbol: opt_str(self.symbol),
            quantity: self.quantity,
            price: self.price,
            trigger_price: self.trigger_price,
            transaction_type: self.transaction_type,
            price_type: self.price_type,
            manual_or_auto: self.manual_or_auto,
            duration: self.duration,
            user_type: self.user_type,
            bracket_type: self.bracket_type,
            target_quantity: self.target_quantity,
            stop_quantity: self.stop_quantity,
            target_ticks: self.target_ticks,
            stop_ticks: self.stop_ticks,
            user_tag: opt_str(self.user_tag),
            basket_id: opt_str(self.basket_id),
            request: self.request,
            update_bits: self.update_bits,
            give_toi_products_only: self.give_toi_products_only,
            search_text: opt_str(self.search_text),
            instrument_type: self.instrument_type,
            pattern: self.pattern,
            bar_type: self.bar_type,
            bar_sub_type: self.bar_sub_type,
            bar_type_specifier: opt_str(self.bar_type_specifier),
            bar_type_period: self.bar_type_period,
            start_index: self.start_index,
            finish_index: self.finish_index,
            direction: self.direction,
            time_order: self.time_order,
        }
    }
}

/// A message of the given template that carries `tag` and no business field.
pub open spec fn blank_view(template_id: i32, tag: Seq<char>) -> OutboundMessageView {
    OutboundMessageView {
        template_id,
        user_msg: seq![tag],
        template_version: None,
        user: None,
        password: None,
        app_name: None,
        app_version: None,
        system_name: None,
        infra_type: None,
        fcm_id: None,
        ib_id: None,
        account_id: None,
        trade_route: None,
        exchange: None,
        symbol: None,
        quantity: None,
        price: None,
        trigger_price: None,
        transaction_type: None,
        price_type: None,
        manual_or_auto: None,
        duration: None,
        user_type: None,
        bracket_type: None,
        target_quantity: None,
        stop_quantity: None,
        target_ticks: None,
        stop_ticks: None,
        user_tag: None,
        basket_id: None,
        request: None,
        update_bits: None,
        give_toi_products_only: None,
        search_text: None,
        instrument_type: None,
        pattern: None,
        bar_type: None,
        bar_sub_type: None,
        bar_type_specifier: None,
        bar_type_period: None,
        start_index: None,
        finish_index: None,
        direction: None,
        time_order: None,
    }
}

impl OutboundMessage {
    /// A message of the given template that carries `tag` and no business field.
    pub fn blank(template_id: i32, tag: &String) -> (r: OutboundMessage)
        ensures
            r@ == blank_view(template_id, tag@),
    {
        let r = OutboundMessage {
            template_id,
            user_msg: vec![tag.clone()],
            template_version: None,
            user: None,
            password: None,
            app_name: None,
            app_version: None,
            system_name: None,
            infra_type: None,
            fcm_id: None,
            ib_id: None,
            account_id: None,
            trade_route: None,
            exchange: None,
            symbol: None,
            quantity: None,
            price: None,
            trigger_price: None,
            transaction_type: None,
            price_type: None,
            manual_or_auto: None,
            duration: None,
            user_type: None,
            bracket_type: None,
            target_quantity: None,
            stop_quantity: None,
            target_ticks: None,
            stop_ticks: None,
            user_tag: None,
            basket_id: None,
            request: None,
            update_bits: None,
            give_toi_products_only: None,
            search_text: None,
            instrument_type: None,
            pattern: None,
            bar_type: None,
            bar_sub_type: None,
            bar_type_specifier: None,
            bar_type_period: None,
            start_index: None,
            finish_index: None,
            direction: None,
            time_order: None,
        };
        assert(r@.user_msg =~= seq![tag@]);
        r
    }
}

} // verus!
