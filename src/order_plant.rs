use vstd::prelude::*;

use crate::command_types::{RithmicBracketOrder, RithmicConnectionInfo, RithmicModifyOrder, INFRA_ORDER_PLANT};
use crate::message::{OutboundMessage, OutboundMessageView};
use crate::receiver_api::RithmicResponse;
use crate::request_handler::{
    after_delivery, completion, distinct_tags, has_tag, matched_tag, tag_index, Delivery, RequestView, RithmicRequestHandler,
};
use crate::sender_api::{RithmicSenderApi, SessionIdentity};
use crate::tag::{decimal_value, lemma_decimal_round_trip};

verus! {

/// Where the connection stands in its login lifecycle.
#[derive(Debug, Clone, Copy, PartialEq, Eq, Structural)]
pub enum LoginState {
    Unauthenticated,
    Authenticating,
    Authenticated,
    ClosingLogout,
    Closed,
}

/// A caller's command to the order plant.
pub enum OrderPlantCommand {
    Close,
    Login,
    SetLogin,
    Logout,
    SendHeartbeat,
    SubscribeOrderUpdates,
    SubscribeBracketUpdates,
    SubscribePnlUpdates,
    PlaceBracketOrder { bracket_order: RithmicBracketOrder },
    ModifyOrder { order: RithmicModifyOrder },
    ModifyStop { order_id: String, ticks: i32 },
    ModifyProfit { order_id: String, ticks: i32 },
    CancelOrder { order_id: String },
    ShowOrders,
}

/// What the event loop does next on the connection.
pub enum PlantAction {
    /// Nothing to send.
    Idle,
    /// Send `message`; when `request_id` is set, its reply is awaited under that tag.
    Send { message: OutboundMessage, request_id: Option<String> },
    /// Send a close frame and stop; the listed requests end with a transport error.
    Close { pending: Vec<String> },
    /// The command cannot be served: the plant is closed or has run out of tags.
    Refused,
}

/// One event read from the connection, its payload already decoded.
pub enum InboundEvent {
    /// The server sent a close frame.
    CloseFrame,
    /// The transport reports the connection closed.
    ConnectionClosed,
    /// A binary frame, decoded.
    Response(RithmicResponse),
    /// A ping, pong or text frame, or a frame that did not decode.
    Other,
}

/// Where an inbound event went.
pub enum InboundOutcome {
    /// An update: it goes to the subscribers.
    Broadcast(RithmicResponse),
    /// A reply: what the registry made of it.
    Delivered(Delivery),
    /// The connection ended; the listed requests end with a transport error.
    Stop { pending: Vec<String> },
    /// Nothing to do.
    Ignored,
}

/// The commands whose request awaits a reply.
pub open spec fn expects_reply(c: OrderPlantCommand) -> bool {
    !(c is Close || c is SetLogin || c is SendHeartbeat)
}

/// The login state after a command is handled in state `s` (not closed).
pub open spec fn next_state(s: LoginState, c: OrderPlantCommand) -> LoginState {
    match c {
        OrderPlantCommand::Login => LoginState::Authenticating,
        OrderPlantCommand::SetLogin => LoginState::Authenticated,
        OrderPlantCommand::Logout => LoginState::ClosingLogout,
        OrderPlantCommand::Close => LoginState::Closed,
        _ => s,
    }
}

/// The message a command sends, built by `api` with tag `tag`.
pub open spec fn command_message(
    api: RithmicSenderApi,
    config: RithmicConnectionInfo,
    c: OrderPlantCommand,
    tag: Seq<char>,
) -> OutboundMessageView {
    match c {
        OrderPlantCommand::Login => api.login_message(
            config.system_name@,
            INFRA_ORDER_PLANT,
            config.user@,
            config.password@,
            tag,
        ),
        OrderPlantCommand::Logout => api.logout_message(tag),
        OrderPlantCommand::SendHeartbeat => api.heartbeat_message(tag),
        OrderPlantCommand::SubscribeOrderUpdates => api.subscribe_for_order_updates_message(tag),
        OrderPlantCommand::SubscribeBracketUpdates => api.subscribe_to_bracket_updates_message(tag),
        OrderPlantCommand::SubscribePnlUpdates => api.pnl_position_updates_message(PNL_SUBSCRIBE, tag),
        OrderPlantCommand::PlaceBracketOrder { bracket_order } => api.bracket_order_message(bracket_order, tag),
        OrderPlantCommand::ModifyOrder { order } => api.modify_order_message(
            order.id@,
            order.exchange@,
            order.symbol@,
            order.qty,
            order.price,
            order.ordertype,
            tag,
        ),
        OrderPlantCommand::ModifyStop { order_id, ticks } => api.update_stop_bracket_level_message(order_id@, ticks, tag),
        OrderPlantCommand::ModifyProfit { order_id, ticks } => api.update_target_bracket_level_message(order_id@, ticks, tag),
        OrderPlantCommand::CancelOrder { order_id } => api.cancel_order_message(order_id@, tag),
        OrderPlantCommand::ShowOrders => api.show_orders_message(tag),
        _ => api.heartbeat_message(tag),
    }
}

/// Every request left after a delivery was in flight before it.
pub proof fn lemma_delivery_keeps_tags(q: Seq<RequestView>, response: RithmicResponse, i: int)
    requires
        0 <= i < after_delivery(q, response).len(),
    ensures
        exists|j: int| 0 <= j < q.len() && q[j].request_id == (#[trigger] after_delivery(q, response)[i]).request_id,
{
    let q2 = after_delivery(q, response);
    match matched_tag(q, response) {
        None => {
            assert(q[i].request_id == q2[i].request_id);
        },
        Some(tag) => {
            let k = tag_index(q, tag);
            if crate::request_handler::is_terminal(response) {
                if i < k {
                    assert(q[i].request_id == q2[i].request_id);
                } else {
                    assert(q[i + 1].request_id == q2[i].request_id);
                }
            } else {
                assert(q[i].request_id == q2[i].request_id);
            }
        },
    }
}

/// Every request a command sends carries its tag as the single element of `user_msg`.
pub proof fn lemma_correlation_round_trip(
    api: RithmicSenderApi,
    config: RithmicConnectionInfo,
    c: OrderPlantCommand,
    tag: Seq<char>,
)
    ensures
        command_message(api, config, c, tag).user_msg == seq![tag],
        command_message(api, config, c, tag).user_msg[0] == tag,
{
}

/// The text a request ends with when the connection ends before its reply.
pub const CONNECTION_CLOSED: &'static str = "connection closed";

/// The reply of a single-part request: the first part, if any came.
pub fn single_reply(parts: Vec<RithmicResponse>) -> (r: Option<RithmicResponse>)
    ensures
        parts@.len() == 0 ==> r is None,
        parts@.len() > 0 ==> r == Some(parts@[0]),
{
    let mut parts = parts;
    if parts.len() == 0 {
        None
    } else {
        Some(parts.remove(0))
    }
}

/// The outcome of a login: the reply when it carries no error, else its error
/// text; once it succeeded the caller follows with `SetLogin`.
pub fn login_reply(reply: RithmicResponse) -> (r: Result<RithmicResponse, String>)
    ensures
        reply.error is None ==> r == Ok::<RithmicResponse, String>(reply),
        reply.error matches Some(e) ==> r == Err::<RithmicResponse, String>(e),
{
    match reply.error {
        None => Ok(reply),
        Some(e) => Err(e),
    }
}

/// `request` of a pnl subscription that subscribes.
pub const PNL_SUBSCRIBE: i32 = 1;

/// The state of the order plant's event loop: the encoder, the requests in
/// flight and the login state.
pub struct OrderPlant {
    config: RithmicConnectionInfo,
    state: LoginState,
    logged_in: bool,
    request_handler: RithmicRequestHandler,
    rithmic_sender_api: RithmicSenderApi,
}

impl OrderPlant {
    pub closed spec fn login_state(&self) -> LoginState {
        self.state
    }

    /// Heartbeats are due: set by `SetLogin`, cleared only when the plant closes.
    pub closed spec fn heartbeats_due(&self) -> bool {
        self.logged_in
    }

    pub closed spec fn requests(&self) -> Seq<RequestView> {
        self.request_handler.view_requests()
    }

    pub closed spec fn sender(&self) -> RithmicSenderApi {
        self.rithmic_sender_api
    }

    pub closed spec fn config(&self) -> RithmicConnectionInfo {
        self.config
    }

    /// The tags of the requests in flight, in registration order.
    pub open spec fn pending_tags(&self) -> Seq<Seq<char>> {
        self.requests().map_values(|q: RequestView| q.request_id)
    }

    /// The registry's tags are distinct, and each was handed out by the encoder.
    pub closed spec fn wf(&self) -> bool {
        &&& self.request_handler.wf()
        &&& (self.state == LoginState::Closed ==> !self.logged_in)
        &&& forall|i: int|
            0 <= i < self.requests().len() ==> decimal_value(#[trigger] self.requests()[i].request_id)
                <= self.rithmic_sender_api.counter()
    }

    pub fn new(conn_info: &RithmicConnectionInfo) -> (r: OrderPlant)
        ensures
            r.wf(),
            r.login_state() == LoginState::Unauthenticated,
            !r.heartbeats_due(),
            r.requests().len() == 0,
            r.sender().counter() == 0,
            r.sender().identity() == (SessionIdentity {
                account_id: Seq::<char>::empty(),
                fcm_id: Seq::<char>::empty(),
                ib_id: Seq::<char>::empty(),
            }),
            r.sender().route() == Seq::<char>::empty(),
            r.sender().config() == *conn_info,
            r.config() == *conn_info,
    {
        OrderPlant {
            config: RithmicConnectionInfo {
                url: conn_info.url.clone(),
                system_name: conn_info.system_name.clone(),
                user: conn_info.user.clone(),
                password: conn_info.password.clone(),
            },
            state: LoginState::Unauthenticated,
            logged_in: false,
            request_handler: RithmicRequestHandler::new(),
            rithmic_sender_api: RithmicSenderApi::new(conn_info),
        }
    }

    /// How many requests await their reply.
    pub fn pending_count(&self) -> (r: usize)
        ensures
            r == self.requests().len(),
    {
        self.request_handler.len()
    }

    /// A request could not be sent: it no longer awaits a reply.
    pub fn handle_send_failure(&mut self, request_id: &String) -> (r: bool)
        requires
            old(self).wf(),
        ensures
            final(self).wf(),
            r == has_tag(old(self).requests(), request_id@),
            r ==> final(self).requests() == old(self).requests().remove(
                tag_index(old(self).requests(), request_id@),
            ),
            !r ==> final(self).requests() == old(self).requests(),
            !has_tag(final(self).requests(), request_id@),
            final(self).sender() == old(self).sender(),
            final(self).login_state() == old(self).login_state(),
            final(self).heartbeats_due() == old(self).heartbeats_due(),
            final(self).config() == old(self).config(),
    {
        let r = self.request_handler.remove_request(request_id);
        proof {
            assert forall|i: int| 0 <= i < self.requests().len() implies decimal_value(
                #[trigger] self.requests()[i].request_id,
            ) <= self.rithmic_sender_api.counter() by {
                if r {
                    let k = tag_index(old(self).requests(), request_id@);
                    if i < k {
                        assert(self.requests()[i] == old(self).requests()[i]);
                    } else {
                        assert(self.requests()[i] == old(self).requests()[i + 1]);
                    }
                } else {
                    assert(self.requests()[i] == old(self).requests()[i]);
                }
            }
        }
        r
    }

    /// Whether the plant is logged in, so that heartbeats are due.
    pub fn logged_in(&self) -> (r: bool)
        ensures
            r == self.heartbeats_due(),
    {
        self.logged_in
    }

    /// Sets the session identifiers that later order-bearing requests carry.
    pub fn set_identity(&mut self, account_id: &str, fcm_id: &str, ib_id: &str)
        requires
            old(self).wf(),
        ensures
            final(self).wf(),
            final(self).sender().identity().account_id == account_id@,
            final(self).sender().identity().fcm_id == fcm_id@,
            final(self).sender().identity().ib_id == ib_id@,
            final(self).sender().counter() == old(self).sender().counter(),
            final(self).sender().route() == old(self).sender().route(),
            final(self).sender().config() == old(self).sender().config(),
            final(self).config() == old(self).config(),
            final(self).requests() == old(self).requests(),
            final(self).login_state() == old(self).login_state(),
            final(self).heartbeats_due() == old(self).heartbeats_due(),
    {
        self.rithmic_sender_api.set_identity(account_id, fcm_id, ib_id);
        assert(self.requests() == old(self).requests());
        assert forall|i: int| 0 <= i < self.requests().len() implies decimal_value(
            #[trigger] self.requests()[i].request_id,
        ) <= self.rithmic_sender_api.counter() by {
            assert(self.requests()[i] == old(self).requests()[i]);
        }
    }

    /// Sets the trade route that later new and bracket orders carry.
    pub fn set_trade_route(&mut self, trade_route: &str)
        requires
            old(self).wf(),
        ensures
            final(self).wf(),
            final(self).sender().route() == trade_route@,
            final(self).sender().identity() == old(self).sender().identity(),
            final(self).sender().counter() == old(self).sender().counter(),
            final(self).sender().config() == old(self).sender().config(),
            final(self).config() == old(self).config(),
            final(self).requests() == old(self).requests(),
            final(self).login_state() == old(self).login_state(),
            final(self).heartbeats_due() == old(self).heartbeats_due(),
    {
        self.rithmic_sender_api.set_trade_route(trade_route);
        assert(self.requests() == old(self).requests());
        assert forall|i: int| 0 <= i < self.requests().len() implies decimal_value(
            #[trigger] self.requests()[i].request_id,
        ) <= self.rithmic_sender_api.counter() by {
            assert(self.requests()[i] == old(self).requests()[i]);
        }
    }

    /// In a well-formed plant no two requests in flight share a tag.
    pub proof fn lemma_wf_distinct(&self)
        requires
            self.wf(),
        ensures
            distinct_tags(self.requests()),
    {
    }

    /// Ends every request in flight and marks the plant closed.
    fn shut_down(&mut self) -> (r: Vec<String>)
        requires
            old(self).wf(),
        ensures
            final(self).wf(),
            r@.map_values(|s: String| s@) == old(self).pending_tags(),
            final(self).requests().len() == 0,
            final(self).login_state() == LoginState::Closed,
            !final(self).heartbeats_due(),
            final(self).sender() == old(self).sender(),
            final(self).config() == old(self).config(),
    {
        proof {
            assert(self.pending_tags() =~= self.request_handler.tags());
        }
        let r = self.request_handler.drain();
        self.state = LoginState::Closed;
        self.logged_in = false;
        r
    }

    /// Registers the request just built under its fresh tag and sends it.
    fn register_and_send(&mut self, message: OutboundMessage, id: String) -> (r: PlantAction)
        requires
            old(self).request_handler.wf(),
            old(self).state == LoginState::Closed ==> !old(self).logged_in,
            id@ == old(self).sender().last_tag(),
            forall|i: int|
                0 <= i < old(self).requests().len() ==> decimal_value(#[trigger] old(self).requests()[i].request_id)
                    < old(self).sender().counter(),
        ensures
            final(self).wf(),
            final(self).requests() == old(self).requests().push(
                RequestView { request_id: id@, responses: Seq::<RithmicResponse>::empty() },
            ),
            final(self).sender() == old(self).sender(),
            final(self).login_state() == old(self).login_state(),
            final(self).heartbeats_due() == old(self).heartbeats_due(),
            final(self).config() == old(self).config(),
            !has_tag(old(self).requests(), id@),
            r matches PlantAction::Send { message: m, request_id: Some(t) } && m@ == message@ && t@ == id@,
    {
        proof {
            lemma_decimal_round_trip(self.rithmic_sender_api.counter());
            if self.request_handler.has(id@) {
                let i = choose|i: int| 0 <= i < self.requests().len() && self.requests()[i].request_id == id@;
                assert(decimal_value(self.requests()[i].request_id) < self.rithmic_sender_api.counter());
            }
        }
        let ghost tag = id@;
        let reply_id = id.clone();
        self.request_handler.register_request(id);
        proof {
            assert forall|i: int| 0 <= i < self.requests().len() implies decimal_value(
                #[trigger] self.requests()[i].request_id,
            ) <= self.rithmic_sender_api.counter() by {
                if i < old(self).requests().len() {
                    assert(self.requests()[i] == old(self).requests()[i]);
                }
            }
        }
        PlantAction::Send { message, request_id: Some(reply_id) }
    }
    /// Handles a caller's command: builds and sends its request, registering
    /// the tag first when a reply is awaited, and moves the login state.
    pub fn handle_command(&mut self, command: OrderPlantCommand) -> (r: PlantAction)
        requires
            old(self).wf(),
        ensures
            final(self).wf(),
            final(self).config() == old(self).config(),
            old(self).login_state() == LoginState::Closed ==> {
                &&& r is Refused
                &&& final(self).requests() == old(self).requests()
                &&& final(self).sender() == old(self).sender()
                &&& final(self).login_state() == LoginState::Closed
                &&& !final(self).heartbeats_due()
            },
            old(self).login_state() != LoginState::Closed ==> match command {
                OrderPlantCommand::SetLogin => {
                    &&& r is Idle
                    &&& final(self).login_state() == LoginState::Authenticated
                    &&& final(self).heartbeats_due()
                    &&& final(self).requests() == old(self).requests()
                    &&& final(self).sender() == old(self).sender()
                },
                OrderPlantCommand::Close => {
                    &&& r matches PlantAction::Close { pending } && pending@.map_values(|s: String| s@)
                        == old(self).pending_tags()
                    &&& final(self).requests().len() == 0
                    &&& final(self).login_state() == LoginState::Closed
                    &&& !final(self).heartbeats_due()
                    &&& final(self).sender() == old(self).sender()
                },
                _ => if !old(self).sender().can_tag() {
                    &&& r is Refused
                    &&& final(self).requests() == old(self).requests()
                    &&& final(self).sender() == old(self).sender()
                    &&& final(self).login_state() == old(self).login_state()
                    &&& final(self).heartbeats_due() == old(self).heartbeats_due()
                } else {
                    let tag = final(self).sender().last_tag();
                    &&& final(self).sender().stepped_from(&old(self).sender())
                    &&& final(self).login_state() == next_state(old(self).login_state(), command)
                    &&& final(self).heartbeats_due() == old(self).heartbeats_due()
                    &&& r matches PlantAction::Send { message, request_id } && message@ == command_message(
                        old(self).sender(),
                        old(self).config(),
                        command,
                        tag,
                    ) && if expects_reply(command) {
                        &&& request_id matches Some(t) && t@ == tag
                    &&& !has_tag(old(self).requests(), tag)
                        &&& final(self).requests() == old(self).requests().push(
                            RequestView { request_id: tag, responses: Seq::<RithmicResponse>::empty() },
                        )
                    } else {
                        &&& request_id is None
                        &&& final(self).requests() == old(self).requests()
                    }
                },
            },
    {
        if self.state == LoginState::Closed {
            return PlantAction::Refused;
        }
        match command {
            OrderPlantCommand::Close => {
                let pending = self.shut_down();
                PlantAction::Close { pending }
            },
            OrderPlantCommand::SetLogin => {
                self.state = LoginState::Authenticated;
                self.logged_in = true;
                assert forall|i: int| 0 <= i < self.requests().len() implies decimal_value(
                    #[trigger] self.requests()[i].request_id,
                ) <= self.rithmic_sender_api.counter() by {
                    assert(old(self).requests()[i] == self.requests()[i]);
                }
                PlantAction::Idle
            },
            _ => self.send_command(command),
        }
    }

    fn send_command(&mut self, command: OrderPlantCommand) -> (r: PlantAction)
        requires
            old(self).wf(),
            old(self).login_state() != LoginState::Closed,
            !(command is Close || command is SetLogin),
        ensures
            final(self).wf(),
            final(self).config() == old(self).config(),
            if !old(self).sender().can_tag() {
                &&& r is Refused
                &&& final(self).requests() == old(self).requests()
                &&& final(self).sender() == old(self).sender()
                &&& final(self).login_state() == old(self).login_state()
                &&& final(self).heartbeats_due() == old(self).heartbeats_due()
            } else {
                let tag = final(self).sender().last_tag();
                &&& final(self).sender().stepped_from(&old(self).sender())
                &&& final(self).login_state() == next_state(old(self).login_state(), command)
                &&& final(self).heartbeats_due() == old(self).heartbeats_due()
                &&& r matches PlantAction::Send { message, request_id } && message@ == command_message(
                    old(self).sender(),
                    old(self).config(),
                    command,
                    tag,
                ) && if expects_reply(command) {
                    &&& request_id matches Some(t) && t@ == tag
                    &&& !has_tag(old(self).requests(), tag)
                    &&& final(self).requests() == old(self).requests().push(
                        RequestView { request_id: tag, responses: Seq::<RithmicResponse>::empty() },
                    )
                } else {
                    &&& request_id is None
                    &&& final(self).requests() == old(self).requests()
                }
            },
    {
        if !self.rithmic_sender_api.has_next_tag() {
            return PlantAction::Refused;
        }
        match command {
            OrderPlantCommand::SendHeartbeat => {
                let (message, _id) = self.rithmic_sender_api.request_heartbeat();
                proof { self.lemma_wf_after_step(old(self)); }
                PlantAction::Send { message, request_id: None }
            },
            OrderPlantCommand::Login => {
                let (message, id) = self.rithmic_sender_api.request_login(
                    self.config.system_name.as_str(),
                    INFRA_ORDER_PLANT,
                    self.config.user.as_str(),
                    self.config.password.as_str(),
                );
                self.state = LoginState::Authenticating;
                proof { self.lemma_wf_after_step(old(self)); }
                self.register_and_send(message, id)
            },
            OrderPlantCommand::Logout => {
                let (message, id) = self.rithmic_sender_api.request_logout();
                self.state = LoginState::ClosingLogout;
                proof { self.lemma_wf_after_step(old(self)); }
                self.register_and_send(message, id)
            },
            OrderPlantCommand::SubscribeOrderUpdates => {
                let (message, id) = self.rithmic_sender_api.request_subscribe_for_order_updates();
                proof { self.lemma_wf_after_step(old(self)); }
                self.register_and_send(message, id)
            },
            OrderPlantCommand::SubscribeBracketUpdates => {
                let (message, id) = self.rithmic_sender_api.request_subscribe_to_bracket_updates();
                proof { self.lemma_wf_after_step(old(self)); }
                self.register_and_send(message, id)
            },
            OrderPlantCommand::SubscribePnlUpdates => {
                let (message, id) = self.rithmic_sender_api.request_pnl_position_updates(PNL_SUBSCRIBE);
                proof { self.lemma_wf_after_step(old(self)); }
                self.register_and_send(message, id)
            },
            OrderPlantCommand::PlaceBracketOrder { bracket_order } => {
                let (message, id) = self.rithmic_sender_api.request_bracket_order(bracket_order);
                proof { self.lemma_wf_after_step(old(self)); }
                self.register_and_send(message, id)
            },
            OrderPlantCommand::ModifyOrder { order } => {
                let (message, id) = self.rithmic_sender_api.request_modify_order(
                    order.id.as_str(),
                    order.exchange.as_str(),
                    order.symbol.as_str(),
                    order.qty,
                    order.price,
                    order.ordertype,
                );
                proof { self.lemma_wf_after_step(old(self)); }
                self.register_and_send(message, id)
            },
            OrderPlantCommand::ModifyStop { order_id, ticks } => {
                let (message, id) = self.rithmic_sender_api.request_update_stop_bracket_level(
                    order_id.as_str(),
                    ticks,
                );
                proof { self.lemma_wf_after_step(old(self)); }
                self.register_and_send(message, id)
            },
            OrderPlantCommand::ModifyProfit { order_id, ticks } => {
                let (message, id) = self.rithmic_sender_api.request_update_target_bracket_level(
                    order_id.as_str(),
                    ticks,
                );
                proof { self.lemma_wf_after_step(old(self)); }
                self.register_and_send(message, id)
            },
            OrderPlantCommand::CancelOrder { order_id } => {
                let (message, id) = self.rithmic_sender_api.request_cancel_order(order_id.as_str());
                proof { self.lemma_wf_after_step(old(self)); }
                self.register_and_send(message, id)
            },
            OrderPlantCommand::ShowOrders => {
                let (message, id) = self.rithmic_sender_api.request_show_orders();
                proof { self.lemma_wf_after_step(old(self)); }
                self.register_and_send(message, id)
            },
            _ => PlantAction::Refused,
        }
    }

    proof fn lemma_wf_after_step(&self, prev: &OrderPlant)
        requires
            prev.wf(),
            self.state == LoginState::Closed ==> !self.logged_in,
            self.request_handler == prev.request_handler,
            self.rithmic_sender_api.counter() == prev.rithmic_sender_api.counter() + 1,
        ensures
            self.wf(),
            forall|i: int|
                0 <= i < self.requests().len() ==> decimal_value(#[trigger] self.requests()[i].request_id)
                    < self.sender().counter(),
    {
        assert forall|i: int| 0 <= i < self.requests().len() implies decimal_value(
            #[trigger] self.requests()[i].request_id,
        ) < self.rithmic_sender_api.counter() by {
            assert(prev.requests()[i] == self.requests()[i]);
        }
    }

    /// A heartbeat tick: a heartbeat is sent while logged in, from `SetLogin`
    /// until the plant closes, whatever login or logout is under way.
    pub fn handle_tick(&mut self) -> (r: PlantAction)
        requires
            old(self).wf(),
        ensures
            final(self).wf(),
            final(self).requests() == old(self).requests(),
            final(self).login_state() == old(self).login_state(),
            final(self).heartbeats_due() == old(self).heartbeats_due(),
            final(self).config() == old(self).config(),
            old(self).login_state() == LoginState::Closed ==> r is Idle,
            if old(self).heartbeats_due() && old(self).sender().can_tag() {
                &&& final(self).sender().stepped_from(&old(self).sender())
                &&& r matches PlantAction::Send { message, request_id } && request_id is None
                    && message@ == old(self).sender().heartbeat_message(final(self).sender().last_tag())
            } else {
                &&& r is Idle
                &&& final(self).sender() == old(self).sender()
            },
    {
        if self.logged_in && self.rithmic_sender_api.has_next_tag() {
            let (message, _id) = self.rithmic_sender_api.request_heartbeat();
            proof { self.lemma_wf_after_step(old(self)); }
            PlantAction::Send { message, request_id: None }
        } else {
            PlantAction::Idle
        }
    }

    /// Handles an event read from the connection: a reply whose tag is in
    /// flight goes to the registry, other updates go to the subscribers, the
    /// rest to the registry as unmatched, and the end of the connection ends
    /// every request in flight.
    pub fn handle_rithmic_message(&mut self, event: InboundEvent) -> (r: InboundOutcome)
        requires
            old(self).wf(),
        ensures
            final(self).wf(),
            final(self).sender() == old(self).sender(),
            final(self).config() == old(self).config(),
            match event {
                InboundEvent::CloseFrame | InboundEvent::ConnectionClosed => {
                    &&& r matches InboundOutcome::Stop { pending } && pending@.map_values(|s: String| s@)
                        == old(self).pending_tags()
                    &&& final(self).requests().len() == 0
                    &&& final(self).login_state() == LoginState::Closed
                    &&& !final(self).heartbeats_due()
                },
                InboundEvent::Response(response) => {
                    &&& final(self).login_state() == old(self).login_state()
                    &&& final(self).heartbeats_due() == old(self).heartbeats_due()
                    &&& if response.is_update && matched_tag(old(self).requests(), response) is None {
                        &&& r matches InboundOutcome::Broadcast(b) && b == response
                        &&& final(self).requests() == old(self).requests()
                    } else {
                        &&& final(self).requests() == after_delivery(old(self).requests(), response)
                        &&& r matches InboundOutcome::Delivered(d) && match completion(old(self).requests(), response) {
                            Some(parts) => d matches Delivery::Completed { request_id, responses } && responses@
                                == parts && Some(request_id@) == matched_tag(old(self).requests(), response),
                            None => if matched_tag(old(self).requests(), response) is Some {
                                d is Pending
                            } else {
                                d is Unmatched
                            },
                        }
                    }
                },
                InboundEvent::Other => {
                    &&& r is Ignored
                    &&& final(self).requests() == old(self).requests()
                    &&& final(self).login_state() == old(self).login_state()
                    &&& final(self).heartbeats_due() == old(self).heartbeats_due()
                },
            },
    {
        match event {
            InboundEvent::CloseFrame | InboundEvent::ConnectionClosed => {
                let pending = self.shut_down();
                InboundOutcome::Stop { pending }
            },
            InboundEvent::Response(response) => {
                let registered = match &response.request_id {
                    Some(tag) => self.request_handler.contains(tag),
                    None => false,
                };
                if response.is_update && !registered {
                    InboundOutcome::Broadcast(response)
                } else {
                    let ghost prev = self.requests();
                    let d = self.request_handler.handle_response(response);
                    proof {
                        assert forall|i: int| 0 <= i < self.requests().len() implies decimal_value(
                            #[trigger] self.requests()[i].request_id,
                        ) <= self.rithmic_sender_api.counter() by {
                            lemma_delivery_keeps_tags(prev, response, i);
                        }
                    }
                    InboundOutcome::Delivered(d)
                }
            },
            InboundEvent::Other => InboundOutcome::Ignored,
        }
    }
}

} // verus!
