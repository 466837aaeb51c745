//! The routing of incoming messages.
use crate::error::APIError;
use crate::json::{json_string, to_json_string};
use crate::text::{contains_text, has_text};
use vstd::prelude::*;

verus! {

/// A message as it comes off a websocket.
#[derive(Debug)]
pub enum Message {
    /// A text frame.
    Text(String),
    /// A binary frame.
    Binary(Vec<u8>),
    /// A ping frame.
    Ping(Vec<u8>),
    /// A pong frame.
    Pong(Vec<u8>),
    /// A close frame.
    Close,
}

/// What the JSON body of a text message holds.
#[derive(Debug, Clone, Copy, PartialEq, Eq, Structural)]
pub enum MsgKind {
    WelcomeMsg,
    PingMsg,
    PongMsg,
    TickerMsg,
    AllTickerMsg,
    SnapshotMsg,
    OrderBookMsg,
    MatchMsg,
    Level3ReceivedMsg,
    Level3OpenMsg,
    Level3DoneMsg,
    Level3MatchMsg,
    Level3ChangeMsg,
    OrderBookDepthMsg,
    FullMatchReceivedMsg,
    FullMatchOpenMsg,
    FullMatchDoneMsg,
    FullMatchMatchMsg,
    FullMatchChangeMsg,
    IndexPriceMsg,
    MarketPriceMsg,
    OrderBookChangeMsg,
    StopOrderMsg,
    BalancesMsg,
    DebtRatioMsg,
    PositionChangeMsg,
    MarginTradeOpenMsg,
    MarginTradeUpdateMsg,
    MarginTradeDoneMsg,
    TradeReceivedMsg,
    TradeOpenMsg,
    TradeMatchMsg,
    TradeFilledMsg,
    TradeCanceledMsg,
    TradeUpdateMsg,
    FutTickerMsg,
}

/// A message after routing.
#[derive(Debug)]
pub enum KucoinWebsocketMsg {
    /// A text message whose whole text is the JSON body of this kind.
    Json(MsgKind, String),
    /// A text message that reports an error.
    Error(String),
    /// A binary message.
    Binary(Vec<u8>),
    /// A ping frame.
    Ping,
    /// A pong frame.
    Pong,
}

/// Where a marker sends a text message.
#[derive(Debug, Clone, Copy, PartialEq, Eq, Structural)]
pub enum Route {
    /// The body is of this kind.
    Json(MsgKind),
    /// The text reports an error.
    ErrorText,
    /// The message belongs to the trade order feed, whose type field decides.
    TradeOrders,
    /// The message belongs to the futures ticker feed, whose subject decides.
    ContractMarket,
}

/// A marker text and the route of the messages that contain it.
pub struct Rule {
    pub marker: &'static str,
    pub route: Route,
}

impl View for Rule {
    type V = (Seq<char>, Route);

    open spec fn view(&self) -> (Seq<char>, Route) {
        (self.marker@, self.route)
    }
}

/// The rule at `at` is the first whose marker occurs in the text.
pub open spec fn fires(rules: Seq<(Seq<char>, Route)>, text: Seq<char>, at: int) -> bool {
    &&& 0 <= at < rules.len()
    &&& has_text(text, rules[at].0)
    &&& forall|before: int| 0 <= before < at ==> !has_text(text, #[trigger] rules[before].0)
}

/// The route of the first rule whose marker occurs in the text.
pub open spec fn first_route(rules: Seq<(Seq<char>, Route)>, text: Seq<char>) -> Option<Route> {
    if exists|at: int| fires(rules, text, at) {
        Some(rules[choose|at: int| fires(rules, text, at)].1)
    } else {
        None
    }
}

/// The rules for text messages, in order.
pub open spec fn text_rules() -> Seq<(Seq<char>, Route)> {
    seq![
        ("\"type\":\"welcome\""@, Route::Json(MsgKind::WelcomeMsg)),
        ("\"type\":\"ack\""@, Route::Json(MsgKind::WelcomeMsg)),
        ("\"type\":\"ping\""@, Route::Json(MsgKind::PingMsg)),
        ("\"type\":\"pong\""@, Route::Json(MsgKind::PongMsg)),
        ("\"subject\":\"trade.ticker\""@, Route::Json(MsgKind::TickerMsg)),
        ("\"topic\":\"/market/ticker:all\""@, Route::Json(MsgKind::AllTickerMsg)),
        ("\"subject\":\"trade.snapshot\""@, Route::Json(MsgKind::SnapshotMsg)),
        ("\"subject\":\"trade.l2update\""@, Route::Json(MsgKind::OrderBookMsg)),
        ("/market/match:"@, Route::Json(MsgKind::MatchMsg)),
        ("\"subject\":\"trade.l3received\""@, Route::Json(MsgKind::Level3ReceivedMsg)),
        ("\"subject\":\"trade.l3open\""@, Route::Json(MsgKind::Level3OpenMsg)),
        ("\"subject\":\"trade.l3done\""@, Route::Json(MsgKind::Level3DoneMsg)),
        ("\"subject\":\"trade.l3match\""@, Route::Json(MsgKind::Level3MatchMsg)),
        ("\"subject\":\"trade.l3change\""@, Route::Json(MsgKind::Level3ChangeMsg)),
        ("\"subject\":\"level2\""@, Route::Json(MsgKind::OrderBookDepthMsg)),
        ("\"subject\":\"received\""@, Route::Json(MsgKind::FullMatchReceivedMsg)),
        ("\"subject\":\"open\""@, Route::Json(MsgKind::FullMatchOpenMsg)),
        ("\"subject\":\"done\""@, Route::Json(MsgKind::FullMatchDoneMsg)),
        ("\"subject\":\"match\""@, Route::Json(MsgKind::FullMatchMatchMsg)),
        ("\"subject\":\"update\""@, Route::Json(MsgKind::FullMatchChangeMsg)),
        ("/indicator/index:"@, Route::Json(MsgKind::IndexPriceMsg)),
        ("/indicator/markPrice:"@, Route::Json(MsgKind::MarketPriceMsg)),
        ("/margin/fundingBook:"@, Route::Json(MsgKind::OrderBookChangeMsg)),
        ("\"type\":\"stop\""@, Route::Json(MsgKind::StopOrderMsg)),
        ("\"type\":\"activate\""@, Route::Json(MsgKind::StopOrderMsg)),
        ("/account/balance"@, Route::Json(MsgKind::BalancesMsg)),
        ("debt.ratio"@, Route::Json(MsgKind::DebtRatioMsg)),
        ("position.status"@, Route::Json(MsgKind::PositionChangeMsg)),
        ("order.open"@, Route::Json(MsgKind::MarginTradeOpenMsg)),
        ("order.update"@, Route::Json(MsgKind::MarginTradeUpdateMsg)),
        ("order.done"@, Route::Json(MsgKind::MarginTradeDoneMsg)),
        ("error"@, Route::ErrorText),
        ("\"topic\":\"/spotMarket/tradeOrders"@, Route::TradeOrders),
        ("\"topic\":\"/contractMarket/ticker"@, Route::ContractMarket),
    ]
}

/// The rules for messages of the trade order feed, in order.
pub open spec fn trade_order_rules() -> Seq<(Seq<char>, Route)> {
    seq![
        ("\"type\":\"received\""@, Route::Json(MsgKind::TradeReceivedMsg)),
        ("\"type\":\"open\""@, Route::Json(MsgKind::TradeOpenMsg)),
        ("\"type\":\"match\""@, Route::Json(MsgKind::TradeMatchMsg)),
        ("\"type\":\"filled\""@, Route::Json(MsgKind::TradeFilledMsg)),
        ("\"type\":\"canceled\""@, Route::Json(MsgKind::TradeCanceledMsg)),
        ("\"type\":\"update\""@, Route::Json(MsgKind::TradeUpdateMsg)),
    ]
}

/// The rules for messages of the futures ticker feed, in order.
pub open spec fn contract_market_rules() -> Seq<(Seq<char>, Route)> {
    seq![
        ("\"subject\":\"ticker\""@, Route::Json(MsgKind::FutTickerMsg)),
        ("\"subject\":\"snapshot\""@, Route::Json(MsgKind::SnapshotMsg)),
        ("\"subject\":\"l2update\""@, Route::Json(MsgKind::OrderBookMsg)),
        ("\"subject\":\"l3received\""@, Route::Json(MsgKind::Level3ReceivedMsg)),
        ("\"subject\":\"l3open\""@, Route::Json(MsgKind::Level3OpenMsg)),
        ("\"subject\":\"l3done\""@, Route::Json(MsgKind::Level3DoneMsg)),
        ("\"subject\":\"l3match\""@, Route::Json(MsgKind::Level3MatchMsg)),
        ("\"subject\":\"l3change\""@, Route::Json(MsgKind::Level3ChangeMsg)),
    ]
}


/// The views of some rules, in order.
pub open spec fn rule_views(rules: Seq<Rule>) -> Seq<(Seq<char>, Route)> {
    rules.map_values(|rule: Rule| rule@)
}

/// Lists the rules for text messages.
fn list_text_rules() -> (rules: Vec<Rule>)
    ensures
        rule_views(rules@) == text_rules(),
{
    let rules: Vec<Rule> = vec![
        Rule { marker: "\"type\":\"welcome\"", route: Route::Json(MsgKind::WelcomeMsg) },
        Rule { marker: "\"type\":\"ack\"", route: Route::Json(MsgKind::WelcomeMsg) },
        Rule { marker: "\"type\":\"ping\"", route: Route::Json(MsgKind::PingMsg) },
        Rule { marker: "\"type\":\"pong\"", route: Route::Json(MsgKind::PongMsg) },
        Rule { marker: "\"subject\":\"trade.ticker\"", route: Route::Json(MsgKind::TickerMsg) },
        Rule { marker: "\"topic\":\"/market/ticker:all\"", route: Route::Json(MsgKind::AllTickerMsg) },
        Rule { marker: "\"subject\":\"trade.snapshot\"", route: Route::Json(MsgKind::SnapshotMsg) },
        Rule { marker: "\"subject\":\"trade.l2update\"", route: Route::Json(MsgKind::OrderBookMsg) },
        Rule { marker: "/market/match:", route: Route::Json(MsgKind::MatchMsg) },
        Rule { marker: "\"subject\":\"trade.l3received\"", route: Route::Json(MsgKind::Level3ReceivedMsg) },
        Rule { marker: "\"subject\":\"trade.l3open\"", route: Route::Json(MsgKind::Level3OpenMsg) },
        Rule { marker: "\"subject\":\"trade.l3done\"", route: Route::Json(MsgKind::Level3DoneMsg) },
        Rule { marker: "\"subject\":\"trade.l3match\"", route: Route::Json(MsgKind::Level3MatchMsg) },
        Rule { marker: "\"subject\":\"trade.l3change\"", route: Route::Json(MsgKind::Level3ChangeMsg) },
        Rule { marker: "\"subject\":\"level2\"", route: Route::Json(MsgKind::OrderBookDepthMsg) },
        Rule { marker: "\"subject\":\"received\"", route: Route::Json(MsgKind::FullMatchReceivedMsg) },
        Rule { marker: "\"subject\":\"open\"", route: Route::Json(MsgKind::FullMatchOpenMsg) },
        Rule { marker: "\"subject\":\"done\"", route: Route::Json(MsgKind::FullMatchDoneMsg) },
        Rule { marker: "\"subject\":\"match\"", route: Route::Json(MsgKind::FullMatchMatchMsg) },
        Rule { marker: "\"subject\":\"update\"", route: Route::Json(MsgKind::FullMatchChangeMsg) },
        Rule { marker: "/indicator/index:", route: Route::Json(MsgKind::IndexPriceMsg) },
        Rule { marker: "/indicator/markPrice:", route: Route::Json(MsgKind::MarketPriceMsg) },
        Rule { marker: "/margin/fundingBook:", route: Route::Json(MsgKind::OrderBookChangeMsg) },
        Rule { marker: "\"type\":\"stop\"", route: Route::Json(MsgKind::StopOrderMsg) },
        Rule { marker: "\"type\":\"activate\"", route: Route::Json(MsgKind::StopOrderMsg) },
        Rule { marker: "/account/balance", route: Route::Json(MsgKind::BalancesMsg) },
        Rule { marker: "debt.ratio", route: Route::Json(MsgKind::DebtRatioMsg) },
        Rule { marker: "position.status", route: Route::Json(MsgKind::PositionChangeMsg) },
        Rule { marker: "order.open", route: Route::Json(MsgKind::MarginTradeOpenMsg) },
        Rule { marker: "order.update", route: Route::Json(MsgKind::MarginTradeUpdateMsg) },
        Rule { marker: "order.done", route: Route::Json(MsgKind::MarginTradeDoneMsg) },
        Rule { marker: "error", route: Route::ErrorText },
        Rule { marker: "\"topic\":\"/spotMarket/tradeOrders", route: Route::TradeOrders },
        Rule { marker: "\"topic\":\"/contractMarket/ticker", route: Route::ContractMarket },
    ];
    assert(rule_views(rules@) =~= text_rules());
    rules
}

/// Lists the rules for messages of the trade order feed.
fn list_trade_order_rules() -> (rules: Vec<Rule>)
    ensures
        rule_views(rules@) == trade_order_rules(),
{
    let rules: Vec<Rule> = vec![
        Rule { marker: "\"type\":\"received\"", route: Route::Json(MsgKind::TradeReceivedMsg) },
        Rule { marker: "\"type\":\"open\"", route: Route::Json(MsgKind::TradeOpenMsg) },
        Rule { marker: "\"type\":\"match\"", route: Route::Json(MsgKind::TradeMatchMsg) },
        Rule { marker: "\"type\":\"filled\"", route: Route::Json(MsgKind::TradeFilledMsg) },
        Rule { marker: "\"type\":\"canceled\"", route: Route::Json(MsgKind::TradeCanceledMsg) },
        Rule { marker: "\"type\":\"update\"", route: Route::Json(MsgKind::TradeUpdateMsg) },
    ];
    assert(rule_views(rules@) =~= trade_order_rules());
    rules
}

/// Lists the rules for messages of the futures ticker feed.
fn list_contract_market_rules() -> (rules: Vec<Rule>)
    ensures
        rule_views(rules@) == contract_market_rules(),
{
    let rules: Vec<Rule> = vec![
        Rule { marker: "\"subject\":\"ticker\"", route: Route::Json(MsgKind::FutTickerMsg) },
        Rule { marker: "\"subject\":\"snapshot\"", route: Route::Json(MsgKind::SnapshotMsg) },
        Rule { marker: "\"subject\":\"l2update\"", route: Route::Json(MsgKind::OrderBookMsg) },
        Rule { marker: "\"subject\":\"l3received\"", route: Route::Json(MsgKind::Level3ReceivedMsg) },
        Rule { marker: "\"subject\":\"l3open\"", route: Route::Json(MsgKind::Level3OpenMsg) },
        Rule { marker: "\"subject\":\"l3done\"", route: Route::Json(MsgKind::Level3DoneMsg) },
        Rule { marker: "\"subject\":\"l3match\"", route: Route::Json(MsgKind::Level3MatchMsg) },
        Rule { marker: "\"subject\":\"l3change\"", route: Route::Json(MsgKind::Level3ChangeMsg) },
    ];
    assert(rule_views(rules@) =~= contract_market_rules());
    rules
}

/// Finds the route of the first rule whose marker occurs in the text.
fn find_route(rules: &Vec<Rule>, text: &str) -> (route: Option<Route>)
    ensures
        route == first_route(rule_views(rules@), text@),
{
    let ghost views = rule_views(rules@);
    let mut at: usize = 0;
    while at < rules.len()
        invariant
            at <= rules.len(),
            views == rule_views(rules@),
            forall|before: int| 0 <= before < at ==> !has_text(text@, #[trigger] views[before].0),
        decreases rules.len() - at,
    {
        assert(views[at as int] == rules[at as int]@);
        if contains_text(text, rules[at].marker) {
            proof {
                lemma_first_route(views, text@, at as int);
            }
            return Some(rules[at].route);
        }
        at += 1;
    }
    None
}

/// The first rule that fires is the only one, so its route is the route of the
/// text.
pub proof fn lemma_first_route(rules: Seq<(Seq<char>, Route)>, text: Seq<char>, at: int)
    requires
        fires(rules, text, at),
    ensures
        first_route(rules, text) == Some(rules[at].1),
{
    let chosen = choose|other: int| fires(rules, text, other);
    assert(fires(rules, text, chosen));
    if chosen < at {
        assert(!has_text(text, rules[chosen].0));
    } else if at < chosen {
        assert(!has_text(text, rules[at].0));
    }
}

/// The body of a message of the trade order feed has to decode: the words of the
/// failure if it does not.
pub open spec fn decode_panic(kind: MsgKind) -> Option<Seq<char>> {
    match kind {
        MsgKind::TradeReceivedMsg => Some("TradeReceivedMsg serde fail"@),
        MsgKind::TradeOpenMsg => Some("TradeOpenMsg serde fail"@),
        MsgKind::TradeMatchMsg => Some("TradeMatchMsg serde fail"@),
        MsgKind::TradeFilledMsg => Some("TradeFilledMsg serde fail"@),
        MsgKind::TradeCanceledMsg => Some("TradeCanceledMsg serde fail"@),
        MsgKind::TradeUpdateMsg => Some("TradeUpdateMsg serde fail"@),
        _ => None,
    }
}

impl MsgKind {
    /// The words with which the caller has to panic if a body of this kind does
    /// not decode; `None` where that is an ordinary error.
    pub fn decode_panic(self) -> (words: Option<&'static str>)
        ensures
            match decode_panic(self) {
                Some(text) => words is Some && words->0@ == text,
                None => words is None,
            },
    {
        match self {
            MsgKind::TradeReceivedMsg => Some("TradeReceivedMsg serde fail"),
            MsgKind::TradeOpenMsg => Some("TradeOpenMsg serde fail"),
            MsgKind::TradeMatchMsg => Some("TradeMatchMsg serde fail"),
            MsgKind::TradeFilledMsg => Some("TradeFilledMsg serde fail"),
            MsgKind::TradeCanceledMsg => Some("TradeCanceledMsg serde fail"),
            MsgKind::TradeUpdateMsg => Some("TradeUpdateMsg serde fail"),
            _ => None,
        }
    }

    /// Takes the decoded body of a message of this kind, or the reason why it
    /// did not decode.
    pub fn decoded<T>(self, body: Result<T, serde_json::Error>) -> (result: Result<T, APIError>)
        requires
            body is Err ==> decode_panic(self) is None,
        ensures
            result == (match body {
                Ok(value) => Ok::<T, APIError>(value),
                Err(error) => Err(APIError::Serde(error)),
            }),
    {
        match body {
            Ok(value) => Ok(value),
            Err(error) => Err(APIError::Serde(error)),
        }
    }
}

/// What a text message turns out to be.
#[derive(Debug, Clone, Copy, PartialEq, Eq, Structural)]
pub enum Verdict {
    /// A JSON body of this kind.
    Json(MsgKind),
    /// An error report.
    ErrorText,
    /// A message of the trade order feed of no known type.
    UnknownTradeOrder,
    /// A message of the futures ticker feed of no known subject.
    UnknownContractMarket,
    /// A message without any known marker.
    Unknown,
}

/// What the text turns out to be under the three rule tables.
pub open spec fn verdict(text: Seq<char>) -> Verdict {
    match first_route(text_rules(), text) {
        Some(Route::Json(kind)) => Verdict::Json(kind),
        Some(Route::ErrorText) => Verdict::ErrorText,
        Some(Route::TradeOrders) => match first_route(trade_order_rules(), text) {
            Some(Route::Json(kind)) => Verdict::Json(kind),
            _ => Verdict::UnknownTradeOrder,
        },
        Some(Route::ContractMarket) => match first_route(contract_market_rules(), text) {
            Some(Route::Json(kind)) => Verdict::Json(kind),
            _ => Verdict::UnknownContractMarket,
        },
        None => Verdict::Unknown,
    }
}

/// Tells what a text message is, by the markers that occur in it.
pub fn classify(text: &str) -> (found: Verdict)
    ensures
        found == verdict(text@),
{
    let rules = list_text_rules();
    match find_route(&rules, text) {
        Some(Route::Json(kind)) => Verdict::Json(kind),
        Some(Route::ErrorText) => Verdict::ErrorText,
        Some(Route::TradeOrders) => {
            let rules = list_trade_order_rules();
            match find_route(&rules, text) {
                Some(Route::Json(kind)) => Verdict::Json(kind),
                _ => Verdict::UnknownTradeOrder,
            }
        },
        Some(Route::ContractMarket) => {
            let rules = list_contract_market_rules();
            match find_route(&rules, text) {
                Some(Route::Json(kind)) => Verdict::Json(kind),
                _ => Verdict::UnknownContractMarket,
            }
        },
        None => Verdict::Unknown,
    }
}

/// A routed message with its text and bytes as sequences.
pub ghost enum MsgView {
    Json(MsgKind, Seq<char>),
    Error(Seq<char>),
    Binary(Seq<u8>),
    Ping,
    Pong,
}

impl View for KucoinWebsocketMsg {
    type V = MsgView;

    open spec fn view(&self) -> MsgView {
        match self {
            KucoinWebsocketMsg::Json(kind, body) => MsgView::Json(*kind, body@),
            KucoinWebsocketMsg::Error(text) => MsgView::Error(text@),
            KucoinWebsocketMsg::Binary(bytes) => MsgView::Binary(bytes@),
            KucoinWebsocketMsg::Ping => MsgView::Ping,
            KucoinWebsocketMsg::Pong => MsgView::Pong,
        }
    }
}

/// The routed message, or the words of the error.
pub open spec fn routed(msg: Message) -> Result<MsgView, Seq<char>> {
    match msg {
        Message::Text(text) => match verdict(text@) {
            Verdict::Json(kind) => Ok(MsgView::Json(kind, text@)),
            Verdict::ErrorText => Ok(MsgView::Error(text@)),
            Verdict::UnknownTradeOrder => Err(
                "Unrecognised message from tradeOrders\n"@ + json_string(text@),
            ),
            Verdict::UnknownContractMarket => Err(
                "Unrecognised message from contractMarket\n"@ + json_string(text@),
            ),
            Verdict::Unknown => Err("No KucoinWebSocketMsg type to parse:\n"@ + text@),
        },
        Message::Binary(bytes) => Ok(MsgView::Binary(bytes@)),
        Message::Pong(_) => Ok(MsgView::Pong),
        Message::Ping(_) => Ok(MsgView::Ping),
        Message::Close => Err("Socket closed error"@),
    }
}

/// `result` is the outcome of routing `msg`.
pub open spec fn is_routed(msg: Message, result: Result<KucoinWebsocketMsg, APIError>) -> bool {
    match routed(msg) {
        Ok(view) => result is Ok && result->Ok_0@ == view,
        Err(words) => result is Err && result->Err_0.says(words),
    }
}

/// Builds the error for a message that its feed does not know: the lead, then
/// the text as a JSON string literal.
fn unrecognised(lead: &str, text: &str) -> (error: APIError)
    ensures
        error.says(lead@ + json_string(text@)),
{
    let mut words = String::from_str(lead);
    match to_json_string(text) {
        Ok(json) => words.append(json.as_str()),
        Err(_) => {},
    }
    APIError::Other(words)
}

/// Routes a message: a text goes by the first marker that occurs in it, control
/// and binary frames go by what they are, and a close frame is an error.
pub fn parse_message(msg: Message) -> (result: Result<KucoinWebsocketMsg, APIError>)
    ensures
        is_routed(msg, result),
{
    match msg {
        Message::Text(text) => match classify(text.as_str()) {
            Verdict::Json(kind) => Ok(KucoinWebsocketMsg::Json(kind, text)),
            Verdict::ErrorText => Ok(KucoinWebsocketMsg::Error(text)),
            Verdict::UnknownTradeOrder => Err(
                unrecognised("Unrecognised message from tradeOrders\n", text.as_str()),
            ),
            Verdict::UnknownContractMarket => Err(
                unrecognised("Unrecognised message from contractMarket\n", text.as_str()),
            ),
            Verdict::Unknown => {
                let mut words = String::from_str("No KucoinWebSocketMsg type to parse:\n");
                words.append(text.as_str());
                Err(APIError::Other(words))
            },
        },
        Message::Binary(bytes) => Ok(KucoinWebsocketMsg::Binary(bytes)),
        Message::Pong(_) => Ok(KucoinWebsocketMsg::Pong),
        Message::Ping(_) => Ok(KucoinWebsocketMsg::Ping),
        Message::Close => Err(APIError::Other(String::from_str("Socket closed error"))),
    }
}

} // verus!
