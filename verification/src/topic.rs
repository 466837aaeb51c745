//! Topics and the requests that subscribe to them.
use crate::clock::{get_time, is_time_numeral};
use crate::text::{decimal, decimal_string, is_numeral, join, joined};
use vstd::prelude::*;

verus! {

/// Which token service a socket asks.
#[derive(Debug, Clone, Copy, PartialEq, Eq, Structural)]
pub enum WSType {
    Public,
    Private,
}

/// A feed to subscribe to, with the symbols it is limited to.
#[derive(Debug)]
pub enum WSTopic {
    Ticker(Vec<String>),
    FutTicker(Vec<String>),
    AllTicker,
    Snapshot(String),
    OrderBook(Vec<String>),
    OrderBookDepth5(Vec<String>),
    OrderBookDepth50(Vec<String>),
    Match(Vec<String>),
    FullMatch(Vec<String>),
    Level3Public(Vec<String>),
    Level3Private(Vec<String>),
    IndexPrice(Vec<String>),
    MarketPrice(Vec<String>),
    OrderBookChange(Vec<String>),
    StopOrder(Vec<String>),
    Balances,
    DebtRatio,
    PositionChange,
    MarginTradeOrder(String),
    TradeOrders,
    TradeOrdersV2,
}

/// A topic with its symbols as sequences of characters.
pub ghost enum Topic {
    Ticker(Seq<Seq<char>>),
    FutTicker(Seq<Seq<char>>),
    AllTicker,
    Snapshot(Seq<char>),
    OrderBook(Seq<Seq<char>>),
    OrderBookDepth5(Seq<Seq<char>>),
    OrderBookDepth50(Seq<Seq<char>>),
    Match(Seq<Seq<char>>),
    FullMatch(Seq<Seq<char>>),
    Level3Public(Seq<Seq<char>>),
    Level3Private(Seq<Seq<char>>),
    IndexPrice(Seq<Seq<char>>),
    MarketPrice(Seq<Seq<char>>),
    OrderBookChange(Seq<Seq<char>>),
    StopOrder(Seq<Seq<char>>),
    Balances,
    DebtRatio,
    PositionChange,
    MarginTradeOrder(Seq<char>),
    TradeOrders,
    TradeOrdersV2,
}

impl View for WSTopic {
    type V = Topic;

    open spec fn view(&self) -> Topic {
        match self {
            WSTopic::Ticker(symbols) => Topic::Ticker(symbols.deep_view()),
            WSTopic::FutTicker(symbols) => Topic::FutTicker(symbols.deep_view()),
            WSTopic::AllTicker => Topic::AllTicker,
            WSTopic::Snapshot(symbol) => Topic::Snapshot(symbol@),
            WSTopic::OrderBook(symbols) => Topic::OrderBook(symbols.deep_view()),
            WSTopic::OrderBookDepth5(symbols) => Topic::OrderBookDepth5(symbols.deep_view()),
            WSTopic::OrderBookDepth50(symbols) => Topic::OrderBookDepth50(symbols.deep_view()),
            WSTopic::Match(symbols) => Topic::Match(symbols.deep_view()),
            WSTopic::FullMatch(symbols) => Topic::FullMatch(symbols.deep_view()),
            WSTopic::Level3Public(symbols) => Topic::Level3Public(symbols.deep_view()),
            WSTopic::Level3Private(symbols) => Topic::Level3Private(symbols.deep_view()),
            WSTopic::IndexPrice(symbols) => Topic::IndexPrice(symbols.deep_view()),
            WSTopic::MarketPrice(symbols) => Topic::MarketPrice(symbols.deep_view()),
            WSTopic::OrderBookChange(symbols) => Topic::OrderBookChange(symbols.deep_view()),
            WSTopic::StopOrder(symbols) => Topic::StopOrder(symbols.deep_view()),
            WSTopic::Balances => Topic::Balances,
            WSTopic::DebtRatio => Topic::DebtRatio,
            WSTopic::PositionChange => Topic::PositionChange,
            WSTopic::MarginTradeOrder(symbol) => Topic::MarginTradeOrder(symbol@),
            WSTopic::TradeOrders => Topic::TradeOrders,
            WSTopic::TradeOrdersV2 => Topic::TradeOrdersV2,
        }
    }
}

impl Topic {
    /// The path that names the topic to the server.
    pub open spec fn path(self) -> Seq<char> {
        match self {
            Topic::Ticker(symbols) => "/market/ticker:"@ + joined(symbols, ","@),
            Topic::FutTicker(symbols) => "/contractMarket/ticker:"@ + joined(symbols, ","@),
            Topic::AllTicker => "/market/ticker:all"@,
            Topic::Snapshot(symbol) => "/market/snapshot:"@ + symbol,
            Topic::OrderBook(symbols) => "/market/level2:"@ + joined(symbols, ","@),
            Topic::OrderBookDepth5(symbols) => "/spotMarket/level2Depth5:"@ + joined(
                symbols,
                ","@,
            ),
            Topic::OrderBookDepth50(symbols) => "/spotMarket/level2Depth50:"@ + joined(
                symbols,
                ","@,
            ),
            Topic::Match(symbols) => "/market/match:"@ + joined(symbols, ","@),
            Topic::FullMatch(symbols) => "/spotMarket/level3:"@ + joined(symbols, ","@),
            Topic::Level3Public(symbols) => "/market/level3:"@ + joined(symbols, ","@),
            Topic::Level3Private(symbols) => "/market/level3:"@ + joined(symbols, ","@),
            Topic::IndexPrice(symbols) => "/indicator/index:"@ + joined(symbols, ","@),
            Topic::MarketPrice(symbols) => "/indicator/markPrice:"@ + joined(symbols, ","@),
            Topic::OrderBookChange(symbols) => "/margin/fundingBook:"@ + joined(symbols, ","@),
            Topic::StopOrder(symbols) => "/market/level3:"@ + joined(symbols, ","@),
            Topic::Balances => "/account/balance"@,
            Topic::DebtRatio => "/margin/position"@,
            Topic::PositionChange => "/margin/position"@,
            Topic::MarginTradeOrder(symbol) => "/margin/loan:"@ + symbol,
            Topic::TradeOrders => "/spotMarket/tradeOrders"@,
            Topic::TradeOrdersV2 => "/spotMarket/tradeOrdersV2"@,
        }
    }

    /// The topic is served on the private channel.
    pub open spec fn is_private(self) -> bool {
        ||| self is Level3Private
        ||| self is StopOrder
        ||| self is Balances
        ||| self is DebtRatio
        ||| self is PositionChange
        ||| self is MarginTradeOrder
        ||| self is TradeOrders
        ||| self is TradeOrdersV2
    }
}

/// A request to subscribe to one topic.
#[derive(Debug)]
pub struct Subscribe {
    pub id: String,
    pub msg_type: String,
    pub topic: String,
    pub private_channel: bool,
    pub response: bool,
}

impl Subscribe {
    /// The request asks for this topic: everything but the id is settled by it.
    pub open spec fn asks_for(self, topic: Topic) -> bool {
        &&& self.msg_type@ == "subscribe"@
        &&& self.topic@ == topic.path()
        &&& self.private_channel == topic.is_private()
        &&& self.response
    }
}


/// A path prefix followed by the symbols, separated by commas.
fn listed(prefix: &str, symbols: &Vec<String>) -> (path: String)
    ensures
        path@ == prefix@ + joined(symbols.deep_view(), ","@),
{
    let symbols = join(symbols, ",");
    String::from_str(prefix).concat(symbols.as_str())
}

/// Copies a list of symbols.
fn copy_symbols(symbols: &Vec<String>) -> (copy: Vec<String>)
    ensures
        copy.deep_view() == symbols.deep_view(),
{
    let mut copy: Vec<String> = Vec::new();
    let mut count: usize = 0;
    while count < symbols.len()
        invariant
            count <= symbols.len(),
            copy@ == symbols@.take(count as int),
        decreases symbols.len() - count,
    {
        copy.push(symbols[count].clone());
        assert(copy@ =~= symbols@.take(count + 1));
        count += 1;
    }
    assert(copy@ =~= symbols@);
    copy
}

/// Compares two lists of symbols.
fn same_symbols(left: &Vec<String>, right: &Vec<String>) -> (same: bool)
    ensures
        same == (left.deep_view() == right.deep_view()),
{
    let ghost left_view = left.deep_view();
    let ghost right_view = right.deep_view();
    if left.len() != right.len() {
        assert(left_view.len() != right_view.len());
        return false;
    }
    let mut count: usize = 0;
    while count < left.len()
        invariant
            count <= left.len(),
            left.len() == right.len(),
            left_view == left.deep_view(),
            right_view == right.deep_view(),
            forall|before: int| 0 <= before < count ==> left_view[before] == right_view[before],
        decreases left.len() - count,
    {
        assert(left_view[count as int] == left[count as int]@);
        assert(right_view[count as int] == right[count as int]@);
        if left[count] != right[count] {
            return false;
        }
        count += 1;
    }
    assert(left_view =~= right_view);
    true
}

impl Clone for WSTopic {
    fn clone(&self) -> (copy: Self)
        ensures
            copy@ == self@,
    {
        match self {
            WSTopic::Ticker(symbols) => WSTopic::Ticker(copy_symbols(symbols)),
            WSTopic::FutTicker(symbols) => WSTopic::FutTicker(copy_symbols(symbols)),
            WSTopic::AllTicker => WSTopic::AllTicker,
            WSTopic::Snapshot(symbol) => WSTopic::Snapshot(symbol.clone()),
            WSTopic::OrderBook(symbols) => WSTopic::OrderBook(copy_symbols(symbols)),
            WSTopic::OrderBookDepth5(symbols) => WSTopic::OrderBookDepth5(copy_symbols(symbols)),
            WSTopic::OrderBookDepth50(symbols) => WSTopic::OrderBookDepth50(copy_symbols(symbols)),
            WSTopic::Match(symbols) => WSTopic::Match(copy_symbols(symbols)),
            WSTopic::FullMatch(symbols) => WSTopic::FullMatch(copy_symbols(symbols)),
            WSTopic::Level3Public(symbols) => WSTopic::Level3Public(copy_symbols(symbols)),
            WSTopic::Level3Private(symbols) => WSTopic::Level3Private(copy_symbols(symbols)),
            WSTopic::IndexPrice(symbols) => WSTopic::IndexPrice(copy_symbols(symbols)),
            WSTopic::MarketPrice(symbols) => WSTopic::MarketPrice(copy_symbols(symbols)),
            WSTopic::OrderBookChange(symbols) => WSTopic::OrderBookChange(copy_symbols(symbols)),
            WSTopic::StopOrder(symbols) => WSTopic::StopOrder(copy_symbols(symbols)),
            WSTopic::Balances => WSTopic::Balances,
            WSTopic::DebtRatio => WSTopic::DebtRatio,
            WSTopic::PositionChange => WSTopic::PositionChange,
            WSTopic::MarginTradeOrder(symbol) => WSTopic::MarginTradeOrder(symbol.clone()),
            WSTopic::TradeOrders => WSTopic::TradeOrders,
            WSTopic::TradeOrdersV2 => WSTopic::TradeOrdersV2,
        }
    }
}

impl PartialEq for WSTopic {
    fn eq(&self, other: &Self) -> (same: bool) {
        match (self, other) {
            (WSTopic::Ticker(mine), WSTopic::Ticker(theirs)) => same_symbols(mine, theirs),
            (WSTopic::FutTicker(mine), WSTopic::FutTicker(theirs)) => same_symbols(mine, theirs),
            (WSTopic::AllTicker, WSTopic::AllTicker) => true,
            (WSTopic::Snapshot(mine), WSTopic::Snapshot(theirs)) => *mine == *theirs,
            (WSTopic::OrderBook(mine), WSTopic::OrderBook(theirs)) => same_symbols(mine, theirs),
            (WSTopic::OrderBookDepth5(mine), WSTopic::OrderBookDepth5(theirs)) => same_symbols(mine, theirs),
            (WSTopic::OrderBookDepth50(mine), WSTopic::OrderBookDepth50(theirs)) => same_symbols(mine, theirs),
            (WSTopic::Match(mine), WSTopic::Match(theirs)) => same_symbols(mine, theirs),
            (WSTopic::FullMatch(mine), WSTopic::FullMatch(theirs)) => same_symbols(mine, theirs),
            (WSTopic::Level3Public(mine), WSTopic::Level3Public(theirs)) => same_symbols(mine, theirs),
            (WSTopic::Level3Private(mine), WSTopic::Level3Private(theirs)) => same_symbols(mine, theirs),
            (WSTopic::IndexPrice(mine), WSTopic::IndexPrice(theirs)) => same_symbols(mine, theirs),
            (WSTopic::MarketPrice(mine), WSTopic::MarketPrice(theirs)) => same_symbols(mine, theirs),
            (WSTopic::OrderBookChange(mine), WSTopic::OrderBookChange(theirs)) => same_symbols(mine, theirs),
            (WSTopic::StopOrder(mine), WSTopic::StopOrder(theirs)) => same_symbols(mine, theirs),
            (WSTopic::Balances, WSTopic::Balances) => true,
            (WSTopic::DebtRatio, WSTopic::DebtRatio) => true,
            (WSTopic::PositionChange, WSTopic::PositionChange) => true,
            (WSTopic::MarginTradeOrder(mine), WSTopic::MarginTradeOrder(theirs)) => *mine == *theirs,
            (WSTopic::TradeOrders, WSTopic::TradeOrders) => true,
            (WSTopic::TradeOrdersV2, WSTopic::TradeOrdersV2) => true,
            _ => false,
        }
    }
}

impl vstd::std_specs::cmp::PartialEqSpecImpl for WSTopic {
    open spec fn obeys_eq_spec() -> bool {
        true
    }

    open spec fn eq_spec(&self, other: &Self) -> bool {
        self@ == other@
    }
}

impl WSTopic {
    /// The path that names the topic to the server.
    pub fn path(&self) -> (path: String)
        ensures
            path@ == self@.path(),
    {
        match self {
            WSTopic::Ticker(symbols) => listed("/market/ticker:", symbols),
            WSTopic::FutTicker(symbols) => listed("/contractMarket/ticker:", symbols),
            WSTopic::AllTicker => String::from_str("/market/ticker:all"),
            WSTopic::Snapshot(symbol) => String::from_str("/market/snapshot:").concat(symbol.as_str()),
            WSTopic::OrderBook(symbols) => listed("/market/level2:", symbols),
            WSTopic::OrderBookDepth5(symbols) => listed("/spotMarket/level2Depth5:", symbols),
            WSTopic::OrderBookDepth50(symbols) => listed("/spotMarket/level2Depth50:", symbols),
            WSTopic::Match(symbols) => listed("/market/match:", symbols),
            WSTopic::FullMatch(symbols) => listed("/spotMarket/level3:", symbols),
            WSTopic::Level3Public(symbols) => listed("/market/level3:", symbols),
            WSTopic::Level3Private(symbols) => listed("/market/level3:", symbols),
            WSTopic::IndexPrice(symbols) => listed("/indicator/index:", symbols),
            WSTopic::MarketPrice(symbols) => listed("/indicator/markPrice:", symbols),
            WSTopic::OrderBookChange(symbols) => listed("/margin/fundingBook:", symbols),
            WSTopic::StopOrder(symbols) => listed("/market/level3:", symbols),
            WSTopic::Balances => String::from_str("/account/balance"),
            WSTopic::DebtRatio => String::from_str("/margin/position"),
            WSTopic::PositionChange => String::from_str("/margin/position"),
            WSTopic::MarginTradeOrder(symbol) => String::from_str("/margin/loan:").concat(symbol.as_str()),
            WSTopic::TradeOrders => String::from_str("/spotMarket/tradeOrders"),
            WSTopic::TradeOrdersV2 => String::from_str("/spotMarket/tradeOrdersV2"),
        }
    }

    /// Whether the topic is served on the private channel.
    pub fn is_private(&self) -> (private: bool)
        ensures
            private == self@.is_private(),
    {
        match self {
            WSTopic::Level3Private(_) => true,
            WSTopic::StopOrder(_) => true,
            WSTopic::Balances => true,
            WSTopic::DebtRatio => true,
            WSTopic::PositionChange => true,
            WSTopic::MarginTradeOrder(_) => true,
            WSTopic::TradeOrders => true,
            WSTopic::TradeOrdersV2 => true,
            _ => false,
        }
    }
}

impl Subscribe {
    /// The request for a topic, with the time as its id.
    pub fn at(topic_type: &WSTopic, time: u128) -> (request: Subscribe)
        ensures
            request.asks_for(topic_type@),
            request.id@ == decimal(time as nat),
    {
        Subscribe {
            id: decimal_string(time),
            msg_type: String::from_str("subscribe"),
            topic: topic_type.path(),
            private_channel: topic_type.is_private(),
            response: true,
        }
    }

    /// The request for a topic, with the current time as its id.
    pub fn new(topic_type: &WSTopic) -> (request: Subscribe)
        ensures
            request.asks_for(topic_type@),
            is_numeral(request.id@),
            is_time_numeral(request.id@),
    {
        Subscribe::at(topic_type, get_time())
    }
}

} // verus!
