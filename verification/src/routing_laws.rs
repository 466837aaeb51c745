//! What holds of routed messages, marker by marker.
use crate::error::APIError;
use crate::json::json_string;
use crate::message::{
    contract_market_rules, decode_panic, first_route, is_routed, lemma_first_route, text_rules,
    trade_order_rules, verdict, KucoinWebsocketMsg, Message, MsgKind, Route, Verdict,
};
use crate::text::{has_text, text_at};
use vstd::prelude::*;

verus! {

/// The result is a body of this kind with this text.
pub open spec fn is_json(
    result: Result<KucoinWebsocketMsg, APIError>,
    kind: MsgKind,
    text: Seq<char>,
) -> bool {
    result matches Ok(KucoinWebsocketMsg::Json(found, body)) && found == kind && body@ == text
}

/// The result is an error report with this text.
pub open spec fn is_error_text(
    result: Result<KucoinWebsocketMsg, APIError>,
    text: Seq<char>,
) -> bool {
    result matches Ok(KucoinWebsocketMsg::Error(body)) && body@ == text
}

/// The result is an error with these words.
pub open spec fn is_refusal(
    result: Result<KucoinWebsocketMsg, APIError>,
    words: Seq<char>,
) -> bool {
    result matches Err(APIError::Other(found)) && found@ == words
}

/// The characters of `part` stand in a row in `text`, from `at` on.
pub open spec fn in_a_row(text: Seq<char>, part: Seq<char>, at: int) -> bool {
    &&& 0 <= at <= text.len() - part.len()
    &&& forall|i: int| 0 <= i < part.len() ==> text[at + i] == #[trigger] part[i]
}

/// A text holds another exactly when the characters of the other stand in it in a
/// row.
pub proof fn law_occurrence(text: Seq<char>, part: Seq<char>)
    ensures
        has_text(text, part) <==> exists|at: int| in_a_row(text, part, at),
{
    if has_text(text, part) {
        let at = choose|at: int| text_at(text, part, at);
        assert forall|i: int| 0 <= i < part.len() implies text[at + i] == #[trigger] part[i] by {
            assert(text.subrange(at, at + part.len())[i] == text[at + i]);
        }
        assert(in_a_row(text, part, at));
    }
    if exists|at: int| in_a_row(text, part, at) {
        let at = choose|at: int| in_a_row(text, part, at);
        assert(text.subrange(at, at + part.len()) =~= part);
        assert(text_at(text, part, at));
    }
}

/// The route of a text under the rules from `from` on.
spec fn route_from(rules: Seq<(Seq<char>, Route)>, text: Seq<char>, from: int) -> Option<Route>
    decreases rules.len() - from,
{
    if from < 0 || from >= rules.len() {
        None
    } else if has_text(text, rules[from].0) {
        Some(rules[from].1)
    } else {
        route_from(rules, text, from + 1)
    }
}

proof fn lemma_route_from(rules: Seq<(Seq<char>, Route)>, text: Seq<char>, from: int)
    requires
        0 <= from <= rules.len(),
        forall|before: int| 0 <= before < from ==> !has_text(text, #[trigger] rules[before].0),
    ensures
        first_route(rules, text) == route_from(rules, text, from),
    decreases rules.len() - from,
{
    if from < rules.len() {
        if has_text(text, rules[from].0) {
            lemma_first_route(rules, text, from);
        } else {
            lemma_route_from(rules, text, from + 1);
        }
    }
}

/// Where a text goes, marker by marker: each marker decides for the texts that
/// hold it and none of the markers named before it, whatever else they hold.
#[verifier::rlimit(60)]
pub proof fn law_texts_go_by_their_markers(
    text: String,
    result: Result<KucoinWebsocketMsg, APIError>,
)
    requires
        is_routed(Message::Text(text), result),
    ensures
        ({
            let t = text@;
            if has_text(t, "\"type\":\"welcome\""@) || has_text(t, "\"type\":\"ack\""@) {
                is_json(result, MsgKind::WelcomeMsg, t)
            } else if has_text(t, "\"type\":\"ping\""@) {
                is_json(result, MsgKind::PingMsg, t)
            } else if has_text(t, "\"type\":\"pong\""@) {
                is_json(result, MsgKind::PongMsg, t)
            } else if has_text(t, "\"subject\":\"trade.ticker\""@) {
                is_json(result, MsgKind::TickerMsg, t)
            } else if has_text(t, "\"topic\":\"/market/ticker:all\""@) {
                is_json(result, MsgKind::AllTickerMsg, t)
            } else if has_text(t, "\"subject\":\"trade.snapshot\""@) {
                is_json(result, MsgKind::SnapshotMsg, t)
            } else if has_text(t, "\"subject\":\"trade.l2update\""@) {
                is_json(result, MsgKind::OrderBookMsg, t)
            } else if has_text(t, "/market/match:"@) {
                is_json(result, MsgKind::MatchMsg, t)
            } else if has_text(t, "\"subject\":\"trade.l3received\""@) {
                is_json(result, MsgKind::Level3ReceivedMsg, t)
            } else if has_text(t, "\"subject\":\"trade.l3open\""@) {
                is_json(result, MsgKind::Level3OpenMsg, t)
            } else if has_text(t, "\"subject\":\"trade.l3done\""@) {
                is_json(result, MsgKind::Level3DoneMsg, t)
            } else if has_text(t, "\"subject\":\"trade.l3match\""@) {
                is_json(result, MsgKind::Level3MatchMsg, t)
            } else if has_text(t, "\"subject\":\"trade.l3change\""@) {
                is_json(result, MsgKind::Level3ChangeMsg, t)
            } else if has_text(t, "\"subject\":\"level2\""@) {
                is_json(result, MsgKind::OrderBookDepthMsg, t)
            } else if has_text(t, "\"subject\":\"received\""@) {
                is_json(result, MsgKind::FullMatchReceivedMsg, t)
            } else if has_text(t, "\"subject\":\"open\""@) {
                is_json(result, MsgKind::FullMatchOpenMsg, t)
            } else if has_text(t, "\"subject\":\"done\""@) {
                is_json(result, MsgKind::FullMatchDoneMsg, t)
            } else if has_text(t, "\"subject\":\"match\""@) {
                is_json(result, MsgKind::FullMatchMatchMsg, t)
            } else if has_text(t, "\"subject\":\"update\""@) {
                is_json(result, MsgKind::FullMatchChangeMsg, t)
            } else if has_text(t, "/indicator/index:"@) {
                is_json(result, MsgKind::IndexPriceMsg, t)
            } else if has_text(t, "/indicator/markPrice:"@) {
                is_json(result, MsgKind::MarketPriceMsg, t)
            } else if has_text(t, "/margin/fundingBook:"@) {
                is_json(result, MsgKind::OrderBookChangeMsg, t)
            } else if has_text(t, "\"type\":\"stop\""@) || has_text(t, "\"type\":\"activate\""@) {
                is_json(result, MsgKind::StopOrderMsg, t)
            } else if has_text(t, "/account/balance"@) {
                is_json(result, MsgKind::BalancesMsg, t)
            } else if has_text(t, "debt.ratio"@) {
                is_json(result, MsgKind::DebtRatioMsg, t)
            } else if has_text(t, "position.status"@) {
                is_json(result, MsgKind::PositionChangeMsg, t)
            } else if has_text(t, "order.open"@) {
                is_json(result, MsgKind::MarginTradeOpenMsg, t)
            } else if has_text(t, "order.update"@) {
                is_json(result, MsgKind::MarginTradeUpdateMsg, t)
            } else if has_text(t, "order.done"@) {
                is_json(result, MsgKind::MarginTradeDoneMsg, t)
            } else if has_text(t, "error"@) {
                is_error_text(result, t)
            } else if has_text(t, "\"topic\":\"/spotMarket/tradeOrders"@) {
                if has_text(t, "\"type\":\"received\""@) {
                    is_json(result, MsgKind::TradeReceivedMsg, t)
                } else if has_text(t, "\"type\":\"open\""@) {
                    is_json(result, MsgKind::TradeOpenMsg, t)
                } else if has_text(t, "\"type\":\"match\""@) {
                    is_json(result, MsgKind::TradeMatchMsg, t)
                } else if has_text(t, "\"type\":\"filled\""@) {
                    is_json(result, MsgKind::TradeFilledMsg, t)
                } else if has_text(t, "\"type\":\"canceled\""@) {
                    is_json(result, MsgKind::TradeCanceledMsg, t)
                } else if has_text(t, "\"type\":\"update\""@) {
                    is_json(result, MsgKind::TradeUpdateMsg, t)
                } else {
                    is_refusal(
                        result,
                        "Unrecognised message from tradeOrders\n"@ + json_string(t),
                    )
                }
            } else if has_text(t, "\"topic\":\"/contractMarket/ticker"@) {
                if has_text(t, "\"subject\":\"ticker\""@) {
                    is_json(result, MsgKind::FutTickerMsg, t)
                } else if has_text(t, "\"subject\":\"snapshot\""@) {
                    is_json(result, MsgKind::SnapshotMsg, t)
                } else if has_text(t, "\"subject\":\"l2update\""@) {
                    is_json(result, MsgKind::OrderBookMsg, t)
                } else if has_text(t, "\"subject\":\"l3received\""@) {
                    is_json(result, MsgKind::Level3ReceivedMsg, t)
                } else if has_text(t, "\"subject\":\"l3open\""@) {
                    is_json(result, MsgKind::Level3OpenMsg, t)
                } else if has_text(t, "\"subject\":\"l3done\""@) {
                    is_json(result, MsgKind::Level3DoneMsg, t)
                } else if has_text(t, "\"subject\":\"l3match\""@) {
                    is_json(result, MsgKind::Level3MatchMsg, t)
                } else if has_text(t, "\"subject\":\"l3change\""@) {
                    is_json(result, MsgKind::Level3ChangeMsg, t)
                } else {
                    is_refusal(
                        result,
                        "Unrecognised message from contractMarket\n"@ + json_string(t),
                    )
                }
            } else {
                is_refusal(result, "No KucoinWebSocketMsg type to parse:\n"@ + t)
            }
        }),
{
    let t = text@;
    lemma_route_from(text_rules(), t, 0);
    lemma_route_from(trade_order_rules(), t, 0);
    lemma_route_from(contract_market_rules(), t, 0);
    reveal_with_fuel(route_from, 36);
}

/// A kind is never given without its cause: the text holds a marker of the kind,
/// and, for the kinds of a feed, the topic of the feed.
#[verifier::rlimit(60)]
pub proof fn law_kinds_need_their_markers(
    text: String,
    result: Result<KucoinWebsocketMsg, APIError>,
)
    requires
        is_routed(Message::Text(text), result),
        result is Ok,
    ensures
        ({
            let t = text@;
            match result->Ok_0 {
                KucoinWebsocketMsg::Json(kind, _) => match kind {
                    MsgKind::WelcomeMsg => has_text(t, "\"type\":\"welcome\""@) || has_text(t, "\"type\":\"ack\""@),
                    MsgKind::PingMsg => has_text(t, "\"type\":\"ping\""@),
                    MsgKind::PongMsg => has_text(t, "\"type\":\"pong\""@),
                    MsgKind::TickerMsg => has_text(t, "\"subject\":\"trade.ticker\""@),
                    MsgKind::AllTickerMsg => has_text(t, "\"topic\":\"/market/ticker:all\""@),
                    MsgKind::SnapshotMsg => has_text(t, "\"subject\":\"trade.snapshot\""@) || (has_text(t, "\"topic\":\"/contractMarket/ticker"@) && has_text(t, "\"subject\":\"snapshot\""@)),
                    MsgKind::OrderBookMsg => has_text(t, "\"subject\":\"trade.l2update\""@) || (has_text(t, "\"topic\":\"/contractMarket/ticker"@) && has_text(t, "\"subject\":\"l2update\""@)),
                    MsgKind::MatchMsg => has_text(t, "/market/match:"@),
                    MsgKind::Level3ReceivedMsg => has_text(t, "\"subject\":\"trade.l3received\""@) || (has_text(t, "\"topic\":\"/contractMarket/ticker"@) && has_text(t, "\"subject\":\"l3received\""@)),
                    MsgKind::Level3OpenMsg => has_text(t, "\"subject\":\"trade.l3open\""@) || (has_text(t, "\"topic\":\"/contractMarket/ticker"@) && has_text(t, "\"subject\":\"l3open\""@)),
                    MsgKind::Level3DoneMsg => has_text(t, "\"subject\":\"trade.l3done\""@) || (has_text(t, "\"topic\":\"/contractMarket/ticker"@) && has_text(t, "\"subject\":\"l3done\""@)),
                    MsgKind::Level3MatchMsg => has_text(t, "\"subject\":\"trade.l3match\""@) || (has_text(t, "\"topic\":\"/contractMarket/ticker"@) && has_text(t, "\"subject\":\"l3match\""@)),
                    MsgKind::Level3ChangeMsg => has_text(t, "\"subject\":\"trade.l3change\""@) || (has_text(t, "\"topic\":\"/contractMarket/ticker"@) && has_text(t, "\"subject\":\"l3change\""@)),
                    MsgKind::OrderBookDepthMsg => has_text(t, "\"subject\":\"level2\""@),
                    MsgKind::FullMatchReceivedMsg => has_text(t, "\"subject\":\"received\""@),
                    MsgKind::FullMatchOpenMsg => has_text(t, "\"subject\":\"open\""@),
                    MsgKind::FullMatchDoneMsg => has_text(t, "\"subject\":\"done\""@),
                    MsgKind::FullMatchMatchMsg => has_text(t, "\"subject\":\"match\""@),
                    MsgKind::FullMatchChangeMsg => has_text(t, "\"subject\":\"update\""@),
                    MsgKind::IndexPriceMsg => has_text(t, "/indicator/index:"@),
                    MsgKind::MarketPriceMsg => has_text(t, "/indicator/markPrice:"@),
                    MsgKind::OrderBookChangeMsg => has_text(t, "/margin/fundingBook:"@),
                    MsgKind::StopOrderMsg => has_text(t, "\"type\":\"stop\""@) || has_text(t, "\"type\":\"activate\""@),
                    MsgKind::BalancesMsg => has_text(t, "/account/balance"@),
                    MsgKind::DebtRatioMsg => has_text(t, "debt.ratio"@),
                    MsgKind::PositionChangeMsg => has_text(t, "position.status"@),
                    MsgKind::MarginTradeOpenMsg => has_text(t, "order.open"@),
                    MsgKind::MarginTradeUpdateMsg => has_text(t, "order.update"@),
                    MsgKind::MarginTradeDoneMsg => has_text(t, "order.done"@),
                    MsgKind::TradeReceivedMsg => (has_text(t, "\"topic\":\"/spotMarket/tradeOrders"@) && has_text(t, "\"type\":\"received\""@)),
                    MsgKind::TradeOpenMsg => (has_text(t, "\"topic\":\"/spotMarket/tradeOrders"@) && has_text(t, "\"type\":\"open\""@)),
                    MsgKind::TradeMatchMsg => (has_text(t, "\"topic\":\"/spotMarket/tradeOrders"@) && has_text(t, "\"type\":\"match\""@)),
                    MsgKind::TradeFilledMsg => (has_text(t, "\"topic\":\"/spotMarket/tradeOrders"@) && has_text(t, "\"type\":\"filled\""@)),
                    MsgKind::TradeCanceledMsg => (has_text(t, "\"topic\":\"/spotMarket/tradeOrders"@) && has_text(t, "\"type\":\"canceled\""@)),
                    MsgKind::TradeUpdateMsg => (has_text(t, "\"topic\":\"/spotMarket/tradeOrders"@) && has_text(t, "\"type\":\"update\""@)),
                    MsgKind::FutTickerMsg => (has_text(t, "\"topic\":\"/contractMarket/ticker"@) && has_text(t, "\"subject\":\"ticker\""@)),
                },
                KucoinWebsocketMsg::Error(_) => has_text(t, "error"@),
                _ => false,
            }
        }),
{
    law_texts_go_by_their_markers(text, result);
}

/// A trade of the match feed stays one whatever its subject says: it gives way
/// only to the eight markers named here.
pub proof fn law_match_feed(text: String, result: Result<KucoinWebsocketMsg, APIError>)
    requires
        is_routed(Message::Text(text), result),
        has_text(text@, "/market/match:"@),
        !has_text(text@, "\"type\":\"welcome\""@),
        !has_text(text@, "\"type\":\"ack\""@),
        !has_text(text@, "\"type\":\"ping\""@),
        !has_text(text@, "\"type\":\"pong\""@),
        !has_text(text@, "\"subject\":\"trade.ticker\""@),
        !has_text(text@, "\"topic\":\"/market/ticker:all\""@),
        !has_text(text@, "\"subject\":\"trade.snapshot\""@),
        !has_text(text@, "\"subject\":\"trade.l2update\""@),
    ensures
        is_json(result, MsgKind::MatchMsg, text@),
{
    law_texts_go_by_their_markers(text, result);
}

/// An order update that is read by its type goes by the first of the six types
/// that the text holds.
pub proof fn law_order_updates_go_by_type(
    text: String,
    result: Result<KucoinWebsocketMsg, APIError>,
)
    requires
        is_routed(Message::Text(text), result),
        first_route(text_rules(), text@) == Some(Route::TradeOrders),
    ensures
        ({
            let received = has_text(text@, "\"type\":\"received\""@);
            let open = has_text(text@, "\"type\":\"open\""@);
            let matched = has_text(text@, "\"type\":\"match\""@);
            let filled = has_text(text@, "\"type\":\"filled\""@);
            let canceled = has_text(text@, "\"type\":\"canceled\""@);
            let update = has_text(text@, "\"type\":\"update\""@);
            let before = received || open || matched;
            &&& is_json(result, MsgKind::TradeReceivedMsg, text@) <==> received
            &&& is_json(result, MsgKind::TradeOpenMsg, text@) <==> open && !received
            &&& is_json(result, MsgKind::TradeMatchMsg, text@) <==> matched && !received && !open
            &&& is_json(result, MsgKind::TradeFilledMsg, text@) <==> filled && !before
            &&& is_json(result, MsgKind::TradeCanceledMsg, text@) <==> canceled && !before
                && !filled
            &&& is_json(result, MsgKind::TradeUpdateMsg, text@) <==> update && !before && !filled
                && !canceled
            &&& result is Err <==> !before && !filled && !canceled && !update
        }),
{
    let t = text@;
    lemma_route_from(trade_order_rules(), t, 0);
    reveal_with_fuel(route_from, 8);
}

/// What a text is said to be and what becomes of it agree.
pub proof fn law_verdicts_agree(
    text: String,
    result: Result<KucoinWebsocketMsg, APIError>,
    kind: MsgKind,
)
    requires
        is_routed(Message::Text(text), result),
    ensures
        is_json(result, kind, text@) <==> verdict(text@) == Verdict::Json(kind),
        is_error_text(result, text@) <==> verdict(text@) is ErrorText,
        result is Err <==> verdict(text@) is UnknownTradeOrder
            || verdict(text@) is UnknownContractMarket || verdict(text@) is Unknown,
        verdict(text@) is UnknownTradeOrder ==> has_text(
            text@,
            "\"topic\":\"/spotMarket/tradeOrders"@,
        ),
        verdict(text@) is UnknownContractMarket ==> has_text(
            text@,
            "\"topic\":\"/contractMarket/ticker"@,
        ),
        verdict(text@) is Unknown ==> !has_text(
            text@,
            "\"topic\":\"/spotMarket/tradeOrders"@,
        ) && !has_text(text@, "\"topic\":\"/contractMarket/ticker"@),
{
    lemma_route_from(text_rules(), text@, 0);
    reveal_with_fuel(route_from, 36);
}

/// Frames other than text go by what they are, whatever they carry.
pub proof fn law_frames(msg: Message, result: Result<KucoinWebsocketMsg, APIError>)
    requires
        is_routed(msg, result),
    ensures
        msg matches Message::Binary(sent) ==> (result matches Ok(KucoinWebsocketMsg::Binary(bytes))
            && bytes@ == sent@),
        msg is Ping ==> result == Ok::<KucoinWebsocketMsg, APIError>(KucoinWebsocketMsg::Ping),
        msg is Pong ==> result == Ok::<KucoinWebsocketMsg, APIError>(KucoinWebsocketMsg::Pong),
        msg is Close ==> is_refusal(result, "Socket closed error"@),
        result is Ok ==> {
            &&& result->Ok_0 is Binary <==> msg is Binary
            &&& result->Ok_0 is Ping <==> msg is Ping
            &&& result->Ok_0 is Pong <==> msg is Pong
        },
{
    match msg {
        Message::Text(text) => law_texts_go_by_their_markers(text, result),
        _ => {},
    }
}

/// The bodies that have to decode are those of the order updates, and the words
/// of the failure name the kind.
pub proof fn law_bodies_that_have_to_decode(kind: MsgKind)
    ensures
        match decode_panic(kind) {
            Some(words) => {
                ||| kind is TradeReceivedMsg && words == "TradeReceivedMsg serde fail"@
                ||| kind is TradeOpenMsg && words == "TradeOpenMsg serde fail"@
                ||| kind is TradeMatchMsg && words == "TradeMatchMsg serde fail"@
                ||| kind is TradeFilledMsg && words == "TradeFilledMsg serde fail"@
                ||| kind is TradeCanceledMsg && words == "TradeCanceledMsg serde fail"@
                ||| kind is TradeUpdateMsg && words == "TradeUpdateMsg serde fail"@
            },
            None => !(kind is TradeReceivedMsg || kind is TradeOpenMsg || kind is TradeMatchMsg
                || kind is TradeFilledMsg || kind is TradeCanceledMsg || kind is TradeUpdateMsg),
        },
{
}

} // verus!
