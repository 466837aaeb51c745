use kucoin_websocket::error::APIError;
use kucoin_websocket::message::{
    classify, parse_message, KucoinWebsocketMsg, Message, MsgKind, Verdict,
};
use kucoin_websocket::websocket::{KucoinWebsocket, PollAnswer, StreamEvent};
use tokio_tungstenite::tungstenite::Error as WsError;

fn kind_of(text: &str) -> MsgKind {
    match parse_message(Message::Text(String::from(text))) {
        Ok(KucoinWebsocketMsg::Json(kind, body)) => {
            assert_eq!(body, text);
            kind
        }
        other => panic!("{:?}", other),
    }
}

fn refusal(message: Message) -> String {
    match parse_message(message) {
        Err(APIError::Other(words)) => words,
        other => panic!("{:?}", other),
    }
}

fn text(body: &str) -> Message {
    Message::Text(String::from(body))
}

#[test]
fn each_marker_finds_its_kind() {
    assert_eq!(kind_of(r#"{"id":"1","type":"welcome"}"#), MsgKind::WelcomeMsg);
    assert_eq!(kind_of(r#"{"id":"1","type":"ack"}"#), MsgKind::WelcomeMsg);
    assert_eq!(kind_of(r#"{"id":"1","type":"ping"}"#), MsgKind::PingMsg);
    assert_eq!(kind_of(r#"{"id":"1","type":"pong"}"#), MsgKind::PongMsg);
    assert_eq!(kind_of(r#"{"subject":"trade.ticker"}"#), MsgKind::TickerMsg);
    assert_eq!(kind_of(r#"{"topic":"/market/ticker:all"}"#), MsgKind::AllTickerMsg);
    assert_eq!(kind_of(r#"{"subject":"trade.snapshot"}"#), MsgKind::SnapshotMsg);
    assert_eq!(kind_of(r#"{"subject":"trade.l2update"}"#), MsgKind::OrderBookMsg);
    assert_eq!(kind_of(r#"{"topic":"/market/match:BTC-USDT"}"#), MsgKind::MatchMsg);
    assert_eq!(kind_of(r#"{"subject":"trade.l3received"}"#), MsgKind::Level3ReceivedMsg);
    assert_eq!(kind_of(r#"{"subject":"trade.l3open"}"#), MsgKind::Level3OpenMsg);
    assert_eq!(kind_of(r#"{"subject":"trade.l3done"}"#), MsgKind::Level3DoneMsg);
    assert_eq!(kind_of(r#"{"subject":"trade.l3match"}"#), MsgKind::Level3MatchMsg);
    assert_eq!(kind_of(r#"{"subject":"trade.l3change"}"#), MsgKind::Level3ChangeMsg);
    assert_eq!(kind_of(r#"{"subject":"level2"}"#), MsgKind::OrderBookDepthMsg);
    assert_eq!(kind_of(r#"{"subject":"received"}"#), MsgKind::FullMatchReceivedMsg);
    assert_eq!(kind_of(r#"{"subject":"open"}"#), MsgKind::FullMatchOpenMsg);
    assert_eq!(kind_of(r#"{"subject":"done"}"#), MsgKind::FullMatchDoneMsg);
    assert_eq!(kind_of(r#"{"subject":"match"}"#), MsgKind::FullMatchMatchMsg);
    assert_eq!(kind_of(r#"{"subject":"update"}"#), MsgKind::FullMatchChangeMsg);
    assert_eq!(kind_of(r#"{"topic":"/indicator/index:USDT-BTC"}"#), MsgKind::IndexPriceMsg);
    assert_eq!(kind_of(r#"{"topic":"/indicator/markPrice:USDT-BTC"}"#), MsgKind::MarketPriceMsg);
    assert_eq!(kind_of(r#"{"topic":"/margin/fundingBook:BTC"}"#), MsgKind::OrderBookChangeMsg);
    assert_eq!(kind_of(r#"{"data":{"type":"stop"}}"#), MsgKind::StopOrderMsg);
    assert_eq!(kind_of(r#"{"data":{"type":"activate"}}"#), MsgKind::StopOrderMsg);
    assert_eq!(kind_of(r#"{"topic":"/account/balance"}"#), MsgKind::BalancesMsg);
    assert_eq!(kind_of(r#"{"subject":"debt.ratio"}"#), MsgKind::DebtRatioMsg);
    assert_eq!(kind_of(r#"{"subject":"position.status"}"#), MsgKind::PositionChangeMsg);
    assert_eq!(kind_of(r#"{"subject":"order.open"}"#), MsgKind::MarginTradeOpenMsg);
    assert_eq!(kind_of(r#"{"subject":"order.update"}"#), MsgKind::MarginTradeUpdateMsg);
    assert_eq!(kind_of(r#"{"subject":"order.done"}"#), MsgKind::MarginTradeDoneMsg);
}

#[test]
fn trade_orders_go_by_their_type() {
    let feeds = vec!["/spotMarket/tradeOrders", "/spotMarket/tradeOrdersV2"];
    let kinds = vec![
        ("received", MsgKind::TradeReceivedMsg),
        ("open", MsgKind::TradeOpenMsg),
        ("match", MsgKind::TradeMatchMsg),
        ("filled", MsgKind::TradeFilledMsg),
        ("canceled", MsgKind::TradeCanceledMsg),
        ("update", MsgKind::TradeUpdateMsg),
    ];
    for feed in feeds.iter() {
        for (name, kind) in kinds.iter() {
            let body = format!("{{\"topic\":\"{}\",\"data\":{{\"type\":\"{}\"}}}}", feed, name);
            assert_eq!(kind_of(&body), *kind);
        }
    }
}

#[test]
fn futures_messages_go_by_their_subject() {
    let kinds = vec![
        ("ticker", MsgKind::FutTickerMsg),
        ("snapshot", MsgKind::SnapshotMsg),
        ("l2update", MsgKind::OrderBookMsg),
        ("l3received", MsgKind::Level3ReceivedMsg),
        ("l3open", MsgKind::Level3OpenMsg),
        ("l3done", MsgKind::Level3DoneMsg),
        ("l3match", MsgKind::Level3MatchMsg),
        ("l3change", MsgKind::Level3ChangeMsg),
    ];
    for (subject, kind) in kinds.iter() {
        let body = format!(
            "{{\"topic\":\"/contractMarket/ticker:XBTUSDM\",\"subject\":\"{}\"}}",
            subject
        );
        assert_eq!(kind_of(&body), *kind);
    }
}

#[test]
fn the_first_marker_wins() {
    assert_eq!(kind_of(r#"{"type":"pong","x":{"type":"ack"}}"#), MsgKind::WelcomeMsg);
    assert_eq!(
        kind_of(r#"{"subject":"trade.ticker","topic":"/market/ticker:all"}"#),
        MsgKind::TickerMsg
    );
    assert_eq!(kind_of(r#"{"subject":"order.done","note":"error"}"#), MsgKind::MarginTradeDoneMsg);
    assert_eq!(
        kind_of(r#"{"topic":"/spotMarket/tradeOrders","data":{"type":"stop"}}"#),
        MsgKind::StopOrderMsg
    );
    assert_eq!(
        classify(r#"{"topic":"/spotMarket/tradeOrders","note":"error"}"#),
        Verdict::ErrorText
    );
}

#[test]
fn only_the_markers_decide() {
    let left = r#"{"type":"message","subject":"level2","data":1}"#;
    let right = "\u{fc} \"subject\":\"level2\"";
    assert_eq!(classify(left), classify(right));
    assert_eq!(classify(left), Verdict::Json(MsgKind::OrderBookDepthMsg));
}

#[test]
fn markers_are_matched_to_the_letter() {
    assert_eq!(classify(r#"{"type": "ping"}"#), Verdict::Unknown);
    assert_eq!(classify(r#"{"TYPE":"ping"}"#), Verdict::Unknown);
    assert_eq!(classify(""), Verdict::Unknown);
    assert_eq!(classify("error"), Verdict::ErrorText);
    assert_eq!(classify("erro"), Verdict::Unknown);
}

#[test]
fn an_error_text_is_handed_on() {
    match parse_message(text("server error 404")) {
        Ok(KucoinWebsocketMsg::Error(body)) => assert_eq!(body, "server error 404"),
        other => panic!("{:?}", other),
    }
}

#[test]
fn an_unknown_text_is_refused_with_its_text() {
    assert_eq!(refusal(text("hello\n")), "No KucoinWebSocketMsg type to parse:\nhello\n");
    assert_eq!(refusal(text("")), "No KucoinWebSocketMsg type to parse:\n");
}

#[test]
fn an_unknown_trade_order_is_refused_as_json() {
    assert_eq!(
        refusal(text(r#"{"topic":"/spotMarket/tradeOrders"}"#)),
        "Unrecognised message from tradeOrders\n\"{\\\"topic\\\":\\\"/spotMarket/tradeOrders\\\"}\""
    );
}

#[test]
fn an_unknown_futures_message_is_refused_as_json() {
    assert_eq!(
        refusal(text("\"topic\":\"/contractMarket/ticker\\ \n\r\t\u{8}\u{c}\u{0}\u{1b}\u{7f}\u{e9}/")),
        "Unrecognised message from contractMarket\n\
         \"\\\"topic\\\":\\\"/contractMarket/ticker\\\\ \\n\\r\\t\\b\\f\\u0000\\u001b\u{7f}\u{e9}/\""
    );
}

#[test]
fn frames_go_by_what_they_are() {
    assert!(matches!(
        parse_message(Message::Binary(vec![1, 2])),
        Ok(KucoinWebsocketMsg::Binary(bytes)) if bytes == vec![1, 2]
    ));
    assert!(matches!(parse_message(Message::Ping(vec![7])), Ok(KucoinWebsocketMsg::Ping)));
    assert!(matches!(parse_message(Message::Pong(vec![])), Ok(KucoinWebsocketMsg::Pong)));
    assert_eq!(refusal(Message::Close), "Socket closed error");
}

#[test]
fn trade_order_bodies_have_to_decode() {
    assert_eq!(MsgKind::TradeReceivedMsg.decode_panic(), Some("TradeReceivedMsg serde fail"));
    assert_eq!(MsgKind::TradeOpenMsg.decode_panic(), Some("TradeOpenMsg serde fail"));
    assert_eq!(MsgKind::TradeMatchMsg.decode_panic(), Some("TradeMatchMsg serde fail"));
    assert_eq!(MsgKind::TradeFilledMsg.decode_panic(), Some("TradeFilledMsg serde fail"));
    assert_eq!(MsgKind::TradeCanceledMsg.decode_panic(), Some("TradeCanceledMsg serde fail"));
    assert_eq!(MsgKind::TradeUpdateMsg.decode_panic(), Some("TradeUpdateMsg serde fail"));
    assert_eq!(MsgKind::TickerMsg.decode_panic(), None);
    assert_eq!(MsgKind::FutTickerMsg.decode_panic(), None);
}

#[test]
fn a_body_that_does_not_decode_is_an_error() {
    let good: Result<u8, serde_json::Error> = serde_json::from_str("7");
    assert!(matches!(MsgKind::TickerMsg.decoded(good), Ok(7)));
    let bad: Result<u8, serde_json::Error> = serde_json::from_str("{");
    assert!(matches!(MsgKind::TickerMsg.decoded(bad), Err(APIError::Serde(_))));
}

#[test]
fn a_poll_is_answered() {
    let item = StreamEvent::Item(Ok(Message::Ping(vec![])));
    assert!(matches!(
        KucoinWebsocket::poll_next(item),
        PollAnswer::Ready(Ok(KucoinWebsocketMsg::Ping))
    ));
    let item = StreamEvent::Item(Err(WsError::ConnectionClosed));
    assert!(matches!(
        KucoinWebsocket::poll_next(item),
        PollAnswer::Ready(Err(APIError::Websocket(WsError::ConnectionClosed)))
    ));
    assert!(matches!(KucoinWebsocket::poll_next(StreamEvent::Finished), PollAnswer::Pending));
    assert!(matches!(KucoinWebsocket::poll_next(StreamEvent::Pending), PollAnswer::Pending));
}
