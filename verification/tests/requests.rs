use kucoin_websocket::client::{
    APIDatum, EndpointQuery, InstanceServer, InstanceServers, Kucoin,
};
use kucoin_websocket::clock::{get_time, time_of};
use kucoin_websocket::error::APIError;
use kucoin_websocket::heartbeat::{
    heartbeat, DefaultMsg, HeartbeatAction, HeartbeatEvent, HEARTBEAT_SECONDS,
};
use kucoin_websocket::subscription::{SubscribeAction, Subscription};
use kucoin_websocket::text::{decimal_string, join};
use kucoin_websocket::topic::{Subscribe, WSTopic, WSType};
use tokio_tungstenite::tungstenite::Error as WsError;

fn symbols() -> Vec<String> {
    vec![String::from("BTC-USDT"), String::from("ETH-USDT")]
}

fn client() -> Kucoin {
    Kucoin { prefix: String::from("https://api.kucoin.com") }
}

fn all_topics() -> Vec<(WSTopic, &'static str, bool)> {
    vec![
        (WSTopic::Ticker(symbols()), "/market/ticker:BTC-USDT,ETH-USDT", false),
        (WSTopic::FutTicker(symbols()), "/contractMarket/ticker:BTC-USDT,ETH-USDT", false),
        (WSTopic::AllTicker, "/market/ticker:all", false),
        (WSTopic::Snapshot(String::from("KCS")), "/market/snapshot:KCS", false),
        (WSTopic::OrderBook(symbols()), "/market/level2:BTC-USDT,ETH-USDT", false),
        (WSTopic::OrderBookDepth5(symbols()), "/spotMarket/level2Depth5:BTC-USDT,ETH-USDT", false),
        (WSTopic::OrderBookDepth50(symbols()), "/spotMarket/level2Depth50:BTC-USDT,ETH-USDT", false),
        (WSTopic::Match(symbols()), "/market/match:BTC-USDT,ETH-USDT", false),
        (WSTopic::FullMatch(symbols()), "/spotMarket/level3:BTC-USDT,ETH-USDT", false),
        (WSTopic::Level3Public(symbols()), "/market/level3:BTC-USDT,ETH-USDT", false),
        (WSTopic::Level3Private(symbols()), "/market/level3:BTC-USDT,ETH-USDT", true),
        (WSTopic::IndexPrice(symbols()), "/indicator/index:BTC-USDT,ETH-USDT", false),
        (WSTopic::MarketPrice(symbols()), "/indicator/markPrice:BTC-USDT,ETH-USDT", false),
        (WSTopic::OrderBookChange(symbols()), "/margin/fundingBook:BTC-USDT,ETH-USDT", false),
        (WSTopic::StopOrder(symbols()), "/market/level3:BTC-USDT,ETH-USDT", true),
        (WSTopic::Balances, "/account/balance", true),
        (WSTopic::DebtRatio, "/margin/position", true),
        (WSTopic::PositionChange, "/margin/position", true),
        (WSTopic::MarginTradeOrder(String::from("BTC")), "/margin/loan:BTC", true),
        (WSTopic::TradeOrders, "/spotMarket/tradeOrders", true),
        (WSTopic::TradeOrdersV2, "/spotMarket/tradeOrdersV2", true),
    ]
}

#[test]
fn every_topic_has_its_request() {
    for (topic, path, private) in all_topics().iter() {
        let request = Subscribe::at(topic, 1700000000123);
        assert_eq!(request.id, "1700000000123");
        assert_eq!(request.msg_type, "subscribe");
        assert_eq!(request.topic, *path);
        assert_eq!(request.private_channel, *private);
        assert!(request.response);
    }
}

#[test]
fn topics_are_equal_to_their_copies_alone() {
    let topics = all_topics();
    for (at, (left, _, _)) in topics.iter().enumerate() {
        for (other, (right, _, _)) in topics.iter().enumerate() {
            assert_eq!(left.clone() == *right, at == other);
        }
    }
    assert!(WSTopic::Ticker(symbols()) != WSTopic::Ticker(vec![]));
    assert!(WSTopic::Ticker(symbols()) != WSTopic::Ticker(vec![symbols()[1].clone(), symbols()[0].clone()]));
}

#[test]
fn a_topic_without_symbols_ends_in_its_colon() {
    assert_eq!(WSTopic::Ticker(vec![]).path(), "/market/ticker:");
    assert_eq!(WSTopic::Ticker(vec![String::from("KCS-BTC")]).path(), "/market/ticker:KCS-BTC");
}

#[test]
fn a_new_request_carries_the_time() {
    let before = get_time();
    let request = Subscribe::new(&WSTopic::AllTicker);
    let after = get_time();
    let id: u128 = request.id.parse().unwrap();
    assert!(before <= id && id <= after);
    assert!(id > 1_500_000_000_000);
    assert_eq!(request.topic, "/market/ticker:all");
}

#[test]
fn a_clock_before_the_epoch_reads_zero() {
    assert_eq!(time_of(Some(1700000000123)), 1700000000123);
    assert_eq!(time_of(None), 0);
}

#[test]
fn numbers_are_written_in_decimal() {
    for number in vec![0, 7, 10, 409, 1_000_000, u128::MAX] {
        assert_eq!(decimal_string(number), format!("{}", number));
    }
}

#[test]
fn items_are_joined() {
    assert_eq!(join(&vec![], ","), "");
    assert_eq!(join(&symbols(), ", "), "BTC-USDT, ETH-USDT");
}

#[test]
fn a_subscription_asks_for_each_topic_and_then_stores() {
    let topics = vec![WSTopic::Balances, WSTopic::AllTicker];
    let socket = client().websocket();
    let url = String::from("WSS://Push.Kucoin.com/endpoint?token=a b");
    let mut course = socket.subscribe(url, topics).ok().unwrap();
    assert_eq!(course.endpoint(), "wss://push.kucoin.com/endpoint?token=a%20b");
    match course.step(Ok(())) {
        SubscribeAction::Send(request) => assert_eq!(request.topic, "/account/balance"),
        _ => panic!("no request"),
    }
    match course.step(Ok(())) {
        SubscribeAction::Send(request) => assert_eq!(request.topic, "/market/ticker:all"),
        _ => panic!("no request"),
    }
    assert!(matches!(course.step(Ok(())), SubscribeAction::Store));
    let topics = course.into_topics();
    assert!(topics[0] == WSTopic::Balances);
    assert_eq!(topics.len(), 2);
}

#[test]
fn a_subscription_without_topics_sends_nothing() {
    let socket = client().websocket();
    let mut course = socket.subscribe(String::from("ws://localhost"), vec![]).ok().unwrap();
    assert_eq!(course.endpoint(), "ws://localhost/");
    assert!(matches!(course.step(Ok(())), SubscribeAction::Store));
}

#[test]
fn a_bad_url_is_refused() {
    let socket = client().websocket();
    for url in vec!["", "not a url", "/relative", "ws://"] {
        match socket.subscribe(String::from(url), vec![WSTopic::Balances]) {
            Err(APIError::Other(words)) => assert_eq!(words, "invalid url"),
            _ => panic!("{}", url),
        }
    }
    assert!(matches!(
        Subscription::begin(None, vec![]),
        Err(APIError::Other(words)) if words == "invalid url"
    ));
}

#[test]
fn a_failure_ends_a_subscription() {
    let socket = client().websocket();
    let topics = vec![WSTopic::Balances];
    let mut course = socket.subscribe(String::from("ws://localhost/"), topics).ok().unwrap();
    assert!(matches!(
        course.step(Err(WsError::ConnectionClosed)),
        SubscribeAction::Fail(APIError::Websocket(WsError::ConnectionClosed))
    ));
    assert!(matches!(course.step(Ok(())), SubscribeAction::Send(_)));
    assert!(matches!(
        course.step(Err(WsError::AlreadyClosed)),
        SubscribeAction::Fail(APIError::Websocket(WsError::AlreadyClosed))
    ));
}

#[test]
fn the_heartbeat_sleeps_and_pings_until_the_socket_fails() {
    assert_eq!(HEARTBEAT_SECONDS, 30);
    assert!(matches!(heartbeat(HeartbeatEvent::Started), HeartbeatAction::Sleep(30)));
    match heartbeat(HeartbeatEvent::Woke) {
        HeartbeatAction::Send(ping) => {
            assert_eq!(ping.msg_type, "ping");
            assert!(ping.id.parse::<u128>().is_ok());
        }
        _ => panic!("no ping"),
    }
    assert!(matches!(heartbeat(HeartbeatEvent::Sent(Ok(()))), HeartbeatAction::Sleep(30)));
    let other = APIError::Other(String::from("busy"));
    assert!(matches!(heartbeat(HeartbeatEvent::Sent(Err(other))), HeartbeatAction::Sleep(30)));
    let lost = APIError::Websocket(WsError::ConnectionClosed);
    assert!(matches!(heartbeat(HeartbeatEvent::Sent(Err(lost))), HeartbeatAction::Stop));
}

#[test]
fn a_ping_carries_its_time() {
    let ping = DefaultMsg::ping(42);
    assert_eq!(ping.id, "42");
    assert_eq!(ping.msg_type, "ping");
}

#[test]
fn tokens_are_asked_of_the_bullet_service() {
    let request = client().ws_bullet_private();
    assert_eq!(request.endpoint, "/api/v1/bullet-private");
    assert_eq!(request.url, "https://api.kucoin.com/api/v1/bullet-private");
    let request = client().ws_bullet_public();
    assert_eq!(request.endpoint, "/api/v1/bullet-public");
    assert_eq!(request.url, "https://api.kucoin.com/api/v1/bullet-public");
    let query = client().get_socket_endpoint(WSType::Private);
    assert_eq!(query.request.url, "https://api.kucoin.com/api/v1/bullet-private");
    let query = client().get_socket_endpoint(WSType::Public);
    assert_eq!(query.request.url, "https://api.kucoin.com/api/v1/bullet-public");
}

fn query() -> EndpointQuery {
    EndpointQuery { request: client().ws_bullet_public(), timestamp: 1700000000123 }
}

fn reply(token: &str, endpoints: Vec<&str>) -> APIDatum<InstanceServers> {
    let instance_servers =
        endpoints.iter().map(|endpoint| InstanceServer { endpoint: endpoint.to_string() }).collect();
    APIDatum {
        data: Some(InstanceServers { token: String::from(token), instance_servers }),
        msg: None,
    }
}

fn words(url: Result<String, APIError>) -> String {
    match url {
        Err(APIError::Other(words)) => words,
        other => panic!("{:?}", other),
    }
}

#[test]
fn an_endpoint_is_made_of_the_first_server() {
    let url = query().answer(reply("abc", vec!["wss://one/endpoint", "wss://two/endpoint"]));
    assert_eq!(
        url.ok().unwrap(),
        "wss://one/endpoint?token=abc&[connectId=1700000000123]?acceptUserMessage=\"true\""
    );
}

#[test]
fn an_endpoint_needs_a_server_and_a_token() {
    assert_eq!(words(query().answer(reply("", vec!["wss://one"]))), "Missing endpoint/token");
    assert_eq!(words(query().answer(reply("abc", vec![""]))), "Missing endpoint/token");
}

#[test]
fn a_reply_without_data_is_an_error() {
    let resp = APIDatum { data: None, msg: Some(String::from("Invalid KC-API-KEY")) };
    assert_eq!(words(query().answer(resp)), "Invalid KC-API-KEY");
    let resp = APIDatum { data: None, msg: None };
    assert_eq!(words(query().answer(resp)), "no data or message");
}
