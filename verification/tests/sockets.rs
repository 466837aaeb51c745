use futures::StreamExt;
use kucoin_websocket::client::Kucoin;
use kucoin_websocket::streams::StoredStream;
use kucoin_websocket::topic::WSTopic;
use kucoin_websocket::websocket::KucoinWebsocket;
use tokio::net::unix::pipe::pipe;
use tokio::net::TcpStream;
use tokio::runtime::{Builder, Runtime};
use tokio_tungstenite::stream::Stream as SwitchStream;
use tokio_tungstenite::tungstenite::protocol::Role;
use tokio_tungstenite::WebSocketStream;

fn runtime() -> Runtime {
    Builder::new_current_thread().enable_all().build().unwrap()
}

/// A stream that is open and silent. No peer is needed: it rests on one end of a
/// pipe.
async fn stream() -> StoredStream {
    let (_, end) = pipe().unwrap();
    let socket = TcpStream::from_std(end.into_nonblocking_fd().unwrap().into()).unwrap();
    let socket = WebSocketStream::from_raw_socket(SwitchStream::Plain(socket), Role::Client, None);
    let (_, read) = socket.await.split();
    read
}

fn socket() -> KucoinWebsocket {
    let client = Kucoin { prefix: String::from("https://api.kucoin.com") };
    client.websocket()
}

fn ticker(symbol: &str) -> WSTopic {
    WSTopic::Ticker(vec![String::from(symbol)])
}

#[test]
fn unsubscribe_gives_the_stored_stream_once() {
    runtime().block_on(async {
        let mut socket = socket();
        assert!(socket.streams.is_empty());
        let token = socket.store(&vec![ticker("BTC-USDT")], stream().await);
        assert_ne!(token, 0);
        assert_eq!(socket.streams.len(), 1);
        assert!(socket.streams.get(token).is_some());
        assert!(socket.unsubscribe(ticker("BTC-USDT")).is_some());
        assert!(socket.streams.is_empty());
        assert!(socket.unsubscribe(ticker("BTC-USDT")).is_none());
    });
}

#[test]
fn unsubscribe_from_an_unknown_topic_changes_nothing() {
    runtime().block_on(async {
        let mut socket = socket();
        socket.store(&vec![ticker("BTC-USDT")], stream().await);
        assert!(socket.unsubscribe(ticker("ETH-USDT")).is_none());
        assert!(socket.unsubscribe(WSTopic::AllTicker).is_none());
        assert_eq!(socket.streams.len(), 1);
    });
}

#[test]
fn only_the_first_topic_finds_the_stream() {
    runtime().block_on(async {
        let mut socket = socket();
        let topics = vec![WSTopic::Balances, WSTopic::TradeOrders];
        socket.store(&topics, stream().await);
        assert!(socket.unsubscribe(WSTopic::TradeOrders).is_none());
        assert!(socket.unsubscribe(WSTopic::Balances).is_some());
    });
}

#[test]
fn topics_keep_their_own_streams() {
    runtime().block_on(async {
        let mut socket = socket();
        let first = socket.store(&vec![WSTopic::Balances], stream().await);
        let second = socket.store(&vec![WSTopic::TradeOrders], stream().await);
        assert_ne!(first, second);
        assert!(socket.unsubscribe(WSTopic::Balances).is_some());
        assert!(socket.streams.get(first).is_none());
        assert!(socket.streams.get(second).is_some());
        assert!(socket.unsubscribe(WSTopic::TradeOrders).is_some());
    });
}

#[test]
fn a_second_store_hides_the_first() {
    runtime().block_on(async {
        let mut socket = socket();
        let first = socket.store(&vec![WSTopic::Balances], stream().await);
        let second = socket.store(&vec![WSTopic::Balances], stream().await);
        assert!(socket.unsubscribe(WSTopic::Balances).is_some());
        assert!(socket.streams.get(second).is_none());
        assert!(socket.streams.get(first).is_some());
        assert!(socket.unsubscribe(WSTopic::Balances).is_none());
        assert_eq!(socket.streams.len(), 1);
    });
}

#[test]
fn a_token_that_comes_back_serves_the_old_topic_too() {
    runtime().block_on(async {
        let mut socket = socket();
        let first = socket.store(&vec![WSTopic::Balances], stream().await);
        assert!(socket.unsubscribe(WSTopic::Balances).is_some());
        let second = socket.store(&vec![WSTopic::TradeOrders], stream().await);
        assert_eq!(first, second);
        assert!(socket.unsubscribe(WSTopic::Balances).is_some());
        assert!(socket.unsubscribe(WSTopic::TradeOrders).is_none());
    });
}
