//! The set of open socket streams, kept in a `StreamUnordered`.
use futures::stream::SplitStream;
use streamunordered::StreamUnordered;
use tokio::net::TcpStream;
use tokio_native_tls::TlsStream;
use tokio_tungstenite::stream::Stream as SwitchStream;
use tokio_tungstenite::WebSocketStream;
use vstd::prelude::*;

verus! {

/// A TCP connection of `tokio`, carried and never looked into.
#[verifier::external_type_specification]
#[verifier::external_body]
pub struct ExTcpStream(TcpStream);

/// A TLS session of `tokio_native_tls`, carried and never looked into.
#[verifier::external_type_specification]
#[verifier::external_body]
#[verifier::reject_recursive_types(S)]
pub struct ExTlsStream<S>(TlsStream<S>);

/// The plain-or-TLS stream of `tokio_tungstenite`, carried and never looked into.
#[verifier::external_type_specification]
#[verifier::external_body]
#[verifier::reject_recursive_types(S)]
#[verifier::reject_recursive_types(T)]
pub struct ExSwitchStream<S, T>(SwitchStream<S, T>);

/// A websocket of `tokio_tungstenite`, carried and never looked into.
#[verifier::external_type_specification]
#[verifier::external_body]
#[verifier::reject_recursive_types(S)]
pub struct ExWebSocketStream<S>(WebSocketStream<S>);

/// The read half of a split stream of `futures`, carried and never looked into.
#[verifier::external_type_specification]
#[verifier::external_body]
#[verifier::reject_recursive_types(S)]
pub struct ExSplitStream<S>(SplitStream<S>);

/// The stream set of `streamunordered`; what it holds is [`held`].
#[verifier::external_type_specification]
#[verifier::external_body]
#[verifier::reject_recursive_types(S)]
pub struct ExStreamUnordered<S>(StreamUnordered<S>);

/// A websocket over TCP, with or without TLS.
pub type WSStream = WebSocketStream<SwitchStream<TcpStream, TlsStream<TcpStream>>>;

/// The read half of a websocket.
pub type StoredStream = SplitStream<WSStream>;

/// The streams in a set, each under the token that `insert` gave for it.
pub uninterp spec fn held(streams: StreamUnordered<StoredStream>) -> Map<usize, StoredStream>;

/// Calls `StreamUnordered::new`. The contract claims that the new set holds no
/// stream.
#[verifier::external_body]
pub(crate) fn new_set() -> (streams: StreamUnordered<StoredStream>)
    ensures
        held(streams).dom() == Set::<usize>::empty(),
{
    StreamUnordered::new()
}

/// Calls `StreamUnordered::insert`. The contract claims that the stream joins
/// the set under the returned token, that the token was free, that it is never
/// zero, and that every other stream keeps its token. Which free token is
/// taken is left open: the token of a stream that was taken out may come back.
#[verifier::external_body]
pub(crate) fn insert_stream(
    streams: &mut StreamUnordered<StoredStream>,
    stream: StoredStream,
) -> (token: usize)
    ensures
        token != 0,
        !held(*old(streams)).contains_key(token),
        held(*final(streams)) == held(*old(streams)).insert(token, stream),
{
    streams.insert(stream)
}

/// Calls `StreamUnordered::take`. The contract claims that the stream under the
/// token, where there is one, leaves the set and is returned, and that every
/// other stream keeps its token.
#[verifier::external_body]
pub(crate) fn take_stream(streams: &mut StreamUnordered<StoredStream>, token: usize) -> (stream: Option<
    StoredStream,
>)
    ensures
        stream == (if held(*old(streams)).contains_key(token) {
            Some(held(*old(streams))[token])
        } else {
            None
        }),
        held(*final(streams)) == held(*old(streams)).remove(token),
{
    std::pin::Pin::new(streams).take(token)
}

} // verus!
