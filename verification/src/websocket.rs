//! The open sockets and the topics they serve.
use crate::error::APIError;
use crate::message::{is_routed, parse_message, KucoinWebsocketMsg, Message};
use crate::streams::{held, insert_stream, new_set, take_stream, StoredStream};
use crate::subscription::{parse_url, parsed_url, topic_views, Course, Subscription};
use crate::topic::{Topic, WSTopic};
use crate::topic_map::TopicMap;
use std::collections::HashMap;
use streamunordered::StreamUnordered;
use vstd::prelude::*;

verus! {

broadcast use vstd::std_specs::hash::group_hash_axioms;

/// The open streams, with the token of each subscribed topic and the topic of
/// each token.
pub struct KucoinWebsocket {
    subscriptions: TopicMap,
    tokens: HashMap<usize, WSTopic>,
    /// The streams themselves, for the caller to poll.
    pub streams: StreamUnordered<StoredStream>,
}

/// The state of the sockets, over maps.
#[verifier::ext_equal]
pub ghost struct SocketState {
    /// The token last given for a topic.
    pub subscriptions: Map<Topic, usize>,
    /// The topic that a token was last given for.
    pub tokens: Map<usize, Topic>,
    /// The open streams by token.
    pub streams: Map<usize, StoredStream>,
}

impl SocketState {
    /// No topic, no token, no stream.
    pub open spec fn empty() -> SocketState {
        SocketState {
            subscriptions: Map::empty(),
            tokens: Map::empty(),
            streams: Map::empty(),
        }
    }

    /// The two records cover each other: the token of every topic is on record,
    /// and so is the topic of every token.
    pub open spec fn valid(self) -> bool {
        &&& forall|topic: Topic| #[trigger]
            self.subscriptions.contains_key(topic) ==> self.tokens.contains_key(
                self.subscriptions[topic],
            )
        &&& forall|token: usize| #[trigger]
            self.tokens.contains_key(token) ==> self.subscriptions.contains_key(self.tokens[token])
    }

    /// The state once `stream` is stored for `topic` under a free token.
    pub open spec fn stored(self, topic: Topic, token: usize, stream: StoredStream) -> SocketState {
        SocketState {
            subscriptions: self.subscriptions.insert(topic, token),
            tokens: self.tokens.insert(token, topic),
            streams: self.streams.insert(token, stream),
        }
    }

    /// The topic has a token, and there is a stream under it.
    pub open spec fn has_stream(self, topic: Topic) -> bool {
        self.subscriptions.contains_key(topic) && self.streams.contains_key(
            self.subscriptions[topic],
        )
    }

    /// The stream under the token of a topic.
    pub open spec fn stream_of(self, topic: Topic) -> Option<StoredStream> {
        if self.has_stream(topic) {
            Some(self.streams[self.subscriptions[topic]])
        } else {
            None
        }
    }

    /// The state once the stream of a topic is taken out. The topic keeps its
    /// token.
    pub open spec fn released(self, topic: Topic) -> SocketState {
        if self.has_stream(topic) {
            SocketState { streams: self.streams.remove(self.subscriptions[topic]), ..self }
        } else {
            self
        }
    }
}

impl View for KucoinWebsocket {
    type V = SocketState;

    closed spec fn view(&self) -> SocketState {
        SocketState {
            subscriptions: self.subscriptions@,
            tokens: self.tokens@.map_values(|topic: WSTopic| topic@),
            streams: held(self.streams),
        }
    }
}

/// What polling the streams came to.
pub enum StreamEvent {
    /// A stream gave a message, or failed.
    Item(Result<Message, tokio_tungstenite::tungstenite::Error>),
    /// A stream came to its end.
    Finished,
    /// There is no stream.
    NoStream,
    /// No stream is ready.
    Pending,
}

/// The answer to a poll.
pub enum PollAnswer {
    /// There is a message, or an error.
    Ready(Result<KucoinWebsocketMsg, APIError>),
    /// There is nothing yet.
    Pending,
}

impl Default for KucoinWebsocket {
    fn default() -> (socket: Self)
        ensures
            socket.wf(),
            socket@ == SocketState::empty(),
    {
        let socket = KucoinWebsocket {
            subscriptions: TopicMap::new(),
            tokens: HashMap::new(),
            streams: new_set(),
        };
        assert(socket@ =~= SocketState::empty());
        socket
    }
}

impl KucoinWebsocket {
    /// The records are consistent.
    pub closed spec fn wf(&self) -> bool {
        self.subscriptions.wf() && self@.valid()
    }

    /// The records of every set of sockets cover each other.
    pub proof fn law_records_cover_each_other(&self)
        requires
            self.wf(),
        ensures
            self@.valid(),
    {
    }

    /// The state shows the three records as they are held.
    proof fn law_state_shows_the_records(&self, token: usize)
        ensures
            self@.subscriptions == self.subscriptions@,
            self@.tokens.contains_key(token) <==> self.tokens@.contains_key(token),
            self@.tokens.contains_key(token) ==> self@.tokens[token] == self.tokens@[token]@,
            self@.streams == held(self.streams),
    {
    }

    /// Begins a subscription for the topics at a URL; the sockets stay as they
    /// are until [`KucoinWebsocket::store`].
    pub fn subscribe(&self, url: String, ws_topic: Vec<WSTopic>) -> (begun: Result<
        Subscription,
        APIError,
    >)
        ensures
            match parsed_url(url@) {
                Some(text) => {
                    &&& begun is Ok
                    &&& begun->Ok_0.wf()
                    &&& begun->Ok_0@ == (Course {
                        endpoint: text,
                        topics: topic_views(ws_topic@),
                        sent: 0,
                    })
                },
                None => begun is Err && begun->Err_0.says("invalid url"@),
            },
    {
        let endpoint = parse_url(url.as_str());
        Subscription::begin(endpoint, ws_topic)
    }

    /// Stores the read half of a connected socket for the first of its topics,
    /// and gives the token of the stream.
    pub fn store(&mut self, ws_topic: &Vec<WSTopic>, read: StoredStream) -> (token: usize)
        requires
            old(self).wf(),
            ws_topic.len() > 0,
        ensures
            final(self).wf(),
            token != 0,
            !old(self)@.streams.contains_key(token),
            final(self)@ == old(self)@.stored(ws_topic[0]@, token, read),
    {
        let ghost before = self@;
        let token = insert_stream(&mut self.streams, read);
        self.subscriptions.insert(ws_topic[0].clone(), token);
        self.tokens.insert(token, ws_topic[0].clone());
        assert(self@ =~= before.stored(ws_topic[0]@, token, read));
        token
    }

    /// Takes out the stream under the token of a topic.
    pub fn unsubscribe(&mut self, ws_topic: WSTopic) -> (stream: Option<StoredStream>)
        requires
            old(self).wf(),
        ensures
            final(self).wf(),
            stream == old(self)@.stream_of(ws_topic@),
            final(self)@ == old(self)@.released(ws_topic@),
    {
        let ghost before = self@;
        match self.subscriptions.get(&ws_topic) {
            Some(token) => {
                let stream = take_stream(&mut self.streams, token);
                assert(self@ =~= before.released(ws_topic@));
                stream
            },
            None => None,
        }
    }

    /// Answers a poll: a message is routed, a failure becomes an error, and the
    /// end of one stream is no news.
    pub fn poll_next(event: StreamEvent) -> (answer: PollAnswer)
        requires
            event !is NoStream,
        ensures
            match event {
                StreamEvent::Item(Ok(message)) => answer is Ready && is_routed(
                    message,
                    answer->Ready_0,
                ),
                StreamEvent::Item(Err(error)) => answer == PollAnswer::Ready(
                    Err(APIError::Websocket(error)),
                ),
                _ => answer is Pending,
            },
    {
        match event {
            StreamEvent::Item(Ok(message)) => PollAnswer::Ready(parse_message(message)),
            StreamEvent::Item(Err(error)) => PollAnswer::Ready(Err(APIError::Websocket(error))),
            _ => PollAnswer::Pending,
        }
    }
}

} // verus!
