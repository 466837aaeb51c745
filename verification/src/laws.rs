//! What holds of the library as a whole.
use crate::client::{endpoint_of, APIDatum, InstanceServers};
use crate::error::APIError;
use crate::heartbeat::{beats, HeartbeatAction, HeartbeatEvent};
use crate::message::{
    contract_market_rules, decode_panic, fires, first_route, lemma_first_route, routed, text_rules,
    trade_order_rules, verdict, Message, MsgKind, MsgView, Route, Verdict,
};
use crate::streams::StoredStream;
use crate::subscription::{Course, SubscribeAction};
use crate::text::{decimal, digit_char, has_text, text_at};
use crate::topic::Topic;
use crate::websocket::SocketState;
use vstd::prelude::*;

verus! {

/// The same markers of a table occur in both texts.
pub open spec fn same_markers(
    rules: Seq<(Seq<char>, Route)>,
    left: Seq<char>,
    right: Seq<char>,
) -> bool {
    forall|at: int|
        0 <= at < rules.len() ==> has_text(left, #[trigger] rules[at].0) == has_text(
            right,
            rules[at].0,
        )
}

proof fn lemma_same_route(rules: Seq<(Seq<char>, Route)>, left: Seq<char>, right: Seq<char>)
    requires
        same_markers(rules, left, right),
    ensures
        first_route(rules, left) == first_route(rules, right),
{
    if exists|at: int| fires(rules, left, at) {
        let at = choose|at: int| fires(rules, left, at);
        assert(fires(rules, right, at));
        lemma_first_route(rules, left, at);
        lemma_first_route(rules, right, at);
    } else if exists|at: int| fires(rules, right, at) {
        let at = choose|at: int| fires(rules, right, at);
        assert(fires(rules, left, at));
    }
}

/// Nothing but the markers decides: two texts in which the same markers occur
/// are classified alike.
pub proof fn law_markers_decide(left: Seq<char>, right: Seq<char>)
    requires
        same_markers(text_rules(), left, right),
        same_markers(trade_order_rules(), left, right),
        same_markers(contract_market_rules(), left, right),
    ensures
        verdict(left) == verdict(right),
{
    lemma_same_route(text_rules(), left, right);
    lemma_same_route(trade_order_rules(), left, right);
    lemma_same_route(contract_market_rules(), left, right);
}

/// The first marker of the main table that occurs settles where a text goes,
/// whatever later markers it holds; within the two feeds that decide further,
/// the table of the feed settles the kind.
pub proof fn law_first_marker_wins(text: Seq<char>, at: int)
    requires
        fires(text_rules(), text, at),
    ensures
        match text_rules()[at].1 {
            Route::Json(kind) => verdict(text) == Verdict::Json(kind),
            Route::ErrorText => verdict(text) == Verdict::ErrorText,
            Route::TradeOrders => verdict(text) == (match first_route(trade_order_rules(), text) {
                Some(Route::Json(kind)) => Verdict::Json(kind),
                _ => Verdict::UnknownTradeOrder,
            }),
            Route::ContractMarket => verdict(text) == (match first_route(
                contract_market_rules(),
                text,
            ) {
                Some(Route::Json(kind)) => Verdict::Json(kind),
                _ => Verdict::UnknownContractMarket,
            }),
        },
{
    lemma_first_route(text_rules(), text, at);
}

proof fn lemma_some_rule_fires(rules: Seq<(Seq<char>, Route)>, text: Seq<char>, at: int)
    requires
        0 <= at < rules.len(),
        has_text(text, rules[at].0),
    ensures
        exists|first: int| first <= at && fires(rules, text, first),
    decreases at,
{
    if exists|before: int| 0 <= before < at && has_text(text, #[trigger] rules[before].0) {
        let before = choose|before: int|
            0 <= before < at && has_text(text, #[trigger] rules[before].0);
        lemma_some_rule_fires(rules, text, before);
        let first = choose|first: int| first <= before && fires(rules, text, first);
        assert(first <= at && fires(rules, text, first));
    } else {
        assert(at <= at && fires(rules, text, at));
    }
}

/// A text is unknown exactly when no marker of the main table occurs in it.
pub proof fn law_unknown_means_unmarked(text: Seq<char>)
    ensures
        verdict(text) is Unknown <==> (forall|at: int|
            0 <= at < text_rules().len() ==> !has_text(text, #[trigger] text_rules()[at].0)),
{
    let rules = text_rules();
    if exists|at: int| 0 <= at < rules.len() && has_text(text, #[trigger] rules[at].0) {
        let at = choose|at: int| 0 <= at < rules.len() && has_text(text, #[trigger] rules[at].0);
        lemma_some_rule_fires(rules, text, at);
        let first = choose|first: int| first <= at && fires(rules, text, first);
        lemma_first_route(rules, text, first);
    }
}

/// Only a close frame, and a text that no rule places, is refused.
pub proof fn law_refusals(msg: Message)
    ensures
        routed(msg) is Err <==> {
            ||| msg is Close
            ||| msg is Text && {
                ||| verdict(msg->Text_0@) is Unknown
                ||| verdict(msg->Text_0@) is UnknownTradeOrder
                ||| verdict(msg->Text_0@) is UnknownContractMarket
            }
        },
{
}

/// A text that is accepted is handed on whole.
pub proof fn law_text_is_kept(text: String)
    requires
        routed(Message::Text(text)) is Ok,
    ensures
        match routed(Message::Text(text))->Ok_0 {
            MsgView::Json(_, body) => body == text@,
            MsgView::Error(body) => body == text@,
            _ => false,
        },
{
}

/// A body that has to decode comes from the trade order feed and from nowhere
/// else.
pub proof fn law_only_trade_orders_must_decode(text: Seq<char>, kind: MsgKind)
    requires
        verdict(text) == Verdict::Json(kind),
        decode_panic(kind) is Some,
    ensures
        has_text(text, "\"topic\":\"/spotMarket/tradeOrders"@),
{
    let rules = text_rules();
    let at = choose|at: int| fires(rules, text, at);
    assert(fires(rules, text, at));
    assert(rules[at].1 == Route::TradeOrders);
    assert(at == 32);
}

/// A text that contains a whole also contains each of its parts.
proof fn lemma_part_of_part(text: Seq<char>, whole: Seq<char>, part: Seq<char>, offset: int)
    requires
        has_text(text, whole),
        text_at(whole, part, offset),
    ensures
        has_text(text, part),
{
    let at = choose|at: int| text_at(text, whole, at);
    let start = at + offset;
    assert forall|i: int| 0 <= i < part.len() implies text[start + i] == part[i] by {
        assert(text.subrange(at, at + whole.len())[offset + i] == whole[offset + i]);
        assert(whole.subrange(offset, offset + part.len())[i] == part[i]);
    }
    assert(text.subrange(start, start + part.len()) =~= part);
    assert(text_at(text, part, start));
}

/// How a message names the topic it belongs to.
pub open spec fn topic_field(topic: Topic) -> Seq<char> {
    "\"topic\":\""@ + topic.path() + "\""@
}

/// The route that the path of a topic leads to on its own, where it does.
pub open spec fn route_by_path(topic: Topic) -> Option<Route> {
    match topic {
        Topic::AllTicker => Some(Route::Json(MsgKind::AllTickerMsg)),
        Topic::Match(_) => Some(Route::Json(MsgKind::MatchMsg)),
        Topic::IndexPrice(_) => Some(Route::Json(MsgKind::IndexPriceMsg)),
        Topic::MarketPrice(_) => Some(Route::Json(MsgKind::MarketPriceMsg)),
        Topic::OrderBookChange(_) => Some(Route::Json(MsgKind::OrderBookChangeMsg)),
        Topic::Balances => Some(Route::Json(MsgKind::BalancesMsg)),
        Topic::TradeOrders => Some(Route::TradeOrders),
        Topic::TradeOrdersV2 => Some(Route::TradeOrders),
        Topic::FutTicker(_) => Some(Route::ContractMarket),
        _ => None,
    }
}

/// The place in the main table of the marker that the path of a topic holds.
pub open spec fn rule_by_path(topic: Topic) -> int {
    match topic {
        Topic::AllTicker => 5,
        Topic::Match(_) => 8,
        Topic::IndexPrice(_) => 20,
        Topic::MarketPrice(_) => 21,
        Topic::OrderBookChange(_) => 22,
        Topic::Balances => 25,
        Topic::FutTicker(_) => 33,
        _ => 32,
    }
}

proof fn lemma_path_holds_marker(topic: Topic)
    requires
        route_by_path(topic) is Some,
    ensures
        exists|offset: int|
            text_at(topic_field(topic), text_rules()[rule_by_path(topic)].0, offset),
        text_rules()[rule_by_path(topic)].1 == route_by_path(topic)->0,
{
    let field = topic_field(topic);
    let marker = text_rules()[rule_by_path(topic)].0;
    reveal_strlit("\"topic\":\"");
    reveal_strlit("\"");
    let offset: int = match topic {
        Topic::AllTicker => {
            reveal_strlit("/market/ticker:all");
            reveal_strlit("\"topic\":\"/market/ticker:all\"");
            0
        },
        Topic::Match(_) => {
            reveal_strlit("/market/match:");
            9
        },
        Topic::IndexPrice(_) => {
            reveal_strlit("/indicator/index:");
            9
        },
        Topic::MarketPrice(_) => {
            reveal_strlit("/indicator/markPrice:");
            9
        },
        Topic::OrderBookChange(_) => {
            reveal_strlit("/margin/fundingBook:");
            9
        },
        Topic::Balances => {
            reveal_strlit("/account/balance");
            9
        },
        Topic::FutTicker(_) => {
            reveal_strlit("/contractMarket/ticker:");
            reveal_strlit("\"topic\":\"/contractMarket/ticker");
            0
        },
        Topic::TradeOrdersV2 => {
            reveal_strlit("/spotMarket/tradeOrdersV2");
            reveal_strlit("\"topic\":\"/spotMarket/tradeOrders");
            0
        },
        _ => {
            reveal_strlit("/spotMarket/tradeOrders");
            reveal_strlit("\"topic\":\"/spotMarket/tradeOrders");
            0
        },
    };
    assert(field.subrange(offset, offset + marker.len()) =~= marker);
    assert(text_at(field, marker, offset));
}

/// A message that names one of these topics as its own is never unknown, and takes
/// the route of the topic unless a marker earlier in the table occurs in it. In
/// particular, both trade order feeds take the same route.
pub proof fn law_topics_find_their_route(topic: Topic, text: Seq<char>)
    requires
        route_by_path(topic) is Some,
        has_text(text, topic_field(topic)),
    ensures
        verdict(text) !is Unknown,
        (forall|before: int|
            0 <= before < rule_by_path(topic) ==> !has_text(
                text,
                #[trigger] text_rules()[before].0,
            )) ==> first_route(text_rules(), text) == route_by_path(topic),
{
    let rules = text_rules();
    let at = rule_by_path(topic);
    lemma_path_holds_marker(topic);
    let offset = choose|offset: int| text_at(topic_field(topic), rules[at].0, offset);
    lemma_part_of_part(text, topic_field(topic), rules[at].0, offset);
    lemma_some_rule_fires(rules, text, at);
    let first = choose|first: int| first <= at && fires(rules, text, first);
    lemma_first_route(rules, text, first);
}

/// The two margin feeds are asked for in the same way, and so are the two private
/// order feeds over the same symbols; the public order feed differs from the
/// private one in the channel alone.
pub proof fn law_shared_channels(symbols: Seq<Seq<char>>)
    ensures
        Topic::DebtRatio.path() == Topic::PositionChange.path(),
        Topic::DebtRatio.is_private() == Topic::PositionChange.is_private(),
        Topic::StopOrder(symbols).path() == Topic::Level3Private(symbols).path(),
        Topic::StopOrder(symbols).is_private() == Topic::Level3Private(symbols).is_private(),
        Topic::Level3Public(symbols).path() == Topic::Level3Private(symbols).path(),
        Topic::Level3Public(symbols).is_private() != Topic::Level3Private(symbols).is_private(),
{
}

/// Two times never share an id.
pub proof fn law_ids_tell_times_apart(left: nat, right: nat)
    requires
        decimal(left) == decimal(right),
    ensures
        left == right,
    decreases left,
{
    if left < 10 && right < 10 {
        assert(decimal(left)[0] == digit_char(left));
        assert(decimal(right)[0] == digit_char(right));
    } else if left < 10 {
        lemma_numeral_not_empty(right / 10);
        assert(decimal(left).len() == 1 && decimal(right).len() > 1);
    } else if right < 10 {
        lemma_numeral_not_empty(left / 10);
        assert(decimal(right).len() == 1 && decimal(left).len() > 1);
    } else {
        assert(decimal(left).last() == digit_char(left % 10));
        assert(decimal(right).last() == digit_char(right % 10));
        assert(decimal(left).drop_last() =~= decimal(left / 10));
        assert(decimal(right).drop_last() =~= decimal(right / 10));
        law_ids_tell_times_apart(left / 10, right / 10);
    }
}

proof fn lemma_numeral_not_empty(number: nat)
    ensures
        decimal(number).len() > 0,
{
}

/// The course after so many successes.
pub open spec fn after_successes(course: Course, successes: nat) -> Course
    decreases successes,
{
    if successes == 0 {
        course
    } else {
        after_successes(course, (successes - 1) as nat).after(Ok(()))
    }
}

/// A subscription that meets no failure asks for each topic once, in order, and
/// then stores the stream; it never asks for anything else, and never leaves
/// its endpoint or topics.
pub proof fn law_requests_in_order(start: Course, successes: nat, action: SubscribeAction)
    requires
        start.sent == 0,
        after_successes(start, successes).calls_for(Ok(()), action),
    ensures
        after_successes(start, successes).endpoint == start.endpoint,
        after_successes(start, successes).topics == start.topics,
        successes < start.topics.len() ==> action is Send && action->Send_0.asks_for(
            start.topics[successes as int],
        ),
        successes >= start.topics.len() ==> action is Store,
{
    lemma_sent(start, successes);
}

proof fn lemma_sent(start: Course, successes: nat)
    requires
        start.sent == 0,
    ensures
        after_successes(start, successes).endpoint == start.endpoint,
        after_successes(start, successes).topics == start.topics,
        after_successes(start, successes).sent == (if successes < start.topics.len() {
            successes
        } else {
            start.topics.len()
        }),
    decreases successes,
{
    if successes > 0 {
        lemma_sent(start, (successes - 1) as nat);
    }
}

/// A failure ends the subscription with that very failure, wherever it comes,
/// and nothing more is sent.
pub proof fn law_failure_is_passed_on(
    course: Course,
    error: tokio_tungstenite::tungstenite::Error,
    action: SubscribeAction,
)
    requires
        course.calls_for(Err(error), action),
    ensures
        action == SubscribeAction::Fail(APIError::Websocket(error)),
        course.after(Err(error)) == course,
{
}

/// The heartbeat ends when the websocket fails, and only then.
pub proof fn law_heartbeat_ends_with_the_socket(event: HeartbeatEvent, action: HeartbeatAction)
    requires
        beats(event, action),
    ensures
        action is Stop <==> event is Sent && event->Sent_0 is Err
            && event->Sent_0->Err_0 is Websocket,
{
}

/// Storing a stream keeps the records consistent, and no topic and no token ever
/// leaves them.
pub proof fn law_store_keeps_records(
    state: SocketState,
    topic: Topic,
    token: usize,
    stream: StoredStream,
)
    requires
        state.valid(),
    ensures
        state.stored(topic, token, stream).valid(),
        state.subscriptions.dom().subset_of(
            state.stored(topic, token, stream).subscriptions.dom(),
        ),
        state.tokens.dom().subset_of(state.stored(topic, token, stream).tokens.dom()),
{
    let after = state.stored(topic, token, stream);
    assert forall|other: Topic| #[trigger]
        after.subscriptions.contains_key(other) implies after.tokens.contains_key(
        after.subscriptions[other],
    ) by {
        if other != topic {
            assert(state.subscriptions.contains_key(other));
        }
    }
    assert forall|other: usize| #[trigger]
        after.tokens.contains_key(other) implies after.subscriptions.contains_key(
        after.tokens[other],
    ) by {
        if other != token {
            assert(state.tokens.contains_key(other));
        }
    }
}

/// Taking a stream out keeps the records as they are.
pub proof fn law_release_keeps_records(state: SocketState, topic: Topic)
    requires
        state.valid(),
    ensures
        state.released(topic).valid(),
        state.released(topic).subscriptions == state.subscriptions,
        state.released(topic).tokens == state.tokens,
{
}

/// At first there is no topic, no token and no stream.
pub proof fn law_empty_at_first(topic: Topic, token: usize)
    ensures
        !SocketState::empty().subscriptions.contains_key(topic),
        !SocketState::empty().tokens.contains_key(token),
        !SocketState::empty().streams.contains_key(token),
{
}

/// Storing a stream sets the one entry of the topic and the entries of the token,
/// and leaves every other entry as it is.
pub proof fn law_store_sets_one_entry(
    state: SocketState,
    topic: Topic,
    token: usize,
    stream: StoredStream,
    other_topic: Topic,
    other_token: usize,
)
    requires
        other_topic != topic,
        other_token != token,
    ensures
        ({
            let after = state.stored(topic, token, stream);
            &&& after.subscriptions.contains_key(topic)
            &&& after.subscriptions[topic] == token
            &&& after.tokens.contains_key(token)
            &&& after.tokens[token] == topic
            &&& after.streams.contains_key(token)
            &&& after.streams[token] == stream
            &&& after.subscriptions.contains_key(other_topic)
                == state.subscriptions.contains_key(other_topic)
            &&& after.subscriptions[other_topic] == state.subscriptions[other_topic]
            &&& after.tokens.contains_key(other_token) == state.tokens.contains_key(other_token)
            &&& after.tokens[other_token] == state.tokens[other_token]
            &&& after.streams.contains_key(other_token) == state.streams.contains_key(other_token)
            &&& after.streams[other_token] == state.streams[other_token]
        }),
{
}

/// Unsubscribing finds a stream exactly when one is open under the token that the
/// topic was last given; that stream leaves, and no other does.
pub proof fn law_unsubscribe_takes_one_stream(
    state: SocketState,
    topic: Topic,
    token: usize,
    stream: StoredStream,
)
    ensures
        state.stream_of(topic) == Some(stream) <==> state.subscriptions.contains_key(topic)
            && state.streams.contains_key(state.subscriptions[topic])
            && state.streams[state.subscriptions[topic]] == stream,
        state.released(topic).streams.contains_key(token) <==> state.streams.contains_key(token)
            && !(state.subscriptions.contains_key(topic) && state.subscriptions[topic] == token),
        state.released(topic).streams.contains_key(token)
            ==> state.released(topic).streams[token] == state.streams[token],
{
}

/// A topic keeps its token when its stream is taken out. Where the token is given
/// out again, the topic finds the stream that was stored under it for the other
/// topic.
pub proof fn law_reused_token_serves_both(
    state: SocketState,
    topic: Topic,
    other: Topic,
    token: usize,
    first: StoredStream,
    second: StoredStream,
)
    requires
        topic != other,
    ensures
        ({
            let after = state.stored(topic, token, first).released(topic).stored(
                other,
                token,
                second,
            );
            after.stream_of(topic) == Some(second) && after.stream_of(other) == Some(second)
        }),
{
}

/// Unsubscribing gives back the stream that was stored last for the topic, and
/// leaves the streams that were there before.
pub proof fn law_unsubscribe_undoes_store(
    state: SocketState,
    topic: Topic,
    token: usize,
    stream: StoredStream,
)
    requires
        !state.streams.contains_key(token),
    ensures
        state.stored(topic, token, stream).stream_of(topic) == Some(stream),
        state.stored(topic, token, stream).released(topic).streams == state.streams,
{
    assert(state.stored(topic, token, stream).released(topic).streams =~= state.streams);
}

/// A second unsubscribe finds nothing and changes nothing.
pub proof fn law_unsubscribe_once(state: SocketState, topic: Topic)
    ensures
        state.released(topic).stream_of(topic) is None,
        state.released(topic).released(topic) == state.released(topic),
{
}

/// Unsubscribing from a topic that was never stored finds nothing and changes
/// nothing.
pub proof fn law_unknown_topic_is_no_op(state: SocketState, topic: Topic)
    requires
        !state.subscriptions.contains_key(topic),
    ensures
        state.stream_of(topic) is None,
        state.released(topic) == state,
{
}

/// Storing a stream for one topic leaves every other topic its stream. The one
/// exception is a topic whose own stream is gone and whose old token is the
/// one now given out again.
pub proof fn law_store_leaves_others(
    state: SocketState,
    topic: Topic,
    token: usize,
    stream: StoredStream,
    other: Topic,
)
    requires
        other != topic,
        !state.streams.contains_key(token),
        !(state.subscriptions.contains_key(other) && state.subscriptions[other] == token
            && !state.has_stream(other)),
    ensures
        state.stored(topic, token, stream).stream_of(other) == state.stream_of(other),
{
}

/// Unsubscribing from one topic leaves every topic with another token its
/// stream.
pub proof fn law_release_leaves_others(state: SocketState, topic: Topic, other: Topic)
    requires
        !(state.subscriptions.contains_key(topic) && state.subscriptions.contains_key(other)
            && state.subscriptions[topic] == state.subscriptions[other]),
    ensures
        state.released(topic).stream_of(other) == state.stream_of(other),
{
}

/// Storing a second stream for a topic puts it in the place of the first, which
/// stays open but is no longer reached by the topic.
pub proof fn law_second_store_hides_first(
    state: SocketState,
    topic: Topic,
    first: usize,
    older: StoredStream,
    second: usize,
    newer: StoredStream,
)
    requires
        !state.streams.contains_key(first),
        !state.stored(topic, first, older).streams.contains_key(second),
    ensures
        ({
            let after = state.stored(topic, first, older).stored(topic, second, newer);
            &&& after.stream_of(topic) == Some(newer)
            &&& after.streams.contains_key(first)
            &&& after.streams[first] == older
            &&& after.released(topic).stream_of(topic) is None
            &&& after.released(topic).streams[first] == older
        }),
{
}

/// There is a socket endpoint exactly when the reply has data and neither the
/// endpoint of its first server nor its token is empty.
pub proof fn law_endpoint_needs_server_and_token(
    resp: APIDatum<InstanceServers>,
    timestamp: nat,
)
    requires
        resp.data is Some ==> resp.data->0.instance_servers.len() > 0,
    ensures
        endpoint_of(resp, timestamp) is Ok <==> {
            &&& resp.data is Some
            &&& resp.data->0.instance_servers[0].endpoint@.len() > 0
            &&& resp.data->0.token@.len() > 0
        },
{
}

} // verus!
