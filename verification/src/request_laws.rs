//! What holds of the texts that go out: numerals, joined lists, requests and URLs.
use crate::client::{bullet_path, endpoint_of, APIDatum, BulletRequest, InstanceServers};
use crate::clock::{is_clock_time, is_time_numeral};
use crate::error::APIError;
use crate::heartbeat::{beats, HeartbeatAction, HeartbeatEvent};
use crate::laws::law_ids_tell_times_apart;
use crate::subscription::{topic_views, Course, SubscribeAction};
use crate::text::{decimal, digit_char, joined};
use crate::topic::{Subscribe, WSTopic, WSType};
use vstd::prelude::*;

verus! {

/// An error says some words exactly when it carries them.
pub proof fn law_error_words(error: APIError, text: Seq<char>)
    ensures
        error.says(text) <==> (error matches APIError::Other(words) && words@ == text),
{
}

/// The number that a row of decimal digits stands for.
pub open spec fn number_of(text: Seq<char>) -> int
    decreases text.len(),
{
    if text.len() == 0 {
        0
    } else {
        number_of(text.drop_last()) * 10 + (text.last() as int - '0' as int)
    }
}

/// A numeral is read back as its number: it consists of digits, it does not begin
/// with a zero unless it is the zero, and its digits stand for the number.
pub proof fn law_numerals_read_back(number: nat)
    ensures
        decimal(number).len() > 0,
        forall|at: int| 0 <= at < decimal(number).len() ==> '0' <= #[trigger] decimal(number)[at] <= '9',
        decimal(number)[0] == '0' <==> number == 0,
        number_of(decimal(number)) == number,
    decreases number,
{
    let text = decimal(number);
    if number < 10 {
        assert(text.drop_last() =~= Seq::<char>::empty());
        assert(text.last() == digit_char(number));
        assert(number_of(text.drop_last()) == 0);
    } else {
        law_numerals_read_back(number / 10);
        assert(text.drop_last() =~= decimal(number / 10));
        assert(text.last() == digit_char(number % 10));
        assert(text[0] == decimal(number / 10)[0]);
    }
}

/// A list without items joins to nothing, and a list of one item to the item.
pub proof fn law_join_of_few(item: Seq<char>, separator: Seq<char>)
    ensures
        joined(Seq::empty(), separator) == Seq::<char>::empty(),
        joined(seq![item], separator) == item,
{
}

/// The separator stands between every two neighbours: two lists joined in one go
/// are the first joined, the separator, and the second joined.
pub proof fn law_join_of_parts(left: Seq<Seq<char>>, right: Seq<Seq<char>>, separator: Seq<char>)
    requires
        left.len() > 0,
        right.len() > 0,
    ensures
        joined(left + right, separator) == joined(left, separator) + separator + joined(
            right,
            separator,
        ),
    decreases right.len(),
{
    let whole = left + right;
    assert(whole.last() == right.last());
    if right.len() == 1 {
        assert(whole.drop_last() =~= left);
    } else {
        law_join_of_parts(left, right.drop_last(), separator);
        assert(whole.drop_last() =~= left + right.drop_last());
        assert(joined(whole, separator) =~= joined(left, separator) + separator + joined(
            right,
            separator,
        ));
    }
}

/// The pieces of a text between the marks.
pub open spec fn split_at(text: Seq<char>, mark: char) -> Seq<Seq<char>>
    decreases text.len(),
{
    if text.len() == 0 {
        seq![Seq::empty()]
    } else {
        let before = split_at(text.drop_last(), mark);
        if text.last() == mark {
            before.push(Seq::empty())
        } else {
            before.drop_last().push(before.last().push(text.last()))
        }
    }
}

/// None of the texts holds the mark.
pub open spec fn free_of(items: Seq<Seq<char>>, mark: char) -> bool {
    forall|at: int| 0 <= at < items.len() ==> !(#[trigger] items[at]).contains(mark)
}

proof fn lemma_split_not_empty(text: Seq<char>, mark: char)
    ensures
        split_at(text, mark).len() > 0,
    decreases text.len(),
{
    if text.len() > 0 {
        lemma_split_not_empty(text.drop_last(), mark);
    }
}

proof fn lemma_split_extended(text: Seq<char>, part: Seq<char>, mark: char)
    requires
        !part.contains(mark),
    ensures
        split_at(text + part, mark) == split_at(text, mark).drop_last().push(
            split_at(text, mark).last() + part,
        ),
    decreases part.len(),
{
    lemma_split_not_empty(text, mark);
    let before = split_at(text, mark);
    if part.len() == 0 {
        assert(text + part =~= text);
        assert(before.last() + part =~= before.last());
        assert(before.drop_last().push(before.last()) =~= before);
    } else {
        let shorter = part.drop_last();
        assert forall|c: char| shorter.contains(c) implies part.contains(c) by {
            let at = choose|at: int| 0 <= at < shorter.len() && shorter[at] == c;
            assert(part[at] == c);
        }
        lemma_split_extended(text, shorter, mark);
        assert((text + part).drop_last() =~= text + shorter);
        assert((text + part).last() == part.last());
        assert(part[part.len() - 1] == part.last());
        assert((before.last() + shorter).push(part.last()) =~= before.last() + part);
        assert(split_at(text + shorter, mark).drop_last() =~= before.drop_last());
    }
}

/// What was joined can be read back: items that do not hold the separator are the
/// pieces of the joined text.
pub proof fn law_join_reads_back(items: Seq<Seq<char>>, mark: char)
    requires
        items.len() > 0,
        free_of(items, mark),
    ensures
        split_at(joined(items, seq![mark]), mark) == items,
    decreases items.len(),
{
    let last = items.last();
    assert(!items[items.len() - 1].contains(mark));
    if items.len() == 1 {
        lemma_split_extended(Seq::empty(), last, mark);
        assert(Seq::<char>::empty() + last =~= last);
        assert(split_at(last, mark) =~= items);
    } else {
        let shorter = items.drop_last();
        assert forall|at: int| 0 <= at < shorter.len() implies !(#[trigger] shorter[at]).contains(
            mark,
        ) by {
            assert(shorter[at] == items[at]);
        }
        law_join_reads_back(shorter, mark);
        let start = joined(shorter, seq![mark]);
        let marked = start + seq![mark];
        assert(marked.drop_last() =~= start);
        assert(split_at(marked, mark) == shorter.push(Seq::empty()));
        lemma_split_extended(marked, last, mark);
        assert(Seq::<char>::empty() + last =~= last);
        assert(shorter.push(Seq::<char>::empty()).drop_last() =~= shorter);
        assert(shorter.push(last) =~= items);
    }
}

/// The path is the prefix with the symbols behind it, a comma between every two.
pub open spec fn lists(path: Seq<char>, prefix: Seq<char>, symbols: Seq<Seq<char>>) -> bool {
    let rest = path.skip(prefix.len() as int);
    &&& path.len() >= prefix.len()
    &&& path.take(prefix.len() as int) == prefix
    &&& symbols.len() == 0 ==> rest.len() == 0
    &&& symbols.len() == 1 ==> rest == symbols[0]
    &&& forall|count: int|
        0 < count < symbols.len() ==> rest == joined(#[trigger] symbols.take(count), ","@) + ","@
            + joined(symbols.skip(count), ","@)
    &&& symbols.len() > 0 && free_of(symbols, ',') ==> split_at(rest, ',') == symbols
}

proof fn lemma_lists(prefix: Seq<char>, symbols: Seq<Seq<char>>)
    ensures
        lists(prefix + joined(symbols, ","@), prefix, symbols),
{
    let path = prefix + joined(symbols, ","@);
    let rest = path.skip(prefix.len() as int);
    assert(rest =~= joined(symbols, ","@));
    assert(path.take(prefix.len() as int) =~= prefix);
    assert forall|count: int| 0 < count < symbols.len() implies rest == joined(
        #[trigger] symbols.take(count),
        ","@,
    ) + ","@ + joined(symbols.skip(count), ","@) by {
        law_join_of_parts(symbols.take(count), symbols.skip(count), ","@);
        assert(symbols.take(count) + symbols.skip(count) =~= symbols);
    }
    reveal_strlit(",");
    assert(","@ =~= seq![',']);
    if symbols.len() > 0 && free_of(symbols, ',') {
        law_join_reads_back(symbols, ',');
    }
}

/// What a request for a topic holds, field by field.
pub proof fn law_requests(topic: WSTopic, request: Subscribe)
    requires
        request.asks_for(topic@),
    ensures
        request.msg_type@ == "subscribe"@,
        request.response,
        request.topic@ == topic@.path(),
        request.private_channel == topic@.is_private(),
        ({
            let path = request.topic@;
            let private = request.private_channel;
            match topic {
                WSTopic::Ticker(symbols) => lists(path, "/market/ticker:"@, symbols.deep_view()) && !private,
                WSTopic::FutTicker(symbols) => lists(path, "/contractMarket/ticker:"@, symbols.deep_view()) && !private,
                WSTopic::AllTicker => path == "/market/ticker:all"@ && !private,
                WSTopic::Snapshot(symbol) => path == "/market/snapshot:"@ + symbol@ && !private,
                WSTopic::OrderBook(symbols) => lists(path, "/market/level2:"@, symbols.deep_view()) && !private,
                WSTopic::OrderBookDepth5(symbols) => lists(path, "/spotMarket/level2Depth5:"@, symbols.deep_view()) && !private,
                WSTopic::OrderBookDepth50(symbols) => lists(path, "/spotMarket/level2Depth50:"@, symbols.deep_view()) && !private,
                WSTopic::Match(symbols) => lists(path, "/market/match:"@, symbols.deep_view()) && !private,
                WSTopic::FullMatch(symbols) => lists(path, "/spotMarket/level3:"@, symbols.deep_view()) && !private,
                WSTopic::Level3Public(symbols) => lists(path, "/market/level3:"@, symbols.deep_view()) && !private,
                WSTopic::Level3Private(symbols) => lists(path, "/market/level3:"@, symbols.deep_view()) && private,
                WSTopic::IndexPrice(symbols) => lists(path, "/indicator/index:"@, symbols.deep_view()) && !private,
                WSTopic::MarketPrice(symbols) => lists(path, "/indicator/markPrice:"@, symbols.deep_view()) && !private,
                WSTopic::OrderBookChange(symbols) => lists(path, "/margin/fundingBook:"@, symbols.deep_view()) && !private,
                WSTopic::StopOrder(symbols) => lists(path, "/market/level3:"@, symbols.deep_view()) && private,
                WSTopic::Balances => path == "/account/balance"@ && private,
                WSTopic::DebtRatio => path == "/margin/position"@ && private,
                WSTopic::PositionChange => path == "/margin/position"@ && private,
                WSTopic::MarginTradeOrder(symbol) => path == "/margin/loan:"@ + symbol@ && private,
                WSTopic::TradeOrders => path == "/spotMarket/tradeOrders"@ && private,
                WSTopic::TradeOrdersV2 => path == "/spotMarket/tradeOrdersV2"@ && private,
            }
        }),
{
    match topic {
        WSTopic::Ticker(symbols) => lemma_lists("/market/ticker:"@, symbols.deep_view()),
        WSTopic::FutTicker(symbols) => lemma_lists("/contractMarket/ticker:"@, symbols.deep_view()),
        WSTopic::OrderBook(symbols) => lemma_lists("/market/level2:"@, symbols.deep_view()),
        WSTopic::OrderBookDepth5(symbols) => lemma_lists("/spotMarket/level2Depth5:"@, symbols.deep_view()),
        WSTopic::OrderBookDepth50(symbols) => lemma_lists("/spotMarket/level2Depth50:"@, symbols.deep_view()),
        WSTopic::Match(symbols) => lemma_lists("/market/match:"@, symbols.deep_view()),
        WSTopic::FullMatch(symbols) => lemma_lists("/spotMarket/level3:"@, symbols.deep_view()),
        WSTopic::Level3Public(symbols) => lemma_lists("/market/level3:"@, symbols.deep_view()),
        WSTopic::Level3Private(symbols) => lemma_lists("/market/level3:"@, symbols.deep_view()),
        WSTopic::IndexPrice(symbols) => lemma_lists("/indicator/index:"@, symbols.deep_view()),
        WSTopic::MarketPrice(symbols) => lemma_lists("/indicator/markPrice:"@, symbols.deep_view()),
        WSTopic::OrderBookChange(symbols) => lemma_lists("/margin/fundingBook:"@, symbols.deep_view()),
        WSTopic::StopOrder(symbols) => lemma_lists("/market/level3:"@, symbols.deep_view()),
        _ => {},
    }
}

/// Two topics are the same exactly when they are of one sort and have the same
/// symbols in the same order.
pub proof fn law_topics_told_apart(left: WSTopic, right: WSTopic)
    ensures
        left@ == right@ <==> {
            match (left, right) {
                (WSTopic::Ticker(one), WSTopic::Ticker(two)) => one.deep_view() == two.deep_view(),
                (WSTopic::FutTicker(one), WSTopic::FutTicker(two)) => one.deep_view() == two.deep_view(),
                (WSTopic::AllTicker, WSTopic::AllTicker) => true,
                (WSTopic::Snapshot(one), WSTopic::Snapshot(two)) => one@ == two@,
                (WSTopic::OrderBook(one), WSTopic::OrderBook(two)) => one.deep_view() == two.deep_view(),
                (WSTopic::OrderBookDepth5(one), WSTopic::OrderBookDepth5(two)) => one.deep_view() == two.deep_view(),
                (WSTopic::OrderBookDepth50(one), WSTopic::OrderBookDepth50(two)) => one.deep_view() == two.deep_view(),
                (WSTopic::Match(one), WSTopic::Match(two)) => one.deep_view() == two.deep_view(),
                (WSTopic::FullMatch(one), WSTopic::FullMatch(two)) => one.deep_view() == two.deep_view(),
                (WSTopic::Level3Public(one), WSTopic::Level3Public(two)) => one.deep_view() == two.deep_view(),
                (WSTopic::Level3Private(one), WSTopic::Level3Private(two)) => one.deep_view() == two.deep_view(),
                (WSTopic::IndexPrice(one), WSTopic::IndexPrice(two)) => one.deep_view() == two.deep_view(),
                (WSTopic::MarketPrice(one), WSTopic::MarketPrice(two)) => one.deep_view() == two.deep_view(),
                (WSTopic::OrderBookChange(one), WSTopic::OrderBookChange(two)) => one.deep_view() == two.deep_view(),
                (WSTopic::StopOrder(one), WSTopic::StopOrder(two)) => one.deep_view() == two.deep_view(),
                (WSTopic::Balances, WSTopic::Balances) => true,
                (WSTopic::DebtRatio, WSTopic::DebtRatio) => true,
                (WSTopic::PositionChange, WSTopic::PositionChange) => true,
                (WSTopic::MarginTradeOrder(one), WSTopic::MarginTradeOrder(two)) => one@ == two@,
                (WSTopic::TradeOrders, WSTopic::TradeOrders) => true,
                (WSTopic::TradeOrdersV2, WSTopic::TradeOrdersV2) => true,
                _ => false,
            }
        },
{
}

/// The topics of a subscription are the topics given, one for one and in order.
pub proof fn law_topics_in_order(topics: Seq<WSTopic>)
    ensures
        topic_views(topics).len() == topics.len(),
        forall|at: int|
            0 <= at < topics.len() ==> #[trigger] topic_views(topics)[at] == topics[at]@,
{
}

/// The id of a request is read back as a time that the clock gave.
pub proof fn law_request_ids_are_times(course: Course, action: SubscribeAction)
    requires
        course.calls_for(Ok(()), action),
        action is Send,
    ensures
        exists|time: u128| #[trigger]
            is_clock_time(time) && number_of(action->Send_0.id@) == time && action->Send_0.id@
                == decimal(time as nat),
{
    lemma_time_numeral(action->Send_0.id@);
}

proof fn lemma_time_numeral(text: Seq<char>)
    requires
        is_time_numeral(text),
    ensures
        exists|time: u128| #[trigger]
            is_clock_time(time) && number_of(text) == time && text == decimal(time as nat),
{
    let time = choose|time: u128| #[trigger] is_clock_time(time) && text == decimal(time as nat);
    law_numerals_read_back(time as nat);
    assert(is_clock_time(time));
}

/// The heartbeat sleeps thirty seconds, sends a ping whose id is a time that the
/// clock gave, and so on, until the websocket fails.
pub proof fn law_heartbeat(event: HeartbeatEvent, action: HeartbeatAction)
    requires
        beats(event, action),
    ensures
        event is Started ==> action == HeartbeatAction::Sleep(30),
        event is Woke ==> {
            &&& action is Send
            &&& action->Send_0.msg_type@ == "ping"@
            &&& exists|time: u128| #[trigger]
                is_clock_time(time) && number_of(action->Send_0.id@) == time
        },
        event matches HeartbeatEvent::Sent(sent) ==> match sent {
            Err(APIError::Websocket(_)) => action is Stop,
            _ => action == HeartbeatAction::Sleep(30),
        },
{
    if event is Woke {
        lemma_time_numeral(action->Send_0.id@);
    }
}

/// A token request goes to the path of its service under the prefix, and signs
/// that path.
pub proof fn law_token_requests(request: BulletRequest, prefix: Seq<char>, ws_type: WSType)
    requires
        request.goes_to(prefix, bullet_path(ws_type)),
    ensures
        ws_type is Private ==> request.endpoint@ == "/api/v1/bullet-private"@,
        ws_type is Public ==> request.endpoint@ == "/api/v1/bullet-public"@,
        request.url@.len() == prefix.len() + request.endpoint@.len(),
        request.url@.take(prefix.len() as int) == prefix,
        request.url@.skip(prefix.len() as int) == request.endpoint@,
{
    assert(request.url@.take(prefix.len() as int) =~= prefix);
    assert(request.url@.skip(prefix.len() as int) =~= request.endpoint@);
}

/// A socket URL holds the endpoint, the token and the time as they came, each in
/// its place: they are cut out of it unchanged.
pub proof fn law_socket_url_parts(resp: APIDatum<InstanceServers>, timestamp: nat)
    requires
        endpoint_of(resp, timestamp) is Ok,
    ensures
        resp.data is Some,
        ({
            let url = endpoint_of(resp, timestamp)->Ok_0;
            let endpoint = resp.data->0.instance_servers[0].endpoint@;
            let token = resp.data->0.token@;
            let id = decimal(timestamp);
            let token_from: int = endpoint.len() as int + 7;
            let id_from: int = token_from + token.len() + 12;
            &&& url.len() == id_from + id.len() + 26
            &&& url.subrange(0, endpoint.len() as int) == endpoint
            &&& url.subrange(endpoint.len() as int, token_from) == "?token="@
            &&& url.subrange(token_from, token_from + token.len()) == token
            &&& url.subrange(token_from + token.len(), id_from) == "&[connectId="@
            &&& url.subrange(id_from, id_from + id.len()) == id
            &&& url.subrange(id_from + id.len(), url.len() as int)
                == "]?acceptUserMessage=\"true\""@
        }),
{
    let url = endpoint_of(resp, timestamp)->Ok_0;
    let endpoint = resp.data->0.instance_servers[0].endpoint@;
    let token = resp.data->0.token@;
    let id = decimal(timestamp);
    reveal_strlit("?token=");
    reveal_strlit("&[connectId=");
    reveal_strlit("]?acceptUserMessage=\"true\"");
    let token_from: int = endpoint.len() as int + 7;
    let id_from: int = token_from + token.len() + 12;
    assert(url.subrange(0, endpoint.len() as int) =~= endpoint);
    assert(url.subrange(endpoint.len() as int, token_from) =~= "?token="@);
    assert(url.subrange(token_from, token_from + token.len()) =~= token);
    assert(url.subrange(token_from + token.len(), id_from) =~= "&[connectId="@);
    assert(url.subrange(id_from, id_from + id.len()) =~= id);
    assert(url.subrange(id_from + id.len(), url.len() as int)
        =~= "]?acceptUserMessage=\"true\""@);
}

/// Replies that name the same server give the same URL at the same time only if
/// their tokens are the same.
pub proof fn law_tokens_told_apart(
    left: APIDatum<InstanceServers>,
    right: APIDatum<InstanceServers>,
    timestamp: nat,
)
    requires
        endpoint_of(left, timestamp) is Ok,
        endpoint_of(left, timestamp) == endpoint_of(right, timestamp),
        left.data->0.instance_servers[0].endpoint@ == right.data->0.instance_servers[0].endpoint@,
    ensures
        left.data->0.token@ == right.data->0.token@,
{
    law_socket_url_parts(left, timestamp);
    law_socket_url_parts(right, timestamp);
}

/// A reply with the same server and token gives another URL at another time.
pub proof fn law_times_told_apart(resp: APIDatum<InstanceServers>, left: nat, right: nat)
    requires
        endpoint_of(resp, left) is Ok,
        endpoint_of(resp, left) == endpoint_of(resp, right),
    ensures
        left == right,
{
    law_socket_url_parts(resp, left);
    law_socket_url_parts(resp, right);
    law_ids_tell_times_apart(left, right);
}

/// A reply that gives no URL is refused with its own words where it has no data,
/// and for what is missing where it has.
pub proof fn law_endpoint_refusals(resp: APIDatum<InstanceServers>, timestamp: nat)
    requires
        endpoint_of(resp, timestamp) is Err,
    ensures
        ({
            let words = endpoint_of(resp, timestamp)->Err_0;
            if resp.data is Some {
                &&& words == "Missing endpoint/token"@
                &&& resp.data->0.instance_servers[0].endpoint@.len() == 0
                    || resp.data->0.token@.len() == 0
            } else if resp.msg is Some {
                words == resp.msg->0@
            } else {
                words == "no data or message"@
            }
        }),
{
}

} // verus!
