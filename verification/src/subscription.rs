//! The course of a subscription: connect, send one request for each topic,
//! then hand over the stream.
use crate::clock::is_time_numeral;
use crate::error::APIError;
use crate::text::is_numeral;
use crate::topic::{Subscribe, Topic, WSTopic};
use vstd::prelude::*;

verus! {

/// The normalised text of the URL that `url` parses to, if it parses.
pub uninterp spec fn parsed_url(url: Seq<char>) -> Option<Seq<char>>;

/// Calls `url::Url::parse` and turns the URL into its text. The contract names
/// the outcome [`parsed_url`]: whether the text parses, and what it normalises
/// to, is settled by the text alone.
#[verifier::external_body]
pub(crate) fn parse_url(url: &str) -> (endpoint: Option<String>)
    ensures
        endpoint is Some == parsed_url(url@) is Some,
        endpoint is Some ==> endpoint->0@ == parsed_url(url@)->0,
{
    match url::Url::parse(url) {
        Ok(endpoint) => Some(String::from(endpoint)),
        Err(_) => None,
    }
}

/// A subscription that is under way.
pub struct Subscription {
    endpoint: String,
    topics: Vec<WSTopic>,
    sent: usize,
}

/// A subscription that is under way, over sequences.
#[verifier::ext_equal]
pub ghost struct Course {
    /// Where to connect.
    pub endpoint: Seq<char>,
    /// The topics to ask for, in order.
    pub topics: Seq<Topic>,
    /// How many topics were asked for so far.
    pub sent: nat,
}

/// What to do next.
pub enum SubscribeAction {
    /// Send this request.
    Send(Subscribe),
    /// All requests are out: start the heartbeat and store the stream.
    Store,
    /// Give up with this error.
    Fail(APIError),
}

impl View for Subscription {
    type V = Course;

    closed spec fn view(&self) -> Course {
        Course {
            endpoint: self.endpoint@,
            topics: topic_views(self.topics@),
            sent: self.sent as nat,
        }
    }
}

/// The views of some topics, in order.
pub open spec fn topic_views(topics: Seq<WSTopic>) -> Seq<Topic> {
    topics.map_values(|topic: WSTopic| topic@)
}

impl Course {
    /// The course after the next request.
    pub open spec fn advanced(self) -> Course {
        Course { sent: self.sent + 1, ..self }
    }

    /// The action that `outcome`, of connecting or of the last request, calls
    /// for.
    pub open spec fn calls_for(
        self,
        outcome: Result<(), tokio_tungstenite::tungstenite::Error>,
        action: SubscribeAction,
    ) -> bool {
        match outcome {
            Err(error) => action == SubscribeAction::Fail(APIError::Websocket(error)),
            Ok(_) => if self.sent < self.topics.len() {
                &&& action is Send
                &&& action->Send_0.asks_for(self.topics[self.sent as int])
                &&& is_numeral(action->Send_0.id@)
                &&& is_time_numeral(action->Send_0.id@)
            } else {
                action is Store
            },
        }
    }

    /// The course after `outcome`.
    pub open spec fn after(
        self,
        outcome: Result<(), tokio_tungstenite::tungstenite::Error>,
    ) -> Course {
        if outcome is Ok && self.sent < self.topics.len() {
            self.advanced()
        } else {
            self
        }
    }
}

impl Subscription {
    /// No more requests were sent than there are topics.
    pub closed spec fn wf(&self) -> bool {
        self.sent <= self.topics.len()
    }

    /// What a subscription keeps.
    pub closed spec fn parts(self) -> (String, Vec<WSTopic>, usize) {
        (self.endpoint, self.topics, self.sent)
    }

    /// A subscription keeps its endpoint, its topics and a count, and nothing
    /// else. So it keeps no time from one step to the next: the time in the id
    /// of a request is read in the step that makes the request.
    pub proof fn law_nothing_else_is_kept(left: Subscription, right: Subscription)
        requires
            ({
                let (endpoint, topics, sent): (String, Vec<WSTopic>, usize) = left.parts();
                right.parts() == (endpoint, topics, sent)
            }),
        ensures
            left == right,
            left@.endpoint == left.parts().0@,
            left@.topics.len() == left.parts().1@.len(),
            forall|at: int|
                0 <= at < left@.topics.len() ==> #[trigger] left@.topics[at]
                    == left.parts().1[at]@,
            left@.sent == left.parts().2,
    {
    }

    /// Begins a subscription for the topics at the text of a parsed URL, or
    /// refuses where the URL did not parse.
    pub fn begin(endpoint: Option<String>, topics: Vec<WSTopic>) -> (begun: Result<
        Subscription,
        APIError,
    >)
        ensures
            match endpoint {
                Some(text) => {
                    &&& begun is Ok
                    &&& begun->Ok_0.wf()
                    &&& begun->Ok_0@ == (Course {
                        endpoint: text@,
                        topics: topic_views(topics@),
                        sent: 0,
                    })
                },
                None => begun is Err && begun->Err_0.says("invalid url"@),
            },
    {
        match endpoint {
            Some(endpoint) => Ok(Subscription { endpoint, topics, sent: 0 }),
            None => Err(APIError::Other(String::from_str("invalid url"))),
        }
    }

    /// Where to connect.
    pub fn endpoint(&self) -> (endpoint: &str)
        ensures
            endpoint@ == self@.endpoint,
    {
        self.endpoint.as_str()
    }

    /// The topics, to be stored with the stream.
    pub fn into_topics(self) -> (topics: Vec<WSTopic>)
        ensures
            topic_views(topics@) == self@.topics,
    {
        self.topics
    }

    /// Takes the outcome of connecting or of the last request and says what to
    /// do next.
    pub fn step(
        &mut self,
        outcome: Result<(), tokio_tungstenite::tungstenite::Error>,
    ) -> (action: SubscribeAction)
        requires
            old(self).wf(),
        ensures
            final(self).wf(),
            old(self)@.calls_for(outcome, action),
            final(self)@ == old(self)@.after(outcome),
    {
        match outcome {
            Err(error) => SubscribeAction::Fail(APIError::Websocket(error)),
            Ok(_) => {
                if self.sent < self.topics.len() {
                    let request = Subscribe::new(&self.topics[self.sent]);
                    self.sent = self.sent + 1;
                    SubscribeAction::Send(request)
                } else {
                    SubscribeAction::Store
                }
            },
        }
    }
}

} // verus!
