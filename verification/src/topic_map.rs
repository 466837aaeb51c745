//! A map from topics to stream tokens.
use crate::topic::{Topic, WSTopic};
use vstd::prelude::*;

verus! {

/// A map from topics to tokens, kept as a list in which no topic occurs twice.
pub struct TopicMap {
    entries: Vec<(WSTopic, usize)>,
}

impl View for TopicMap {
    type V = Map<Topic, usize>;

    closed spec fn view(&self) -> Map<Topic, usize> {
        Map::new(
            |topic: Topic| exists|at: int| self.lists(topic, at),
            |topic: Topic| self.entries[choose|at: int| self.lists(topic, at)].1,
        )
    }
}

impl TopicMap {
    /// The entry at `at` is for `topic`.
    spec fn lists(&self, topic: Topic, at: int) -> bool {
        0 <= at < self.entries.len() && self.entries[at].0@ == topic
    }

    /// No topic occurs twice.
    pub closed spec fn wf(&self) -> bool {
        forall|left: int, right: int|
            0 <= left < right < self.entries.len() ==> #[trigger] self.entries[left].0@
                != #[trigger] self.entries[right].0@
    }

    proof fn lemma_listed(&self, topic: Topic, at: int)
        requires
            self.wf(),
            self.lists(topic, at),
        ensures
            self@.contains_key(topic),
            self@[topic] == self.entries[at].1,
    {
        let chosen = choose|other: int| self.lists(topic, other);
        assert(self.lists(topic, chosen));
        assert(chosen == at);
    }

    /// The empty map.
    pub fn new() -> (map: TopicMap)
        ensures
            map.wf(),
            map@ == Map::<Topic, usize>::empty(),
    {
        let map = TopicMap { entries: Vec::new() };
        assert(map@ =~= Map::<Topic, usize>::empty());
        map
    }

    /// The place of a topic in the list.
    fn position(&self, topic: &WSTopic) -> (place: Option<usize>)
        requires
            self.wf(),
        ensures
            match place {
                Some(at) => self.lists(topic@, at as int),
                None => forall|at: int| !self.lists(topic@, at),
            },
    {
        let mut at: usize = 0;
        while at < self.entries.len()
            invariant
                at <= self.entries.len(),
                forall|before: int| 0 <= before < at ==> !self.lists(topic@, before),
            decreases self.entries.len() - at,
        {
            if self.entries[at].0 == *topic {
                return Some(at);
            }
            at += 1;
        }
        None
    }

    /// The token of a topic.
    pub fn get(&self, topic: &WSTopic) -> (token: Option<usize>)
        requires
            self.wf(),
        ensures
            token == (if self@.contains_key(topic@) {
                Some(self@[topic@])
            } else {
                None
            }),
    {
        match self.position(topic) {
            Some(at) => {
                proof {
                    self.lemma_listed(topic@, at as int);
                }
                Some(self.entries[at].1)
            },
            None => None,
        }
    }

    /// Sets the token of a topic.
    pub fn insert(&mut self, topic: WSTopic, token: usize)
        requires
            old(self).wf(),
        ensures
            final(self).wf(),
            final(self)@ == old(self)@.insert(topic@, token),
    {
        let ghost before = *self;
        let ghost added = topic@;
        let place = self.position(&topic);
        match place {
            Some(at) => {
                self.entries.set(at, (topic, token));
                assert(self.lists(added, at as int));
            },
            None => {
                let ghost end = self.entries.len() as int;
                self.entries.push((topic, token));
                assert(self.lists(added, end));
            },
        }
        proof {
            assert forall|left: int, right: int|
                0 <= left < right < self.entries.len() implies #[trigger] self.entries[left].0@
                != #[trigger] self.entries[right].0@ by {
                if place is None && right == before.entries.len() {
                    assert(!before.lists(added, left));
                } else {
                    assert(before.entries[left].0@ != before.entries[right].0@);
                }
            }
            assert forall|other: Topic| #[trigger]
                self@.contains_key(other) <==> before@.insert(added, token).contains_key(other) by {
                if self@.contains_key(other) && other != added {
                    let at = choose|at: int| self.lists(other, at);
                    assert(before.lists(other, at));
                }
                if before@.contains_key(other) {
                    let at = choose|at: int| before.lists(other, at);
                    assert(self.lists(other, at));
                }
            }
            assert forall|other: Topic| #[trigger] self@.contains_key(other) implies self@[other]
                == before@.insert(added, token)[other] by {
                let at = choose|at: int| self.lists(other, at);
                self.lemma_listed(other, at);
                if other != added {
                    before.lemma_listed(other, at);
                }
            }
            assert(self@ =~= before@.insert(added, token));
        }
    }
}

} // verus!
