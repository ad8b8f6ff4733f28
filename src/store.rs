use vstd::prelude::*;

use crate::value::{NTValueType, ValueView};

verus! {

/// The latest value of each topic: at most one value per topic path, the
/// last write wins, and nothing is ever removed.
pub struct TopicValueStore {
    entries: Vec<(String, NTValueType)>,
    model: Ghost<Map<Seq<char>, ValueView>>,
}

impl View for TopicValueStore {
    type V = Map<Seq<char>, ValueView>;

    closed spec fn view(&self) -> Map<Seq<char>, ValueView> {
        self.model@
    }
}

impl TopicValueStore {
    /// Keys are unique, and the entries hold exactly the model's pairs.
    pub closed spec fn wf(&self) -> bool {
        &&& forall|i: int, j: int|
            0 <= i < self.entries@.len() && 0 <= j < self.entries@.len() && i != j
                ==> #[trigger] self.entries@[i].0@ != #[trigger] self.entries@[j].0@
        &&& forall|i: int|
            0 <= i < self.entries@.len() ==> {
                &&& self.model@.contains_key(#[trigger] self.entries@[i].0@)
                &&& self.model@[self.entries@[i].0@] == self.entries@[i].1@
            }
        &&& forall|k: Seq<char>|
            #[trigger] self.model@.contains_key(k) ==> exists|i: int|
                0 <= i < self.entries@.len() && #[trigger] self.entries@[i].0@ == k
    }

    /// An empty store.
    pub fn new() -> (r: Self)
        ensures
            r.wf(),
            r@ == Map::<Seq<char>, ValueView>::empty(),
    {
        TopicValueStore { entries: Vec::new(), model: Ghost(Map::empty()) }
    }

    fn find(&self, topic: &String) -> (r: Option<usize>)
        requires
            self.wf(),
        ensures
            r matches Some(i) ==> i < self.entries@.len() && self.entries@[i as int].0@ == topic@,
            r is None ==> !self@.contains_key(topic@),
    {
        let mut i: usize = 0;
        while i < self.entries.len()
            invariant
                self.wf(),
                i <= self.entries@.len(),
                forall|j: int| 0 <= j < i ==> #[trigger] self.entries@[j].0@ != topic@,
            decreases self.entries@.len() - i,
        {
            if self.entries[i].0 == *topic {
                return Some(i);
            }
            i += 1;
        }
        None
    }

    /// A copy of the current value of `topic`, or `None` if it was never written.
    pub fn get(&self, topic: &String) -> (r: Option<NTValueType>)
        requires
            self.wf(),
        ensures
            r is None <==> !self@.contains_key(topic@),
            r matches Some(v) ==> v@ == self@[topic@],
    {
        match self.find(topic) {
            Some(i) => Some(self.entries[i].1.copy()),
            None => None,
        }
    }

    /// Whether `topic` has a value.
    pub fn contains(&self, topic: &String) -> (r: bool)
        requires
            self.wf(),
        ensures
            r == self@.contains_key(topic@),
    {
        self.find(topic).is_some()
    }

    /// Number of topics with a value.
    pub fn len(&self) -> (r: usize)
        requires
            self.wf(),
        ensures
            r == self@.dom().len(),
    {
        proof {
            self.lemma_len();
        }
        self.entries.len()
    }

    proof fn lemma_len(&self)
        requires
            self.wf(),
        ensures
            self.entries@.len() == self@.dom().len(),
    {
        let keys = self.entries@.map_values(|e: (String, NTValueType)| e.0@);
        assert forall|i: int, j: int|
            0 <= i < keys.len() && 0 <= j < keys.len() && i != j implies keys[i] != keys[j] by {
            assert(self.entries@[i].0@ != self.entries@[j].0@);
        }
        assert(keys.no_duplicates());
        keys.unique_seq_to_set();
        assert forall|k: Seq<char>| #[trigger] self@.dom().contains(k) <==> keys.contains(k) by {
            if self@.dom().contains(k) {
                let i = choose|i: int| 0 <= i < self.entries@.len() && #[trigger] self.entries@[i].0@ == k;
                assert(keys[i] == k);
            }
            if keys.contains(k) {
                let i = choose|i: int| 0 <= i < keys.len() && keys[i] == k;
                assert(self.entries@[i].0@ == k);
            }
        }
        assert(self@.dom() =~= keys.to_set());
    }

    /// Sets the value of `topic`, replacing any earlier one.
    pub fn upsert(&mut self, topic: String, value: NTValueType)
        requires
            old(self).wf(),
        ensures
            final(self).wf(),
            final(self)@ == old(self)@.insert(topic@, value@),
    {
        let ghost t = topic@;
        let ghost v = value@;
        let ghost pre = self.entries@;
        match self.find(&topic) {
            Some(i) => {
                self.entries.set(i, (topic, value));
                self.model = Ghost(self.model@.insert(t, v));
                assert forall|k: Seq<char>| #[trigger] self.model@.contains_key(k) implies exists|j: int|
                    0 <= j < self.entries@.len() && #[trigger] self.entries@[j].0@ == k by {
                    if k == t {
                        assert(self.entries@[i as int].0@ == k);
                    } else {
                        let j = choose|j: int| 0 <= j < pre.len() && #[trigger] pre[j].0@ == k;
                        assert(self.entries@[j].0@ == k);
                    }
                }
            },
            None => {
                self.entries.push((topic, value));
                self.model = Ghost(self.model@.insert(t, v));
                let ghost n: int = self.entries@.len() - 1;
                assert forall|k: Seq<char>| #[trigger] self.model@.contains_key(k) implies exists|j: int|
                    0 <= j < self.entries@.len() && #[trigger] self.entries@[j].0@ == k by {
                    if k == t {
                        assert(self.entries@[n].0@ == k);
                    } else {
                        let j = choose|j: int| 0 <= j < pre.len() && #[trigger] pre[j].0@ == k;
                        assert(self.entries@[j].0@ == k);
                    }
                }
            },
        }
    }
}

/// The store's model after a sequence of upserts, applied in order, starting
/// from the model `m`.
pub open spec fn after_writes(
    m: Map<Seq<char>, ValueView>,
    writes: Seq<(Seq<char>, ValueView)>,
) -> Map<Seq<char>, ValueView>
    decreases writes.len(),
{
    if writes.len() == 0 {
        m
    } else {
        after_writes(m, writes.drop_last()).insert(writes.last().0, writes.last().1)
    }
}

/// A topic that no upsert since `new` has named has no value, so `get`
/// returns `None` for it.
pub proof fn lemma_unwritten_topic_absent(writes: Seq<(Seq<char>, ValueView)>, topic: Seq<char>)
    requires
        forall|i: int| 0 <= i < writes.len() ==> (#[trigger] writes[i]).0 != topic,
    ensures
        !after_writes(Map::empty(), writes).contains_key(topic),
    decreases writes.len(),
{
    if writes.len() > 0 {
        let rest = writes.drop_last();
        assert forall|i: int| 0 <= i < rest.len() implies (#[trigger] rest[i]).0 != topic by {
            assert(rest[i] == writes[i]);
        }
        lemma_unwritten_topic_absent(rest, topic);
        assert(writes.last() == writes[writes.len() - 1]);
    }
}

/// After `upsert(topic, value)`, `get(topic)` returns exactly `value` for as
/// long as no later upsert names `topic`, whatever other topics are written.
pub proof fn lemma_last_write_wins(
    m: Map<Seq<char>, ValueView>,
    topic: Seq<char>,
    value: ValueView,
    later: Seq<(Seq<char>, ValueView)>,
)
    requires
        forall|i: int| 0 <= i < later.len() ==> (#[trigger] later[i]).0 != topic,
    ensures
        after_writes(m.insert(topic, value), later).contains_key(topic),
        after_writes(m.insert(topic, value), later)[topic] == value,
    decreases later.len(),
{
    if later.len() > 0 {
        let rest = later.drop_last();
        assert forall|i: int| 0 <= i < rest.len() implies (#[trigger] rest[i]).0 != topic by {
            assert(rest[i] == later[i]);
        }
        lemma_last_write_wins(m, topic, value, rest);
        assert(later.last() == later[later.len() - 1]);
    }
}

} // verus!
