use vstd::prelude::*;

use crate::store::TopicValueStore;
use crate::value::{
    decode, decoded, opt_view, NTValueType, ValueView, WirePayload, ABSENT_DOUBLE_BITS, WIRE_BOOLEAN,
    WIRE_DOUBLE, WIRE_DOUBLE_ARRAY, WIRE_STRING, WIRE_STRING_ARRAY,
};

verus! {

/// The direct "current value" query that polls a topic, by the type asked for.
#[derive(Clone, Copy, Debug, PartialEq, Eq, Structural)]
pub enum QueryKind {
    /// Asked with default `0`; every reply is a value.
    Boolean,
    /// Asked with the default `-1.0` (`ABSENT_DOUBLE_BITS`), which as a reply means "no value".
    Double,
    /// Asked with the empty string as default, which as a reply means "no value".
    String,
    /// Asked with an empty buffer; a reply of length zero means "no value".
    DoubleArray,
    /// Asked with an empty buffer; a reply of length zero means "no value".
    StringArray,
}

pub open spec fn kind_wire_type(kind: QueryKind) -> u32 {
    match kind {
        QueryKind::Boolean => WIRE_BOOLEAN,
        QueryKind::Double => WIRE_DOUBLE,
        QueryKind::String => WIRE_STRING,
        QueryKind::DoubleArray => WIRE_DOUBLE_ARRAY,
        QueryKind::StringArray => WIRE_STRING_ARRAY,
    }
}

impl QueryKind {
    /// The wire type code of the values this query returns.
    pub fn wire_type(&self) -> (r: u32)
        ensures
            r == kind_wire_type(*self),
    {
        match self {
            QueryKind::Boolean => WIRE_BOOLEAN,
            QueryKind::Double => WIRE_DOUBLE,
            QueryKind::String => WIRE_STRING,
            QueryKind::DoubleArray => WIRE_DOUBLE_ARRAY,
            QueryKind::StringArray => WIRE_STRING_ARRAY,
        }
    }
}

/// The sentinel replies of a poll query: the default it was asked with.
pub open spec fn is_sentinel_reply(kind: QueryKind, reply: WirePayload) -> bool {
    match reply {
        WirePayload::Bits64(x) => kind == QueryKind::Double && x == ABSENT_DOUBLE_BITS,
        WirePayload::Text(s) => kind == QueryKind::String && s@.len() == 0,
        _ => false,
    }
}

/// The replies that carry no value: a sentinel, or an array of length zero
/// answering an array query.
pub open spec fn is_absent_reply(kind: QueryKind, reply: WirePayload) -> bool {
    ||| is_sentinel_reply(kind, reply)
    ||| (kind == QueryKind::DoubleArray && (reply matches WirePayload::Bits64Array(a) && a@.len() == 0))
    ||| (kind == QueryKind::StringArray && (reply matches WirePayload::TextArray(a) && a@.len() == 0))
}

/// What a poll reply decodes to: `None` for a reply that carries no value.
pub open spec fn polled(kind: QueryKind, reply: WirePayload) -> Option<ValueView> {
    if is_absent_reply(kind, reply) {
        None
    } else {
        decoded(kind_wire_type(kind), reply)
    }
}

/// The model `m` with `topic` set to `v`, if there is a `v`.
pub open spec fn write_if_present(
    m: Map<Seq<char>, ValueView>,
    topic: Seq<char>,
    v: Option<ValueView>,
) -> Map<Seq<char>, ValueView> {
    match v {
        Some(x) => m.insert(topic, x),
        None => m,
    }
}

/// Decodes a poll reply; the replies that carry no value give `None`.
pub fn decode_polled(kind: QueryKind, reply: &WirePayload) -> (r: Option<NTValueType>)
    ensures
        opt_view(r) == polled(kind, *reply),
{
    let sentinel = match reply {
        WirePayload::Bits64(x) => kind == QueryKind::Double && *x == ABSENT_DOUBLE_BITS,
        WirePayload::Text(s) => kind == QueryKind::String && s.as_str().is_empty(),
        _ => false,
    };
    if sentinel {
        None
    } else {
        decode(kind.wire_type(), reply)
    }
}

/// A topic to poll, and the query to poll it with.
#[derive(Debug)]
pub struct WatchEntry {
    pub topic: String,
    pub kind: QueryKind,
}

/// Writes the value of one poll reply into the store; a reply that carries no
/// value leaves the store as it was.
pub fn apply_poll_reply(store: &mut TopicValueStore, entry: &WatchEntry, reply: &WirePayload)
    requires
        old(store).wf(),
    ensures
        final(store).wf(),
        final(store)@ == write_if_present(old(store)@, entry.topic@, polled(entry.kind, *reply)),
        is_absent_reply(entry.kind, *reply) ==> final(store)@ == old(store)@,
{
    match decode_polled(entry.kind, reply) {
        Some(v) => store.upsert(entry.topic.clone(), v),
        None => {},
    }
}

/// Records a push notification under the topic name it carries. A payload of
/// unknown or inconsistent type is recorded as `Unknown`; an empty array
/// carries no value and writes nothing.
pub fn record_notification(
    store: &mut TopicValueStore,
    name: String,
    wire_type: u32,
    payload: &WirePayload,
)
    requires
        old(store).wf(),
    ensures
        final(store).wf(),
        final(store)@ == write_if_present(old(store)@, name@, decoded(wire_type, *payload)),
{
    match decode(wire_type, payload) {
        Some(v) => store.upsert(name, v),
        None => {},
    }
}

/// How the store is kept up to date.
#[derive(Clone, Copy, Debug, PartialEq, Eq, Structural)]
pub enum SyncStrategy {
    /// The service notifies each change of a subscribed topic.
    Push,
    /// Each rendering cycle queries every watched topic once.
    Poll,
}

/// The model after applying the first `n` poll replies in order, the `i`-th
/// reply answering the `i`-th watched topic.
pub open spec fn after_poll(
    m: Map<Seq<char>, ValueView>,
    watch: Seq<WatchEntry>,
    replies: Seq<WirePayload>,
    n: int,
) -> Map<Seq<char>, ValueView>
    decreases n,
{
    if n <= 0 {
        m
    } else {
        write_if_present(
            after_poll(m, watch, replies, n - 1),
            watch[n - 1].topic@,
            polled(watch[n - 1].kind, replies[n - 1]),
        )
    }
}

pub open spec fn min_len(a: nat, b: nat) -> int {
    if a < b {
        a as int
    } else {
        b as int
    }
}

/// A poll cycle in which no reply carries a value (each is a sentinel, or an
/// empty array answering an array query) leaves every stored value as it was.
pub proof fn lemma_absent_cycle_keeps_store(
    m: Map<Seq<char>, ValueView>,
    watch: Seq<WatchEntry>,
    replies: Seq<WirePayload>,
    n: int,
)
    requires
        n <= watch.len(),
        n <= replies.len(),
        forall|i: int| 0 <= i < n ==> is_absent_reply(watch[i].kind, #[trigger] replies[i]),
    ensures
        after_poll(m, watch, replies, n) == m,
    decreases n,
{
    if n > 0 {
        lemma_absent_cycle_keeps_store(m, watch, replies, n - 1);
        assert(is_absent_reply(watch[n - 1].kind, replies[n - 1]));
    }
}

/// One watch-list of topics, synchronized by one strategy.
///
/// With `Poll`, each cycle makes one query per watched topic: O(topics)
/// calls into the service per frame.
pub struct Synchronizer {
    strategy: SyncStrategy,
    watch: Vec<WatchEntry>,
}

impl Synchronizer {
    pub closed spec fn spec_strategy(&self) -> SyncStrategy {
        self.strategy
    }

    pub closed spec fn spec_watch(&self) -> Seq<WatchEntry> {
        self.watch@
    }

    pub fn new(strategy: SyncStrategy, watch: Vec<WatchEntry>) -> (r: Self)
        ensures
            r.spec_strategy() == strategy,
            r.spec_watch() == watch@,
    {
        Synchronizer { strategy, watch }
    }

    pub fn strategy(&self) -> (r: SyncStrategy)
        ensures
            r == self.spec_strategy(),
    {
        self.strategy
    }

    /// The topics to poll, in order, with their queries.
    pub fn watch_list(&self) -> (r: &Vec<WatchEntry>)
        ensures
            r@ == self.spec_watch(),
    {
        &self.watch
    }

    /// The topics to subscribe to: the watched topics under `Push`, none under `Poll`.
    pub fn subscriptions(&self) -> (r: Vec<String>)
        ensures
            self.spec_strategy() == SyncStrategy::Poll ==> r@.len() == 0,
            self.spec_strategy() == SyncStrategy::Push ==> {
                &&& r@.len() == self.spec_watch().len()
                &&& forall|i: int| 0 <= i < r@.len() ==> #[trigger] r@[i]@ == self.spec_watch()[i].topic@
            },
    {
        let mut out: Vec<String> = Vec::new();
        if self.strategy == SyncStrategy::Push {
            let mut i: usize = 0;
            while i < self.watch.len()
                invariant
                    i <= self.watch@.len(),
                    out@.len() == i,
                    forall|j: int| 0 <= j < i ==> #[trigger] out@[j]@ == self.watch@[j].topic@,
                decreases self.watch@.len() - i,
            {
                out.push(self.watch[i].topic.clone());
                i += 1;
            }
        }
        out
    }

    /// Applies one cycle of poll replies, `replies[i]` answering the `i`-th
    /// watched topic; extra replies or watched topics without a reply are
    /// left out.
    pub fn poll_cycle(&self, store: &mut TopicValueStore, replies: &Vec<WirePayload>)
        requires
            old(store).wf(),
        ensures
            final(store).wf(),
            final(store)@ == after_poll(
                old(store)@,
                self.spec_watch(),
                replies@,
                min_len(self.spec_watch().len(), replies@.len()),
            ),
    {
        let n: usize = if self.watch.len() < replies.len() {
            self.watch.len()
        } else {
            replies.len()
        };
        let mut i: usize = 0;
        while i < n
            invariant
                n == min_len(self.watch@.len(), replies@.len()),
                i <= n,
                store.wf(),
                store@ == after_poll(old(store)@, self.watch@, replies@, i as int),
            decreases n - i,
        {
            apply_poll_reply(store, &self.watch[i], &replies[i]);
            i += 1;
        }
    }

}

} // verus!
