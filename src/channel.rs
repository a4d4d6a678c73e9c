//! The bounded priority mailbox between the producers and the publisher.
use crate::item::{ItemKey, PriorityItem, key_of, item_of, lemma_key_round_trip};
use embassy_sync::blocking_mutex::raw::NoopRawMutex;
use embassy_sync::priority_channel::{Min, PriorityChannel};
use vstd::multiset::Multiset;
use vstd::prelude::*;

verus! {

/// How many items the channel holds at most.
pub const CAPACITY: usize = 20;

/// embassy-sync's priority channel over item keys, smallest key first. Verus
/// cannot declare that type (its bounds are traits of embassy-sync), so it is
/// held here behind the wrappers below.
#[verifier::external_body]
pub struct RawChannel {
    inner: PriorityChannel<NoopRawMutex, ItemKey, Min, CAPACITY>,
}

/// The keys that a raw channel holds.
pub uninterp spec fn queued(ch: RawChannel) -> Multiset<ItemKey>;

/// Relies on `PriorityChannel::new`: a new channel is empty.
#[verifier::external_body]
fn raw_new() -> (r: RawChannel)
    ensures
        queued(r).len() == 0,
{
    RawChannel { inner: PriorityChannel::new() }
}

/// Relies on `PriorityChannel::try_send`: the key is pushed on the inner
/// heapless `BinaryHeap` when it holds fewer than `CAPACITY` keys, and handed
/// back otherwise.
#[verifier::external_body]
fn raw_try_send(ch: &mut RawChannel, k: ItemKey) -> (r: bool)
    ensures
        r == (queued(*old(ch)).len() < CAPACITY),
        r ==> queued(*final(ch)) == queued(*old(ch)).insert(k),
        !r ==> queued(*final(ch)) == queued(*old(ch)),
{
    ch.inner.try_send(k).is_ok()
}

/// Relies on `PriorityChannel::try_receive`: a min-heap pop, which takes out
/// a smallest key (so one of the most urgent level), or fails on an empty
/// channel.
#[verifier::external_body]
fn raw_try_receive(ch: &mut RawChannel) -> (r: Option<ItemKey>)
    ensures
        r is None <==> queued(*old(ch)).len() == 0,
        r is None ==> queued(*final(ch)) == queued(*old(ch)),
        r matches Some(k) ==> {
            &&& queued(*old(ch)).contains(k)
            &&& queued(*final(ch)) == queued(*old(ch)).remove(k)
            &&& forall|j: ItemKey| queued(*old(ch)).contains(j) ==> k.0 <= j.0
        },
{
    ch.inner.try_receive().ok()
}

/// Relies on `PriorityChannel::len`: the number of keys held.
#[verifier::external_body]
fn raw_len(ch: &RawChannel) -> (r: usize)
    ensures
        r == queued(*ch).len(),
{
    ch.inner.len()
}

/// A bounded mailbox that serves the most urgent item first. Publishing never
/// waits: an item that finds the mailbox full is dropped.
pub struct Channel {
    raw: RawChannel,
}

/// Every key of `keys` stands for an item.
pub open spec fn keys_valid(keys: Multiset<ItemKey>) -> bool {
    forall|k: ItemKey| keys.contains(k) ==> item_of(k) is Some
}

impl Channel {
    /// The keys of the items held.
    pub closed spec fn keys(&self) -> Multiset<ItemKey> {
        queued(self.raw)
    }

    pub open spec fn wf(&self) -> bool {
        &&& keys_valid(self.keys())
        &&& self.keys().len() <= CAPACITY
    }

    /// How many items are held.
    pub open spec fn spec_len(&self) -> nat {
        self.keys().len()
    }

    pub fn new() -> (r: Self)
        ensures
            r.wf(),
            r.spec_len() == 0,
    {
        let raw = raw_new();
        let r = Channel { raw };
        assert(r.keys() =~= Multiset::empty());
        r
    }

    /// Number of items held.
    pub fn len(&self) -> (r: usize)
        requires
            self.wf(),
        ensures
            r == self.spec_len(),
    {
        raw_len(&self.raw)
    }

    /// Offers `item` to the mailbox; `false` when it was full and the item was
    /// dropped.
    pub fn try_publish(&mut self, item: PriorityItem) -> (r: bool)
        requires
            old(self).wf(),
        ensures
            final(self).wf(),
            r == (old(self).spec_len() < CAPACITY),
            r ==> final(self).keys() == old(self).keys().insert(key_of(item)),
            !r ==> final(self).keys() == old(self).keys(),
    {
        proof {
            lemma_key_round_trip(item);
        }
        let k = item.key();
        let ok = raw_try_send(&mut self.raw, k);
        proof {
            if ok {
                assert forall|j: ItemKey| self.keys().contains(j) implies item_of(j) is Some by {
                    if j != k {
                        assert(old(self).keys().contains(j));
                    }
                }
            }
        }
        ok
    }

    /// Offers `items` in order. Once the mailbox is full the rest are dropped,
    /// so exactly a prefix is accepted; returns its length.
    pub fn publish_all(&mut self, items: &Vec<PriorityItem>) -> (r: usize)
        requires
            old(self).wf(),
        ensures
            final(self).wf(),
            r == accepted(old(self).spec_len(), items@.len()),
            final(self).keys() == after_publish(old(self).keys(), items@),
    {
        let ghost start = self.keys();
        let mut n: usize = 0;
        let mut i: usize = 0;
        while i < items.len()
            invariant
                self.wf(),
                i <= items@.len(),
                n == accepted(start.len(), i as nat),
                self.keys() == start.add(keys_of(items@.take(n as int))),
                self.keys().len() == start.len() + n,
            decreases items@.len() - i,
        {
            let ok = self.try_publish(items[i]);
            proof {
                if ok {
                    assert(items@.take(n + 1 as int).drop_last() =~= items@.take(n as int));
                    assert(n < items@.len());
                    assert(items@.take(n + 1 as int).last() == items@[n as int]);
                    assert(n == i) by {
                        assert(start.len() + n < CAPACITY);
                    }
                    assert(self.keys() =~= start.add(keys_of(items@.take(n + 1 as int))));
                }
            }
            if ok {
                n = n + 1;
            }
            i = i + 1;
        }
        n
    }

    /// Takes out an item of the most urgent level held, or `None` when empty.
    pub fn try_receive(&mut self) -> (r: Option<PriorityItem>)
        requires
            old(self).wf(),
        ensures
            final(self).wf(),
            old(self).spec_len() == 0 <==> r is None,
            r is None ==> final(self).keys() == old(self).keys(),
            r matches Some(i) ==> receive_outcome(old(self).keys(), final(self).keys(), i),
    {
        match raw_try_receive(&mut self.raw) {
            Some(k) => {
                let r = PriorityItem::from_key(k);
                proof {
                    crate::item::lemma_key_unique(k);
                    assert forall|j: ItemKey| self.keys().contains(j) implies item_of(
                        j,
                    ) is Some by {
                        assert(old(self).keys().contains(j));
                    }
                }
                match r {
                    Some(i) => Some(i),
                    None => None,
                }
            },
            None => None,
        }
    }
}

/// The keys of a sequence of items.
pub open spec fn keys_of(items: Seq<PriorityItem>) -> Multiset<ItemKey>
    decreases items.len(),
{
    if items.len() == 0 {
        Multiset::empty()
    } else {
        keys_of(items.drop_last()).insert(key_of(items.last()))
    }
}

/// How many of `n` offered items a channel holding `len` items accepts.
pub open spec fn accepted(len: nat, n: nat) -> nat {
    if len + n <= CAPACITY {
        n
    } else if len >= CAPACITY {
        0
    } else {
        (CAPACITY - len) as nat
    }
}

/// The keys held after offering `items`, in order, to a channel holding
/// `keys`: the accepted prefix is added, the rest dropped.
pub open spec fn after_publish(keys: Multiset<ItemKey>, items: Seq<PriorityItem>) -> Multiset<
    ItemKey,
> {
    keys.add(keys_of(items.take(accepted(keys.len(), items.len()) as int)))
}

/// `item` was taken out of `before`, leaving `after`, and nothing in `before`
/// was more urgent.
pub open spec fn receive_outcome(
    before: Multiset<ItemKey>,
    after: Multiset<ItemKey>,
    item: PriorityItem,
) -> bool {
    &&& before.contains(key_of(item))
    &&& after == before.remove(key_of(item))
    &&& forall|k: ItemKey| before.contains(k) ==> item.priority <= k.0
}


/// Of two pending items of different urgency, the more urgent one is served
/// first: a receive never yields the less urgent one, which stays pending.
pub proof fn lemma_more_urgent_first(
    before: Multiset<ItemKey>,
    after: Multiset<ItemKey>,
    urgent: PriorityItem,
    other: PriorityItem,
    got: PriorityItem,
)
    requires
        before.contains(key_of(urgent)),
        before.contains(key_of(other)),
        urgent.priority < other.priority,
        receive_outcome(before, after, got),
    ensures
        got.priority <= urgent.priority,
        got != other,
        after.contains(key_of(other)),
{
    lemma_key_round_trip(urgent);
    lemma_key_round_trip(other);
    lemma_key_round_trip(got);
    assert(key_of(got) != key_of(other));
}

} // verus!
