//! A fixed-capacity ring-buffer channel that hands reusable text buffers from
//! any number of producer handles to a single consumer.
//!
//! The shared ring state is a fixed array of text slots plus two monotonic
//! cursors: producers claim a slot by advancing the write cursor, fill it, and
//! publish it by advancing the read cursor; the consumer walks its own private
//! cursor behind the read cursor and takes each published entry in turn.  Slot
//! addressing is always `index % capacity`, so a slot is reused by every claim
//! that maps onto it.
//!
//! This crate verifies the protocol in a sequential model: the ring state
//! lives with the single consumer ([`Reader`]), and producer handles
//! ([`Writer`]) act on it through an explicit mutable borrow of that state.
//! The borrow plays the part that the cursor/guard synchronization plays when
//! the ring is shared between threads; every claim, publish and consume step
//! is the same, and the contracts pin down exactly which payload each step
//! moves.
//!
//! Lapping policy: when a claim reuses a slot whose entry the consumer has not
//! read yet (the producer side is a full `capacity` ahead), the new payload
//! overwrites the unread one — the lost-update tradeoff.  The hazard is never
//! reported as [`Closed`]; it is recorded and observable through
//! [`Reader::lapped`], so a strict caller can treat it as a fatal
//! misconfiguration while a lenient one accepts the loss.

use vstd::arithmetic::div_mod::{
    lemma_mod_equivalence, lemma_mod_sub_multiples_vanish, lemma_small_mod,
};
use vstd::pervasive::unreached;
use vstd::prelude::*;

verus! {

/// Marker value signaling the permanent end of the stream: every producer
/// handle is gone and every published entry has been consumed.  It carries no
/// diagnostic data.
#[derive(Debug)]
pub struct Closed {
    _p: (),
}

/// The shared ring state: the slot array, the two monotonic cursors, the
/// live-producer census, and the ghost model of everything ever published.
struct Ring {
    /// Fixed slot count, set once at construction.
    capacity: usize,
    /// Monotonic claim counter; each write claims its pre-increment value.
    write_cursor: usize,
    /// Monotonic publish counter; entry `k` is readable once `k < read_cursor`.
    read_cursor: usize,
    /// Live producer handles; the channel is closed once this reaches zero
    /// with nothing left to read.
    producers: usize,
    /// Set once a claim has reused a slot whose entry was never consumed.
    lapped: bool,
    /// The slot array; slot `p` holds the payload of the latest publish `k`
    /// with `k % capacity == p`.
    slots: Vec<String>,
    /// Every payload ever published, in publish order.
    history: Ghost<Seq<Seq<char>>>,
    /// For each physical slot, the publish index of its current occupant.
    occupant: Ghost<Seq<int>>,
}

/// A producer handle.  Handles are minted by [`with_capacity`] and
/// [`Writer::fork`] and retired by [`Writer::close`], so the ring's
/// live-producer census always matches the handles in existence.
pub struct Writer {
    _handle: (),
}

/// The single consumer handle.  It owns the ring state and a private cursor
/// `next`: the publish index of the next entry it will consume.
pub struct Reader {
    ring: Ring,
    next: usize,
    /// The payloads handed out so far, in the order they were handed out.
    taken: Ghost<Seq<Seq<char>>>,
}

impl Reader {
    /// Every payload ever published on this channel, in publish order.
    pub closed spec fn history(&self) -> Seq<Seq<char>> {
        self.ring.history@
    }

    /// How many entries the consumer has taken so far (its private cursor).
    pub closed spec fn consumed(&self) -> nat {
        self.next as nat
    }

    /// How many entries have been published so far (the read cursor).
    pub closed spec fn published(&self) -> nat {
        self.ring.read_cursor as nat
    }

    /// The fixed slot count.
    pub closed spec fn capacity(&self) -> nat {
        self.ring.capacity as nat
    }

    /// How many producer handles are live.
    pub closed spec fn producers(&self) -> nat {
        self.ring.producers as nat
    }

    /// The payloads the consume operations have handed out, in order.
    pub closed spec fn observed(&self) -> Seq<Seq<char>> {
        self.taken@
    }

    /// Whether any claim has ever reused a slot whose entry was still unread.
    /// Under the overwrite policy that is the moment data is lost.
    pub closed spec fn has_lapped(&self) -> bool {
        self.ring.lapped
    }

    /// Published entries not yet consumed.
    pub open spec fn available(&self) -> int {
        self.published() as int - self.consumed() as int
    }

    /// Terminal state: nothing left to read and no producer that could
    /// publish more.
    pub open spec fn is_closed(&self) -> bool {
        self.available() == 0 && self.producers() == 0
    }

    /// The publish index of the entry the next consume operation delivers:
    /// the current occupant of the consumer's slot.  Without lapping this is
    /// exactly `consumed()`; after lapping it can be a later entry that
    /// overwrote the oldest unread one.
    pub closed spec fn head_index(&self) -> int {
        self.ring.occupant@[(self.next as int) % (self.ring.capacity as int)]
    }

    /// The payload the next consume operation delivers.
    pub open spec fn head_entry(&self) -> Seq<char> {
        self.history()[self.head_index()]
    }

    /// Well-formedness of the channel state.
    ///
    /// In the sequential model every write publishes before it returns, so
    /// the two cursors agree between operations; the consumer's cursor never
    /// passes the read cursor; each written slot holds the payload of its
    /// latest occupant, an entry from the last `capacity` publishes; and as
    /// long as no claim has lapped, the consumer has observed exactly the
    /// first `consumed()` published payloads, in publish order.
    pub closed spec fn wf(&self) -> bool {
        let cap = self.ring.capacity as int;
        let r = self.ring.read_cursor as int;
        let hist = self.ring.history@;
        let occ = self.ring.occupant@;
        &&& 0 < cap
        &&& self.ring.slots@.len() == cap
        &&& self.ring.write_cursor == self.ring.read_cursor
        &&& hist.len() == r
        &&& self.next <= self.ring.read_cursor
        &&& occ.len() == cap
        &&& (forall|p: int|
            0 <= p < cap && p < r ==> {
                &&& 0 <= #[trigger] occ[p] < r
                &&& r - cap <= occ[p]
                &&& occ[p] % cap == p
                &&& self.ring.slots@[p]@ == hist[occ[p]]
            })
        &&& (!self.ring.lapped ==> r - self.next as int <= cap)
        &&& (!self.ring.lapped ==> self.taken@ == hist.take(self.next as int))
    }
}

/// Creates a channel with `capacity` slots and returns its first producer
/// handle and its single consumer handle.  Construction cannot fail.
pub fn with_capacity(capacity: usize) -> (handles: (Writer, Reader))
    requires
        1 <= capacity,
    ensures
        handles.1.wf(),
        handles.1.capacity() == capacity,
        handles.1.history() == Seq::<Seq<char>>::empty(),
        handles.1.observed() == Seq::<Seq<char>>::empty(),
        handles.1.published() == 0,
        handles.1.consumed() == 0,
        handles.1.producers() == 1,
        !handles.1.has_lapped(),
{
    let mut slots: Vec<String> = Vec::new();
    let mut i: usize = 0;
    while i < capacity
        invariant
            i <= capacity,
            slots@.len() == i,
        decreases capacity - i,
    {
        slots.push(String::new());
        i = i + 1;
    }
    let ring = Ring {
        capacity,
        write_cursor: 0,
        read_cursor: 0,
        producers: 1,
        lapped: false,
        slots,
        history: Ghost(Seq::empty()),
        occupant: Ghost(Seq::new(capacity as nat, |p: int| -1)),
    };
    let reader = Reader { ring, next: 0, taken: Ghost(Seq::empty()) };
    proof {
        assert(reader.ring.history@.take(0) =~= Seq::<Seq<char>>::empty());
    }
    (Writer { _handle: () }, reader)
}

impl Writer {
    /// Publishes one payload: claims the next slot index from the write
    /// cursor, replaces that slot's previous content with `payload`, and
    /// publishes it by advancing the read cursor.  The operation is
    /// infallible; if the claim reuses a slot whose entry was never consumed
    /// (the producer side is a full `capacity` ahead of the consumer), the
    /// unread entry is overwritten and the lapping hazard is recorded.
    pub fn write(&self, chan: &mut Reader, payload: &str)
        requires
            old(chan).wf(),
            old(chan).producers() > 0,
            old(chan).published() < usize::MAX,
        ensures
            final(chan).wf(),
            final(chan).history() == old(chan).history().push(payload@),
            final(chan).published() == old(chan).published() + 1,
            final(chan).consumed() == old(chan).consumed(),
            final(chan).observed() == old(chan).observed(),
            final(chan).producers() == old(chan).producers(),
            final(chan).capacity() == old(chan).capacity(),
            final(chan).has_lapped() == (old(chan).has_lapped() || old(chan).available()
                >= old(chan).capacity()),
    {
        let ghost prev = *chan;
        // claim: advance the write cursor; w is this write's publish index
        let w: usize = chan.ring.write_cursor;
        chan.ring.write_cursor = w + 1;
        let idx: usize = w % chan.ring.capacity;
        // lapping hazard: the claimed slot still holds an unread entry
        if w - chan.next >= chan.ring.capacity {
            chan.ring.lapped = true;
        }
        let ghost pv = payload@;
        // fill the claimed slot; prior content is replaced, not appended to
        chan.ring.slots[idx] = payload.to_owned();
        chan.ring.history = Ghost(chan.ring.history@.push(pv));
        chan.ring.occupant = Ghost(chan.ring.occupant@.update(idx as int, w as int));
        // publish: make the entry visible to the consumer
        chan.ring.read_cursor = chan.ring.read_cursor + 1;
        proof {
            let cap: int = prev.ring.capacity as int;
            let r: int = prev.ring.read_cursor as int;
            let occ0 = prev.ring.occupant@;
            let hist0 = prev.ring.history@;
            let hist1 = chan.ring.history@;
            let occ1 = chan.ring.occupant@;
            assert forall|p: int|
                0 <= p < cap && p < r + 1 implies {
                    &&& 0 <= #[trigger] occ1[p] < r + 1
                    &&& r + 1 - cap <= occ1[p]
                    &&& occ1[p] % cap == p
                    &&& chan.ring.slots@[p]@ == hist1[occ1[p]]
                } by {
                if p != idx as int {
                    if p >= r {
                        // then p == r < cap, so idx == r % cap == r == p
                        lemma_small_mod(r as nat, cap as nat);
                    }
                    if occ0[p] == r - cap {
                        // the occupant a full lap behind sits in this write's slot
                        lemma_mod_sub_multiples_vanish(r, cap);
                    }
                }
            }
            if !chan.ring.lapped {
                assert(hist1.take(prev.next as int) =~= hist0.take(prev.next as int));
            }
        }
    }

    /// Mints another producer handle for the same channel and records it in
    /// the ring's live-producer census.  Cloning a producer cannot fail.
    pub fn fork(&self, chan: &mut Reader) -> (other: Writer)
        requires
            old(chan).wf(),
            old(chan).producers() > 0,
            old(chan).producers() < usize::MAX,
        ensures
            final(chan).wf(),
            final(chan).producers() == old(chan).producers() + 1,
            final(chan).history() == old(chan).history(),
            final(chan).published() == old(chan).published(),
            final(chan).consumed() == old(chan).consumed(),
            final(chan).observed() == old(chan).observed(),
            final(chan).capacity() == old(chan).capacity(),
            final(chan).has_lapped() == old(chan).has_lapped(),
    {
        chan.ring.producers = chan.ring.producers + 1;
        Writer { _handle: () }
    }

    /// Retires this producer handle.  Once the census reaches zero with
    /// nothing left to read, the channel is closed: consume operations report
    /// `Closed`, and — every handle being gone — nothing can publish again,
    /// so closure is terminal.
    pub fn close(self, chan: &mut Reader)
        requires
            old(chan).wf(),
            old(chan).producers() > 0,
        ensures
            final(chan).wf(),
            final(chan).producers() == old(chan).producers() - 1,
            final(chan).history() == old(chan).history(),
            final(chan).published() == old(chan).published(),
            final(chan).consumed() == old(chan).consumed(),
            final(chan).observed() == old(chan).observed(),
            final(chan).capacity() == old(chan).capacity(),
            final(chan).has_lapped() == old(chan).has_lapped(),
    {
        chan.ring.producers = chan.ring.producers - 1;
    }
}

impl Reader {
    /// Non-blocking consume.  Never waits: if an entry is published and
    /// unconsumed it is delivered now; with nothing to read the call reports
    /// either "no data yet" (`Ok(None)`, some producer may still publish) or
    /// the terminal `Closed` (no producer handle remains).  `Closed` is
    /// returned if and only if the channel is truly terminal, and a closed
    /// channel is left exactly as it was, so every later call reports
    /// `Closed` again.
    pub fn try_read(&mut self) -> (result: Result<Option<String>, Closed>)
        requires
            old(self).wf(),
        ensures
            final(self).wf(),
            final(self).history() == old(self).history(),
            final(self).published() == old(self).published(),
            final(self).producers() == old(self).producers(),
            final(self).capacity() == old(self).capacity(),
            final(self).has_lapped() == old(self).has_lapped(),
            result matches Err(_) <==> old(self).is_closed(),
            old(self).available() == 0 ==> *final(self) == *old(self),
            old(self).available() == 0 && old(self).producers() > 0 ==> result == Ok::<
                Option<String>,
                Closed,
            >(None),
            old(self).available() > 0 ==> (result matches Ok(taken) && taken matches Some(s)
                && s@ == old(self).head_entry() && final(self).consumed() == old(self).consumed()
                + 1 && final(self).observed() == old(self).observed().push(s@)),
            old(self).available() > 0 && !old(self).has_lapped() ==> (result matches Ok(taken)
                && taken matches Some(s) && s@ == old(self).history()[old(self).consumed() as int]),
    {
        if self.next >= self.ring.read_cursor {
            if self.ring.producers == 0 {
                Err(Closed { _p: () })
            } else {
                Ok(None)
            }
        } else {
            let idx: usize = self.next % self.ring.capacity;
            let out = self.ring.slots[idx].clone();
            proof {
                lemma_head_entry_position(*old(self));
                let cap: int = self.ring.capacity as int;
                let r: int = self.ring.read_cursor as int;
                let p: int = (self.next as int) % cap;
                if r < cap {
                    lemma_small_mod(self.next as nat, cap as nat);
                }
                assert(0 <= p < cap && p < r);
                assert(self.ring.occupant@[p] % cap == p);
                assert(out@ == self.ring.history@[self.ring.occupant@[p]]);
            }
            self.taken = Ghost(self.taken@.push(out@));
            self.next = self.next + 1;
            proof {
                if !self.ring.lapped {
                    let hist = self.ring.history@;
                    assert(hist.take(self.next as int) =~= hist.take(self.next as int - 1).push(
                        hist[self.next as int - 1],
                    ));
                }
            }
            Ok(Some(out))
        }
    }

    /// Blocking consume.  Delivers the oldest unconsumed published entry, or
    /// reports the terminal `Closed` once no producer handle remains and
    /// everything published has been drained — published data always wins
    /// over closure.  In the sequential model no other context can publish
    /// while this call waits, so a call that would spin forever (nothing to
    /// read, producers still live) is excluded by precondition rather than
    /// looped on.
    pub fn read(&mut self) -> (result: Result<String, Closed>)
        requires
            old(self).wf(),
            old(self).available() > 0 || old(self).producers() == 0,
        ensures
            final(self).wf(),
            final(self).history() == old(self).history(),
            final(self).published() == old(self).published(),
            final(self).producers() == old(self).producers(),
            final(self).capacity() == old(self).capacity(),
            final(self).has_lapped() == old(self).has_lapped(),
            result matches Err(_) <==> old(self).is_closed(),
            old(self).is_closed() ==> *final(self) == *old(self),
            old(self).available() > 0 ==> (result matches Ok(s) && s@ == old(self).head_entry()
                && final(self).consumed() == old(self).consumed() + 1 && final(self).observed()
                == old(self).observed().push(s@)),
            old(self).available() > 0 && !old(self).has_lapped() ==> (result matches Ok(s)
                && s@ == old(self).history()[old(self).consumed() as int]),
    {
        match self.try_read() {
            Ok(Some(payload)) => Ok(payload),
            Ok(None) => unreached(),
            Err(closed) => Err(closed),
        }
    }

    /// Whether any claim has reused a slot whose entry was never consumed.
    /// Under the overwrite policy that means data was lost; a strict caller
    /// treats a `true` here as a fatal misconfiguration (capacity too small
    /// or the consumer not keeping up), never as `Closed`.
    pub fn lapped(&self) -> (hazard: bool)
        ensures
            hazard == self.has_lapped(),
    {
        self.ring.lapped
    }
}

/// Two integers that agree modulo `m` and lie strictly within `m` of each
/// other are equal.
proof fn lemma_congruent_within_window(a: int, b: int, m: int)
    requires
        0 < m,
        a % m == b % m,
        -m < a - b < m,
    ensures
        a == b,
{
    lemma_mod_equivalence(a, b, m);
    if a >= b {
        lemma_small_mod((a - b) as nat, m as nat);
    } else {
        lemma_mod_equivalence(b, a, m);
        lemma_small_mod((b - a) as nat, m as nat);
    }
}

/// Where the next delivery comes from, stated over publish indices.  The
/// consume operations never hand out an entry older than `consumed()` — even
/// after lapping there is no duplication of already-consumed entries — and
/// never one outside the last `capacity` publishes; the delivered entry
/// always sits in the consumer's slot (`consumed() % capacity`).  As long as
/// no claim has lapped, the next delivery is exactly the oldest unconsumed
/// entry, `history()[consumed()]`: first-in, first-out.
pub proof fn lemma_head_entry_position(chan: Reader)
    requires
        chan.wf(),
        chan.available() > 0,
    ensures
        chan.consumed() <= chan.head_index() < chan.published(),
        chan.published() - chan.capacity() <= chan.head_index(),
        chan.head_index() % (chan.capacity() as int) == (chan.consumed() as int) % (
        chan.capacity() as int),
        !chan.has_lapped() ==> chan.head_index() == chan.consumed(),
{
    let cap: int = chan.ring.capacity as int;
    let r: int = chan.ring.read_cursor as int;
    let next: int = chan.next as int;
    let p: int = next % cap;
    if r < cap {
        lemma_small_mod(next as nat, cap as nat);
    }
    assert(0 <= p < cap && p < r);
    let o: int = chan.ring.occupant@[p];
    if o < next {
        // o and next share a slot and lie within one lap: they would be equal
        lemma_congruent_within_window(o, next, cap);
    }
    if !chan.ring.lapped && o != next {
        lemma_congruent_within_window(o, next, cap);
    }
}

/// No duplication, no loss: as long as no claim has lapped — the outstanding
/// unread count never went past `capacity` — the consumer has observed
/// exactly the first `consumed()` published payloads, each exactly once, in
/// publish order.
pub proof fn lemma_in_order_delivery(chan: Reader)
    requires
        chan.wf(),
        !chan.has_lapped(),
    ensures
        chan.observed() == chan.history().take(chan.consumed() as int),
        chan.consumed() <= chan.history().len(),
        chan.available() <= chan.capacity(),
{
}

/// First-in, first-out: of two entries published at claim `a` and claim `b`
/// with `a` before `b`, the consumer observes `a` strictly before `b` —
/// entry `a` stands at position `a` and entry `b` at the later position `b`
/// of the observation order.
pub proof fn lemma_fifo_order(chan: Reader, a: int, b: int)
    requires
        chan.wf(),
        !chan.has_lapped(),
        0 <= a < b < chan.consumed(),
    ensures
        chan.observed()[a] == chan.history()[a],
        chan.observed()[b] == chan.history()[b],
{
}

/// A drained channel: once everything published has been consumed, the
/// consumer has observed the whole history, each payload exactly once, in
/// publish order — nothing was duplicated and (absent lapping) nothing was
/// lost.
pub proof fn lemma_drained_delivery(chan: Reader)
    requires
        chan.wf(),
        !chan.has_lapped(),
        chan.available() == 0,
    ensures
        chan.observed() == chan.history(),
{
    assert(chan.history().take(chan.consumed() as int) =~= chan.history());
}

} // verus!
