//! Reading no more of a response body than a probe needs.

use vstd::prelude::*;

verus! {

/// Probes read at most this many bytes of a body.
pub const MAX_RESPONSE_BODY_BYTES: usize = 262144;

/// The first bytes of a body, gathered chunk by chunk.
pub struct BodyPrefix {
    max: usize,
    body: Vec<u8>,
    seen: Ghost<Seq<u8>>,
}

/// What was received, cut at `max` bytes.
pub open spec fn prefix_of(received: Seq<u8>, max: usize) -> Seq<u8> {
    if received.len() <= max {
        received
    } else {
        received.take(max as int)
    }
}

impl BodyPrefix {
    /// Every byte received so far.
    pub closed spec fn received(&self) -> Seq<u8> {
        self.seen@
    }

    /// The limit.
    pub closed spec fn limit(&self) -> usize {
        self.max
    }

    /// The kept bytes are the received ones cut at the limit.
    pub closed spec fn wf(&self) -> bool {
        self.body@ == prefix_of(self.seen@, self.max)
    }

    /// An empty prefix that keeps at most `max` bytes.
    pub fn new(max: usize) -> (p: Self)
        ensures
            p.wf(),
            p.limit() == max,
            p.received() == Seq::<u8>::empty(),
    {
        BodyPrefix { max, body: Vec::new(), seen: Ghost(Seq::empty()) }
    }

    /// Whether no more bytes are needed; a zero limit needs none at all.
    pub fn is_full(&self) -> (b: bool)
        requires
            self.wf(),
        ensures
            b == (self.received().len() >= self.limit()),
    {
        self.body.len() >= self.max
    }

    /// Takes the next chunk; returns whether the prefix is now full.
    pub fn accept(&mut self, chunk: &[u8]) -> (full: bool)
        requires
            old(self).wf(),
        ensures
            final(self).wf(),
            final(self).limit() == old(self).limit(),
            final(self).received() == old(self).received() + chunk@,
            full == (final(self).received().len() >= final(self).limit()),
    {
        let ghost before = self.seen@;
        let ghost now = before + chunk@;
        let mut i: usize = 0;
        while i < chunk.len() && self.body.len() < self.max
            invariant
                i <= chunk@.len(),
                self.max == old(self).max,
                before == old(self).seen@,
                self.body@ == prefix_of(before + chunk@.take(i as int), self.max),
            decreases chunk.len() - i,
        {
            proof {
                let t = before + chunk@.take(i as int);
                assert(before + chunk@.take(i + 1) =~= t.push(chunk@[i as int]));
                assert(t.len() < self.max);
            }
            self.body.push(chunk[i]);
            i = i + 1;
        }
        proof {
            let t = before + chunk@.take(i as int);
            if i < chunk@.len() {
                assert(t.len() >= self.max);
                assert(now.take(self.max as int) =~= t.take(self.max as int));
                if t.len() == self.max {
                    assert(t.take(self.max as int) =~= t);
                }
                assert(self.body@ == t.take(self.max as int));
                assert(now.len() > self.max);
                assert(prefix_of(now, self.max) == now.take(self.max as int));
            } else {
                assert(chunk@.take(i as int) =~= chunk@);
                assert(t =~= now);
            }
        }
        self.seen = Ghost(now);
        self.body.len() >= self.max
    }

    /// The bytes kept.
    pub fn bytes(&self) -> (b: &Vec<u8>)
        requires
            self.wf(),
        ensures
            b@ == prefix_of(self.received(), self.limit()),
    {
        &self.body
    }
}

} // verus!
