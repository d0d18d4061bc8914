//! The handler registry: which handler serves which kind of job on which
//! queue.
use vstd::prelude::*;

use crate::job::{default_queue, DEFAULT_QUEUE};
use crate::table::listed;

verus! {

/// One registered handler.
pub struct Registration<H> {
    pub queue: String,
    pub kind: String,
    pub handler: H,
}

/// Handlers by queue and kind. A later registration for the same queue and
/// kind replaces the earlier one.
pub struct Consumer<H> {
    entries: Vec<Registration<H>>,
}

/// The registered (queue, kind, handler) triples, in order of first
/// registration.
impl<H> View for Consumer<H> {
    type V = Seq<(Seq<char>, Seq<char>, H)>;

    closed spec fn view(&self) -> Seq<(Seq<char>, Seq<char>, H)> {
        self.entries@.map_values(|e: Registration<H>| (e.queue@, e.kind@, e.handler))
    }
}

/// No two entries share a queue and a kind.
pub open spec fn keys_distinct<H>(s: Seq<(Seq<char>, Seq<char>, H)>) -> bool {
    forall|a: int, b: int|
        0 <= a < s.len() && 0 <= b < s.len() && a != b ==> !((#[trigger] s[a]).0 == (
        #[trigger] s[b]).0 && s[a].1 == s[b].1)
}

/// Some entry serves `kind` on `queue`.
pub open spec fn serves<H>(s: Seq<(Seq<char>, Seq<char>, H)>, queue: Seq<char>, kind: Seq<char>) -> bool {
    exists|i: int| 0 <= i < s.len() && (#[trigger] s[i]).0 == queue && s[i].1 == kind
}

/// Some entry is on `queue`.
pub open spec fn has_queue<H>(s: Seq<(Seq<char>, Seq<char>, H)>, queue: Seq<char>) -> bool {
    exists|i: int| 0 <= i < s.len() && (#[trigger] s[i]).0 == queue
}

/// The entries after registering `handler` for `kind` on `queue`: the entry
/// for that pair is replaced in place, or a new one is added at the end.
pub open spec fn registered<H>(
    s: Seq<(Seq<char>, Seq<char>, H)>,
    queue: Seq<char>,
    kind: Seq<char>,
    handler: H,
) -> Seq<(Seq<char>, Seq<char>, H)> {
    if serves(s, queue, kind) {
        let i = choose|i: int| 0 <= i < s.len() && (#[trigger] s[i]).0 == queue && s[i].1 == kind;
        s.update(i, (queue, kind, handler))
    } else {
        s.push((queue, kind, handler))
    }
}

impl<H> Consumer<H> {
    #[verifier::type_invariant]
    spec fn inv(self) -> bool {
        keys_distinct(self@)
    }

    /// The registry keeps one entry per queue and kind.
    pub open spec fn wf(&self) -> bool {
        keys_distinct(self@)
    }

    /// A registry with no handler.
    pub fn new() -> (r: Consumer<H>)
        ensures
            r@ == Seq::<(Seq<char>, Seq<char>, H)>::empty(),
            r.wf(),
    {
        let r = Consumer { entries: Vec::new() };
        assert(r@ =~= Seq::<(Seq<char>, Seq<char>, H)>::empty());
        r
    }

    /// Where the entry for `kind` on `queue` stands.
    fn find(&self, queue: &String, kind: &String) -> (r: Option<usize>)
        ensures
            match r {
                Some(i) => i < self@.len() && self@[i as int].0 == queue@ && self@[i as int].1
                    == kind@,
                None => !serves(self@, queue@, kind@),
            },
    {
        let mut i: usize = 0;
        while i < self.entries.len()
            invariant
                i <= self.entries.len(),
                forall|m: int|
                    0 <= m < i ==> !((#[trigger] self@[m]).0 == queue@ && self@[m].1 == kind@),
            decreases self.entries.len() - i,
        {
            let e = &self.entries[i];
            if e.queue == *queue && e.kind == *kind {
                return Some(i);
            }
            i = i + 1;
        }
        None
    }

    /// Registers `handler` for jobs of `kind` on `queue`, replacing any
    /// handler registered there before.
    pub fn register(self, queue: &str, kind: &str, handler: H) -> (r: Consumer<H>)
        ensures
            r.wf(),
            r@ == registered(self@, queue@, kind@, handler),
    {
        proof {
            use_type_invariant(&self);
        }
        let q = queue.to_owned();
        let k = kind.to_owned();
        let ghost before = self@;
        let found = self.find(&q, &k);
        let mut entries = self.entries;
        match found {
            Some(i) => {
                let ghost j = choose|j: int|
                    0 <= j < before.len() && (#[trigger] before[j]).0 == queue@ && before[j].1
                        == kind@;
                assert(j == i as int);
                entries.set(i, Registration { queue: q, kind: k, handler });
                let ghost after = before.update(i as int, (queue@, kind@, handler));
                assert(entries@.map_values(|e: Registration<H>| (e.queue@, e.kind@, e.handler)) =~= after);
                assert(keys_distinct(after)) by {
                    assert forall|a: int, b: int|
                        0 <= a < after.len() && 0 <= b < after.len() && a != b implies !((
                        #[trigger] after[a]).0 == (#[trigger] after[b]).0 && after[a].1 == after[b].1) by {
                        assert(!(before[a].0 == before[b].0 && before[a].1 == before[b].1));
                    }
                }
                let r = Consumer { entries };
                r
            },
            None => {
                entries.push(Registration { queue: q, kind: k, handler });
                let ghost after = before.push((queue@, kind@, handler));
                assert(entries@.map_values(|e: Registration<H>| (e.queue@, e.kind@, e.handler)) =~= after);
                assert(keys_distinct(after)) by {
                    assert forall|a: int, b: int|
                        0 <= a < after.len() && 0 <= b < after.len() && a != b implies !((
                        #[trigger] after[a]).0 == (#[trigger] after[b]).0 && after[a].1 == after[b].1) by {
                        if a < before.len() && b < before.len() {
                            assert(!(before[a].0 == before[b].0 && before[a].1 == before[b].1));
                        }
                    }
                }
                let r = Consumer { entries };
                r
            },
        }
    }

    /// Registers `handler` for jobs of `kind` on the default queue.
    pub fn register_kind(self, kind: &str, handler: H) -> (r: Consumer<H>)
        ensures
            r.wf(),
            r@ == registered(self@, default_queue(), kind@, handler),
    {
        proof {
            use_type_invariant(&self);
        }
        self.register(DEFAULT_QUEUE, kind, handler)
    }

    /// The handler for jobs of `kind` on `queue`, if one is registered.
    pub fn lookup(&self, queue: &str, kind: &str) -> (r: Option<&H>)
        ensures
            match r {
                Some(h) => exists|i: int|
                    0 <= i < self@.len() && (#[trigger] self@[i]).0 == queue@ && self@[i].1
                        == kind@ && self@[i].2 == *h,
                None => !serves(self@, queue@, kind@),
            },
    {
        proof {
            use_type_invariant(self);
        }
        let q = queue.to_owned();
        let k = kind.to_owned();
        match self.find(&q, &k) {
            Some(i) => Some(&self.entries[i].handler),
            None => None,
        }
    }

    /// The registrations, in order of first registration.
    pub fn handlers(&self) -> (r: &Vec<Registration<H>>)
        ensures
            r@.map_values(|e: Registration<H>| (e.queue@, e.kind@, e.handler)) == self@,
    {
        &self.entries
    }

    /// Whether a handler serves jobs of `kind` on `queue`.
    pub fn handles(&self, queue: &str, kind: &str) -> (r: bool)
        ensures
            r == serves(self@, queue@, kind@),
    {
        self.lookup(queue, kind).is_some()
    }

    /// The distinct queues that have a handler, in order of first
    /// registration: the queues a worker polls.
    pub fn queues(&self) -> (r: Vec<String>)
        ensures
            forall|a: int, b: int|
                0 <= a < r@.len() && 0 <= b < r@.len() && a != b ==> (#[trigger] r@[a])@ != (
                #[trigger] r@[b])@,
            forall|q: Seq<char>| has_queue(self@, q) <==> #[trigger] listed(r@, q),
    {
        let mut out: Vec<String> = Vec::new();
        let mut i: usize = 0;
        while i < self.entries.len()
            invariant
                i <= self.entries.len(),
                forall|a: int, b: int|
                    0 <= a < out@.len() && 0 <= b < out@.len() && a != b ==> (#[trigger] out@[a])@
                        != (#[trigger] out@[b])@,
                forall|q: Seq<char>| has_queue(self@.take(i as int), q) <==> #[trigger] listed(out@, q),
            decreases self.entries.len() - i,
        {
            let name = &self.entries[i].queue;
            let mut seen = false;
            let mut a: usize = 0;
            while a < out.len()
                invariant
                    a <= out.len(),
                    seen == exists|b: int| 0 <= b < a && (#[trigger] out@[b])@ == name@,
                decreases out.len() - a,
            {
                if out[a] == *name {
                    seen = true;
                }
                a = a + 1;
            }
            let ghost old_out = out@;
            if !seen {
                out.push(name.clone());
                proof {
                    assert forall|q: Seq<char>| #[trigger] listed(out@, q) == (listed(old_out, q) || q == name@) by {
                        if q == name@ {
                            assert(out@[old_out.len() as int]@ == q);
                        }
                        if listed(old_out, q) {
                            let b = choose|b: int| 0 <= b < old_out.len() && (#[trigger] old_out[b])@ == q;
                            assert(out@[b] == old_out[b]);
                        }
                        if listed(out@, q) {
                            let b = choose|b: int| 0 <= b < out@.len() && (#[trigger] out@[b])@ == q;
                            if b < old_out.len() {
                                assert(out@[b] == old_out[b]);
                            }
                        }
                    }
                }
            }
            proof {
                assert(self@[i as int].0 == name@);
                assert forall|q: Seq<char>|
                    #[trigger] has_queue(self@.take(i + 1), q) == (has_queue(self@.take(i as int), q)
                        || q == name@) by {
                    if q == name@ {
                        assert(self@.take(i + 1)[i as int].0 == q);
                    }
                    if has_queue(self@.take(i as int), q) {
                        let m = choose|m: int| 0 <= m < i && (#[trigger] self@.take(i as int)[m]).0 == q;
                        assert(self@.take(i + 1)[m] == self@.take(i as int)[m]);
                    }
                    if has_queue(self@.take(i + 1), q) {
                        let m = choose|m: int| 0 <= m < i + 1 && (#[trigger] self@.take(i + 1)[m]).0 == q;
                        if m < i {
                            assert(self@.take(i + 1)[m] == self@.take(i as int)[m]);
                        }
                    }
                }
            }
            i = i + 1;
        }
        assert(self@.take(self@.len() as int) =~= self@);
        out
    }
}

/// How a worker subscribes to one queue: its name and its priority.
pub struct ConsumerQueueOptions {
    pub queue: String,
    pub priority: i8,
}

impl ConsumerQueueOptions {
    /// Options for `queue` at `priority`.
    pub fn new(queue: &str, priority: i8) -> (r: ConsumerQueueOptions)
        ensures
            r.queue@ == queue@,
            r.priority == priority,
    {
        ConsumerQueueOptions { queue: queue.to_owned(), priority }
    }

    /// The same options for another queue; an empty name stands for the
    /// default queue.
    pub fn with_queue(self, queue: String) -> (r: ConsumerQueueOptions)
        ensures
            r.queue@ == (if queue@.len() == 0 {
                default_queue()
            } else {
                queue@
            }),
            r.priority == self.priority,
    {
        let q = if queue.as_str().is_empty() {
            DEFAULT_QUEUE.to_owned()
        } else {
            queue
        };
        ConsumerQueueOptions { queue: q, ..self }
    }

    /// The same options at another priority.
    pub fn with_priority(self, priority: i8) -> (r: ConsumerQueueOptions)
        ensures
            r.queue == self.queue,
            r.priority == priority,
    {
        ConsumerQueueOptions { priority, ..self }
    }
}

impl Default for ConsumerQueueOptions {
    /// The default queue at priority one.
    fn default() -> (r: ConsumerQueueOptions)
        ensures
            r.queue@ == default_queue(),
            r.priority == 1,
    {
        ConsumerQueueOptions::new(DEFAULT_QUEUE, 1)
    }
}

} // verus!
