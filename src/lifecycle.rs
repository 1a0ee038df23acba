use vstd::prelude::*;

use crate::handle::RawRef;
use crate::protocol::{
    disciplined_from, slot_from, Exchange, Fatal, Reply, Request, Slot, Step,
};

verus! {

/// Requests that neither raise nor inspect the pending-exception slot.
pub open spec fn neutral(t: Seq<Exchange>) -> bool {
    forall|i: int|
        0 <= i < t.len() ==> {
            let q = #[trigger] t[i].request;
            q is NewGlobalRef || q is DeleteLocalRef || q is DeleteGlobalRef
                || q is ReleaseStringUtfChars
        }
}

pub proof fn lemma_neutral(s: Slot, t: Seq<Exchange>)
    requires
        neutral(t),
    ensures
        slot_from(s, t) == s,
        s == Slot::Empty ==> disciplined_from(s, t),
    decreases t.len(),
{
    if t.len() > 0 {
        assert(neutral(t.drop_last()));
        lemma_neutral(s, t.drop_last());
        let _ = t[t.len() - 1].request;
    }
}

/// The durable references alive after a sequence of exchanges, from those
/// alive before it.
pub open spec fn live_after(live: Set<RawRef>, t: Seq<Exchange>) -> Set<RawRef>
    decreases t.len(),
{
    if t.len() == 0 {
        live
    } else {
        let l = live_after(live, t.drop_last());
        let e = t.last();
        match e.request {
            Request::NewGlobalRef(_) => match e.reply {
                Reply::Ref(g) => if g.addr != 0 {
                    l.insert(g)
                } else {
                    l
                },
                _ => l,
            },
            Request::DeleteGlobalRef(h) => l.remove(h),
            _ => l,
        }
    }
}

/// Duplicating an object and then releasing the original leaves the
/// duplicate's reference alive: the duplicate holds a new reference of its
/// own, and the release deletes only the original's.
pub proof fn lemma_duplicate_survives_release(
    live: Set<RawRef>,
    original: RawRef,
    duplicate: RawRef,
    reply: Reply,
)
    requires
        live.contains(original),
        !live.contains(duplicate),
        duplicate.addr != 0,
    ensures
        ({
            let t = seq![
                Exchange { request: Request::NewGlobalRef(original), reply: Reply::Ref(duplicate) },
                Exchange { request: Request::DeleteGlobalRef(original), reply },
            ];
            live_after(live, t).contains(duplicate) && !live_after(live, t).contains(original)
        }),
{
    let t = seq![
        Exchange { request: Request::NewGlobalRef(original), reply: Reply::Ref(duplicate) },
        Exchange { request: Request::DeleteGlobalRef(original), reply },
    ];
    let t1 = t.drop_last();
    assert(t1.drop_last() =~= Seq::<Exchange>::empty());
    assert(live_after(live, t1.drop_last()) == live);
    assert(t1.last() == t[0]);
    assert(live_after(live, t1) == live.insert(duplicate));
    assert(t.last() == t[1]);
    assert(duplicate != original);
}

#[derive(Clone, Copy, Debug, PartialEq, Eq, Structural)]
pub enum PromotionPhase {
    Begin,
    AwaitGlobal,
    AwaitDelete(RawRef),
    Ended,
}

/// Turns a transient reference into a durable one. When the transient
/// reference is owned, it is deleted once the durable one exists.
pub struct Promotion {
    pub handle: RawRef,
    pub owned: bool,
    pub phase: PromotionPhase,
    pub trace: Ghost<Seq<Exchange>>,
}

impl Promotion {
    pub open spec fn wf(&self) -> bool {
        &&& neutral(self.trace@)
        &&& match self.phase {
            PromotionPhase::Begin => self.trace@.len() == 0,
            PromotionPhase::AwaitGlobal => self.trace@.len() == 0 && self.handle.addr != 0,
            PromotionPhase::AwaitDelete(g) => self.owned && g.addr != 0 && self.trace@.len() == 1,
            PromotionPhase::Ended => true,
        }
    }

    /// Promotes `handle`; `owned` says whether the caller owns it, in which
    /// case it is released after promotion.
    pub fn new(handle: RawRef, owned: bool) -> (m: Promotion)
        ensures
            m.wf(),
            m.phase is Begin,
            m.handle == handle,
            m.owned == owned,
            m.trace@.len() == 0,
    {
        Promotion { handle, owned, phase: PromotionPhase::Begin, trace: Ghost(Seq::empty()) }
    }

    /// Whether a reply to an issued request is awaited.
    pub open spec fn awaiting(&self) -> bool {
        self.phase is AwaitGlobal || self.phase is AwaitDelete
    }

    /// The request whose reply is awaited.
    pub open spec fn awaited(&self) -> Request {
        match self.phase {
            PromotionPhase::AwaitDelete(_) => Request::DeleteLocalRef(self.handle),
            _ => Request::NewGlobalRef(self.handle),
        }
    }

    /// What the next step returns for `reply`.
    pub open spec fn next_out(&self, reply: Reply) -> Step<RawRef> {
        match self.phase {
            PromotionPhase::Begin => if self.handle.addr == 0 {
                Step::Fail(Fatal::NullHandle)
            } else {
                Step::Issue(Request::NewGlobalRef(self.handle))
            },
            PromotionPhase::AwaitGlobal => match reply {
                Reply::Ref(g) => if g.addr == 0 {
                    Step::Fail(Fatal::PromotionFailed)
                } else if self.owned {
                    Step::Issue(Request::DeleteLocalRef(self.handle))
                } else {
                    Step::Finish(g)
                },
                _ => Step::Fail(Fatal::Misuse),
            },
            PromotionPhase::AwaitDelete(g) => Step::Finish(g),
            PromotionPhase::Ended => Step::Fail(Fatal::Misuse),
        }
    }

    /// The phase after the next step for `reply`.
    pub open spec fn next_phase(&self, reply: Reply) -> PromotionPhase {
        match self.phase {
            PromotionPhase::Begin => if self.handle.addr == 0 {
                PromotionPhase::Ended
            } else {
                PromotionPhase::AwaitGlobal
            },
            PromotionPhase::AwaitGlobal => match reply {
                Reply::Ref(g) => if g.addr != 0 && self.owned {
                    PromotionPhase::AwaitDelete(g)
                } else {
                    PromotionPhase::Ended
                },
                _ => PromotionPhase::Ended,
            },
            _ => PromotionPhase::Ended,
        }
    }

    /// `b` is `a` after one step on `reply`: the phase moves on, and the
    /// awaited request is recorded with its reply.
    pub open spec fn stepped(a: Promotion, b: Promotion, reply: Reply) -> bool {
        &&& b.handle == a.handle
        &&& b.owned == a.owned
        &&& b.phase == a.next_phase(reply)
        &&& a.awaiting() ==> b.trace@ == a.trace@.push(Exchange { request: a.awaited(), reply })
        &&& !a.awaiting() ==> b.trace@ == a.trace@
    }

    /// Takes the reply to the request issued last (any reply on the first
    /// step) and says what comes next.
    pub fn step(&mut self, reply: Reply) -> (r: Step<RawRef>)
        requires
            old(self).wf(),
        ensures
            final(self).wf(),
            r == old(self).next_out(reply),
            Promotion::stepped(*old(self), *final(self), reply),
            !(r is Issue) ==> final(self).phase is Ended,
            r is Issue ==> !(final(self).phase is Ended) && !(final(self).phase is Begin),
            r matches Step::Finish(g) ==> g.addr != 0,
    {
        let phase = self.phase;
        self.phase = PromotionPhase::Ended;
        match phase {
            PromotionPhase::Begin => {
                if self.handle.is_null() {
                    Step::Fail(Fatal::NullHandle)
                } else {
                    self.phase = PromotionPhase::AwaitGlobal;
                    Step::Issue(Request::NewGlobalRef(self.handle))
                }
            },
            PromotionPhase::AwaitGlobal => {
                let ghost e = Exchange { request: Request::NewGlobalRef(self.handle), reply };
                proof {
                    assert forall|i: int| 0 <= i < self.trace@.push(e).len() implies {
                        let q = #[trigger] self.trace@.push(e)[i].request;
                        q is NewGlobalRef || q is DeleteLocalRef || q is DeleteGlobalRef
                            || q is ReleaseStringUtfChars
                    } by {
                        if i < self.trace@.len() {
                            let _ = self.trace@[i].request;
                        }
                    }
                }
                self.trace = Ghost(self.trace@.push(e));
                match reply {
                    Reply::Ref(g) => {
                        if g.is_null() {
                            Step::Fail(Fatal::PromotionFailed)
                        } else if self.owned {
                            self.phase = PromotionPhase::AwaitDelete(g);
                            Step::Issue(Request::DeleteLocalRef(self.handle))
                        } else {
                            Step::Finish(g)
                        }
                    },
                    _ => Step::Fail(Fatal::Misuse),
                }
            },
            PromotionPhase::AwaitDelete(g) => {
                let ghost e = Exchange { request: Request::DeleteLocalRef(self.handle), reply };
                proof {
                    assert forall|i: int| 0 <= i < self.trace@.push(e).len() implies {
                        let q = #[trigger] self.trace@.push(e)[i].request;
                        q is NewGlobalRef || q is DeleteLocalRef || q is DeleteGlobalRef
                            || q is ReleaseStringUtfChars
                    } by {
                        if i < self.trace@.len() {
                            let _ = self.trace@[i].request;
                        }
                    }
                }
                self.trace = Ghost(self.trace@.push(e));
                Step::Finish(g)
            },
            PromotionPhase::Ended => Step::Fail(Fatal::Misuse),
        }
    }
}

} // verus!
