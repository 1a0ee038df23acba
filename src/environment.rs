use vstd::prelude::*;

use crate::handle::RawRef;
use crate::lifecycle::{lemma_neutral, Promotion};
use crate::object::Object;
use crate::class::Class;
use crate::protocol::{
    clean, disciplined_from, forward, lemma_concat, lemma_push, lemma_push_concat, names_exception, slot_from,
    Exchange, Fatal, Reply, Request, Slot, Step,
};
use crate::text::{has_nul, nul_free_bytes};
use vstd::utf8::encode_utf8;

verus! {

/// A sequence that starts by reading the pending-exception slot behaves the
/// same whatever the slot held before.
pub proof fn lemma_reset(s0: Slot, s1: Slot, t: Seq<Exchange>)
    requires
        t.len() > 0,
        t[0].request is ExceptionOccurred,
    ensures
        slot_from(s0, t) == slot_from(s1, t),
        disciplined_from(s0, t) == disciplined_from(s1, t),
{
    let p = t.take(1);
    let c = t.skip(1);
    assert(p + c =~= t);
    lemma_concat(s0, p, c);
    lemma_concat(s1, p, c);
    lemma_push(s0, Seq::<Exchange>::empty(), t[0]);
    lemma_push(s1, Seq::<Exchange>::empty(), t[0]);
    assert(Seq::<Exchange>::empty().push(t[0]) =~= p);
}

/// A read of the pending-exception slot that tells the truth: no exception
/// when the slot is known to be empty, one when it is known to hold one.
pub open spec fn truthful_read(s: Slot, reply: Reply) -> bool {
    &&& s == Slot::Empty ==> reply == Reply::Ref(RawRef { addr: 0 })
    &&& s == Slot::Raised ==> names_exception(reply)
}

/// After an operation that leaves the slot empty, as a successful lookup
/// does, the exception read that follows at once finds no exception, and
/// the context stays clean; a check that reads no exception reports none.
pub proof fn lemma_check_after_clean(t: Seq<Exchange>, reply: Reply)
    requires
        clean(t),
        truthful_read(slot_from(Slot::Empty, t), reply),
    ensures
        reply == Reply::Ref(RawRef { addr: 0 }),
        clean(t.push(Exchange { request: Request::ExceptionOccurred, reply })),
{
    lemma_push(Slot::Empty, t, Exchange { request: Request::ExceptionOccurred, reply });
}

/// A step whose result may be an exception, with the exception as its
/// reference.
pub open spec fn result_view<T>(s: Step<Result<T, Object>>) -> Step<Result<T, RawRef>> {
    match s {
        Step::Issue(q) => Step::Issue(q),
        Step::Fail(f) => Step::Fail(f),
        Step::Finish(Ok(v)) => Step::Finish(Ok(v)),
        Step::Finish(Err(e)) => Step::Finish(Err(e@)),
    }
}

/// A step of a lookup, with the type and an exception as their references.
pub open spec fn class_view(s: Step<Result<Class, Object>>) -> Step<Result<RawRef, RawRef>> {
    match s {
        Step::Issue(q) => Step::Issue(q),
        Step::Fail(f) => Step::Fail(f),
        Step::Finish(Ok(c)) => Step::Finish(Ok(c@)),
        Step::Finish(Err(e)) => Step::Finish(Err(e@)),
    }
}

/// A step of an exception check, with the exception as its reference.
pub open spec fn exception_view(s: Step<Option<Object>>) -> Step<Option<RawRef>> {
    match s {
        Step::Issue(q) => Step::Issue(q),
        Step::Fail(f) => Step::Fail(f),
        Step::Finish(None) => Step::Finish(None),
        Step::Finish(Some(o)) => Step::Finish(Some(o@)),
    }
}

#[derive(Clone, Copy, Debug, PartialEq, Eq, Structural)]
pub enum CheckPhase {
    Begin,
    AwaitOccurred,
    AwaitDescribe(RawRef),
    AwaitClear(RawRef),
    Promoting,
    Ended,
}

/// Reads the pending-exception slot; if it is set, reports the exception,
/// clears the slot and hands the exception back as an owned object.
pub struct ExceptionCheck {
    pub phase: CheckPhase,
    pub promotion: Promotion,
    pub prefix: Ghost<Seq<Exchange>>,
    pub trace: Ghost<Seq<Exchange>>,
}

impl ExceptionCheck {
    pub open spec fn wf(&self) -> bool {
        &&& disciplined_from(Slot::Unknown, self.trace@)
        &&& self.trace@.len() > 0 ==> self.trace@[0].request is ExceptionOccurred
        &&& match self.phase {
            CheckPhase::Begin => self.trace@.len() == 0,
            CheckPhase::AwaitOccurred => self.trace@.len() == 0,
            CheckPhase::AwaitDescribe(e) => e.addr != 0 && self.trace@.len() == 1
                && self.trace@[0].reply == Reply::Ref(e)
                && slot_from(Slot::Unknown, self.trace@) == Slot::Raised,
            CheckPhase::AwaitClear(e) => e.addr != 0 && self.trace@.len() == 2
                && self.trace@[0].reply == Reply::Ref(e)
                && slot_from(Slot::Unknown, self.trace@) == Slot::Empty,
            CheckPhase::Promoting => {
                &&& self.promotion.wf()
                &&& self.promotion.owned
                &&& !(self.promotion.phase is Begin)
                &&& !(self.promotion.phase is Ended)
                &&& self.prefix@.len() == 3
                &&& self.prefix@[0].request is ExceptionOccurred
                &&& names_exception(self.prefix@[0].reply)
                &&& slot_from(Slot::Unknown, self.prefix@) == Slot::Empty
                &&& disciplined_from(Slot::Unknown, self.prefix@)
                &&& self.trace@ == self.prefix@ + self.promotion.trace@
            },
            CheckPhase::Ended => true,
        }
    }

    pub fn new() -> (m: ExceptionCheck)
        ensures
            m.wf(),
            m.phase is Begin,
    {
        ExceptionCheck {
            phase: CheckPhase::Begin,
            promotion: Promotion::new(RawRef::null(), true),
            prefix: Ghost(Seq::empty()),
            trace: Ghost(Seq::empty()),
        }
    }

    /// Whether a reply to an issued request is awaited.
    pub open spec fn awaiting(&self) -> bool {
        !(self.phase is Begin) && !(self.phase is Ended)
    }

    /// The request whose reply is awaited.
    pub open spec fn awaited(&self) -> Request {
        match self.phase {
            CheckPhase::AwaitDescribe(_) => Request::ExceptionDescribe,
            CheckPhase::AwaitClear(_) => Request::ExceptionClear,
            CheckPhase::Promoting => self.promotion.awaited(),
            _ => Request::ExceptionOccurred,
        }
    }

    /// What the next step returns for `reply`, the exception as its
    /// durable reference.
    pub open spec fn next_out(&self, reply: Reply) -> Step<Option<RawRef>> {
        match self.phase {
            CheckPhase::Begin => Step::Issue(Request::ExceptionOccurred),
            CheckPhase::AwaitOccurred => match reply {
                Reply::Ref(x) => if x.addr == 0 {
                    Step::Finish(None)
                } else {
                    Step::Issue(Request::ExceptionDescribe)
                },
                _ => Step::Fail(Fatal::Misuse),
            },
            CheckPhase::AwaitDescribe(_) => Step::Issue(Request::ExceptionClear),
            CheckPhase::AwaitClear(x) => Step::Issue(Request::NewGlobalRef(x)),
            CheckPhase::Promoting => match self.promotion.next_out(reply) {
                Step::Issue(q) => Step::Issue(q),
                Step::Fail(f) => Step::Fail(f),
                Step::Finish(g) => Step::Finish(Some(g)),
            },
            CheckPhase::Ended => Step::Fail(Fatal::Misuse),
        }
    }

    /// The phase after the next step for `reply`.
    pub open spec fn next_phase(&self, reply: Reply) -> CheckPhase {
        match self.phase {
            CheckPhase::Begin => CheckPhase::AwaitOccurred,
            CheckPhase::AwaitOccurred => match reply {
                Reply::Ref(x) => if x.addr == 0 {
                    CheckPhase::Ended
                } else {
                    CheckPhase::AwaitDescribe(x)
                },
                _ => CheckPhase::Ended,
            },
            CheckPhase::AwaitDescribe(x) => CheckPhase::AwaitClear(x),
            CheckPhase::AwaitClear(_) => CheckPhase::Promoting,
            CheckPhase::Promoting => if self.promotion.next_out(reply) is Issue {
                CheckPhase::Promoting
            } else {
                CheckPhase::Ended
            },
            CheckPhase::Ended => CheckPhase::Ended,
        }
    }

    /// `b` is `a` after one step on `reply`: the phase and the promotion move
    /// on, and the awaited request is recorded with its reply.
    pub open spec fn stepped(a: ExceptionCheck, b: ExceptionCheck, reply: Reply) -> bool {
        &&& b.phase == a.next_phase(reply)
        &&& a.awaiting() ==> b.trace@ == a.trace@.push(Exchange { request: a.awaited(), reply })
        &&& !a.awaiting() ==> b.trace@ == a.trace@
        &&& a.phase matches CheckPhase::AwaitClear(x) ==> b.promotion.handle == x
            && b.promotion.owned && b.promotion.phase is AwaitGlobal
        &&& a.phase is Promoting ==> Promotion::stepped(a.promotion, b.promotion, reply)
    }

    /// Takes the reply to the request issued last (any reply on the first
    /// step) and says what comes next.
    pub fn step(&mut self, reply: Reply) -> (r: Step<Option<Object>>)
        requires
            old(self).wf(),
        ensures
            final(self).wf(),
            old(self).phase is Begin ==> r == Step::<Option<Object>>::Issue(
                Request::ExceptionOccurred,
            ) && final(self).phase is AwaitOccurred && final(self).trace@ == old(self).trace@,
            old(self).phase is AwaitOccurred ==> match reply {
                Reply::Ref(e) => if e.addr == 0 {
                    r is Finish && r->Finish_0 is None
                } else {
                    r == Step::<Option<Object>>::Issue(Request::ExceptionDescribe)
                },
                _ => r == Step::<Option<Object>>::Fail(Fatal::Misuse),
            },
            old(self).phase is AwaitDescribe ==> r == Step::<Option<Object>>::Issue(
                Request::ExceptionClear,
            ),
            old(self).phase matches CheckPhase::AwaitClear(e) ==> r
                == Step::<Option<Object>>::Issue(Request::NewGlobalRef(e)),
            old(self).phase is Ended ==> r == Step::<Option<Object>>::Fail(Fatal::Misuse),
            old(self).phase is AwaitOccurred ==> final(self).trace@ == old(self).trace@.push(
                Exchange { request: Request::ExceptionOccurred, reply },
            ),
            !(old(self).phase is Begin) && !(old(self).phase is AwaitOccurred) && !(old(self).phase is Ended) ==> final(self).trace@.len() > 0 && final(self).trace@[0]
                == old(self).trace@[0],
            r is Finish ==> slot_from(Slot::Unknown, final(self).trace@) == Slot::Empty,
            r matches Step::Finish(Some(o)) ==> o@.addr != 0 && names_exception(
                final(self).trace@[0].reply,
            ),
            r is Fail ==> final(self).phase is Ended,
            r is Issue ==> !(final(self).phase is Ended) && !(final(self).phase is Begin),
            r matches Step::Finish(None) ==> final(self).trace@.len() == 1 && final(self).trace@[0].reply
                == Reply::Ref(RawRef { addr: 0 }),
            r is Finish ==> final(self).phase is Ended,
            r matches Step::Fail(f) ==> f == Fatal::Misuse || f == Fatal::PromotionFailed,
            exception_view(r) == old(self).next_out(reply),
            ExceptionCheck::stepped(*old(self), *final(self), reply),
    {
        match self.phase {
            CheckPhase::Begin => {
                self.phase = CheckPhase::AwaitOccurred;
                Step::Issue(Request::ExceptionOccurred)
            },
            CheckPhase::AwaitOccurred => {
                let ghost e = Exchange { request: Request::ExceptionOccurred, reply };
                proof {
                    lemma_push(Slot::Unknown, self.trace@, e);
                }
                self.trace = Ghost(self.trace@.push(e));
                match reply {
                    Reply::Ref(x) => {
                        if x.is_null() {
                            self.phase = CheckPhase::Ended;
                            Step::Finish(None)
                        } else {
                            self.phase = CheckPhase::AwaitDescribe(x);
                            Step::Issue(Request::ExceptionDescribe)
                        }
                    },
                    _ => {
                        self.phase = CheckPhase::Ended;
                        Step::Fail(Fatal::Misuse)
                    },
                }
            },
            CheckPhase::AwaitDescribe(x) => {
                let ghost e = Exchange { request: Request::ExceptionDescribe, reply };
                proof {
                    lemma_push(Slot::Unknown, self.trace@, e);
                }
                self.trace = Ghost(self.trace@.push(e));
                self.phase = CheckPhase::AwaitClear(x);
                Step::Issue(Request::ExceptionClear)
            },
            CheckPhase::AwaitClear(x) => {
                let ghost e = Exchange { request: Request::ExceptionClear, reply };
                proof {
                    lemma_push(Slot::Unknown, self.trace@, e);
                }
                self.trace = Ghost(self.trace@.push(e));
                self.prefix = Ghost(self.trace@);
                let mut promotion = Promotion::new(x, true);
                let first = promotion.step(Reply::Nothing);
                proof {
                    assert(self.trace@ =~= self.prefix@ + promotion.trace@);
                }
                self.promotion = promotion;
                self.phase = CheckPhase::Promoting;
                forward(first)
            },
            CheckPhase::Promoting => {
                let ghost before = self.promotion;
                let step = self.promotion.step(reply);
                proof {
                    lemma_concat(Slot::Unknown, self.prefix@, self.promotion.trace@);
                    lemma_neutral(Slot::Empty, self.promotion.trace@);
                    if before.awaiting() {
                        assert(self.prefix@ + self.promotion.trace@ =~= (self.prefix@
                            + before.trace@).push(Exchange { request: before.awaited(), reply }));
                    } else {
                        assert(self.prefix@ + self.promotion.trace@ =~= self.prefix@
                            + before.trace@);
                    }
                }
                self.trace = Ghost(self.prefix@ + self.promotion.trace@);
                match step {
                    Step::Issue(q) => Step::Issue(q),
                    Step::Finish(g) => {
                        self.phase = CheckPhase::Ended;
                        Step::Finish(Some(Object::from_durable(g)))
                    },
                    Step::Fail(f) => {
                        self.phase = CheckPhase::Ended;
                        Step::Fail(f)
                    },
                }
            },
            CheckPhase::Ended => Step::Fail(Fatal::Misuse),
        }
    }
}


/// The execution context of one attached thread, held as the address of its
/// interface. It is used only on that thread.
#[derive(Clone, Copy, Debug, PartialEq, Eq, Structural)]
pub struct Environment {
    pub handle: RawRef,
}

impl Environment {
    pub fn from_handle(handle: RawRef) -> (e: Environment)
        ensures
            e.handle == handle,
    {
        Environment { handle }
    }

    pub fn as_handle(&self) -> (r: RawRef)
        ensures
            r == self.handle,
    {
        self.handle
    }

    /// Asks for room for `capacity` more transient references.
    pub fn ensure_local_capacity(&self, capacity: i32) -> (m: CapacityReservation)
        ensures
            m.wf(),
            m.phase is Begin,
            m.capacity == capacity,
    {
        CapacityReservation::new(capacity)
    }

    /// Resolves a qualified type name.
    pub fn find_class(&self, name: &str) -> (m: ClassLookup)
        ensures
            m.wf(),
            m.phase is Begin,
            m.bytes is None <==> has_nul(encode_utf8(name@)),
            m.bytes matches Some(v) ==> v@ == encode_utf8(name@),
    {
        ClassLookup::new(name)
    }

    /// Reads and clears the pending exception.
    pub fn check_jvm_exception(&self) -> (m: ExceptionCheck)
        ensures
            m.wf(),
            m.phase is Begin,
    {
        ExceptionCheck::new()
    }
}

#[derive(Clone, Copy, Debug, PartialEq, Eq, Structural)]
pub enum ReservePhase {
    Begin,
    AwaitCode,
    Checking,
    Ended,
}

/// Reserves room for transient references. A refusal is explained by the
/// pending exception, which is handed back; a refusal without one is fatal.
pub struct CapacityReservation {
    pub capacity: i32,
    pub phase: ReservePhase,
    pub check: ExceptionCheck,
    pub base: Ghost<Seq<Exchange>>,
    pub trace: Ghost<Seq<Exchange>>,
}

impl CapacityReservation {
    pub open spec fn wf(&self) -> bool {
        &&& disciplined_from(Slot::Empty, self.trace@)
        &&& match self.phase {
            ReservePhase::Begin => self.trace@.len() == 0,
            ReservePhase::AwaitCode => self.trace@.len() == 0,
            ReservePhase::Checking => {
                &&& self.check.wf()
                &&& !(self.check.phase is Begin)
                &&& !(self.check.phase is Ended)
                &&& self.base@.len() == 1
                &&& self.base@[0].request == Request::EnsureLocalCapacity(self.capacity)
                &&& self.base@[0].reply matches Reply::Code(c) && c != 0
                &&& disciplined_from(Slot::Empty, self.base@)
                &&& self.trace@ == self.base@ + self.check.trace@
            },
            ReservePhase::Ended => true,
        }
    }

    pub fn new(capacity: i32) -> (m: CapacityReservation)
        ensures
            m.wf(),
            m.phase is Begin,
            m.capacity == capacity,
    {
        CapacityReservation {
            capacity,
            phase: ReservePhase::Begin,
            check: ExceptionCheck::new(),
            base: Ghost(Seq::empty()),
            trace: Ghost(Seq::empty()),
        }
    }

    pub open spec fn awaiting(&self) -> bool {
        self.phase is AwaitCode || self.phase is Checking
    }

    /// The request whose reply is awaited.
    pub open spec fn awaited(&self) -> Request {
        match self.phase {
            ReservePhase::Checking => self.check.awaited(),
            _ => Request::EnsureLocalCapacity(self.capacity),
        }
    }

    /// What the next step returns for `reply`, an exception as its durable
    /// reference.
    pub open spec fn next_out(&self, reply: Reply) -> Step<Result<(), RawRef>> {
        match self.phase {
            ReservePhase::Begin => Step::Issue(Request::EnsureLocalCapacity(self.capacity)),
            ReservePhase::AwaitCode => match reply {
                Reply::Code(c) => if c == 0 {
                    Step::Finish(Ok(()))
                } else {
                    Step::Issue(Request::ExceptionOccurred)
                },
                _ => Step::Fail(Fatal::Misuse),
            },
            ReservePhase::Checking => match self.check.next_out(reply) {
                Step::Issue(q) => Step::Issue(q),
                Step::Fail(f) => Step::Fail(f),
                Step::Finish(Some(e)) => Step::Finish(Err(e)),
                Step::Finish(None) => Step::Fail(Fatal::MissingException),
            },
            ReservePhase::Ended => Step::Fail(Fatal::Misuse),
        }
    }

    /// The phase after the next step for `reply`.
    pub open spec fn next_phase(&self, reply: Reply) -> ReservePhase {
        match self.phase {
            ReservePhase::Begin => ReservePhase::AwaitCode,
            ReservePhase::AwaitCode => match reply {
                Reply::Code(c) => if c == 0 {
                    ReservePhase::Ended
                } else {
                    ReservePhase::Checking
                },
                _ => ReservePhase::Ended,
            },
            ReservePhase::Checking => if self.check.next_out(reply) is Issue {
                ReservePhase::Checking
            } else {
                ReservePhase::Ended
            },
            ReservePhase::Ended => ReservePhase::Ended,
        }
    }

    /// `b` is `a` after one step on `reply`.
    pub open spec fn stepped(a: CapacityReservation, b: CapacityReservation, reply: Reply) -> bool {
        &&& b.capacity == a.capacity
        &&& b.phase == a.next_phase(reply)
        &&& a.awaiting() ==> b.trace@ == a.trace@.push(Exchange { request: a.awaited(), reply })
        &&& !a.awaiting() ==> b.trace@ == a.trace@
        &&& a.phase is AwaitCode && b.phase is Checking ==> b.check.phase is AwaitOccurred
        &&& a.phase is Checking ==> ExceptionCheck::stepped(a.check, b.check, reply)
    }

    /// Takes the reply to the request issued last (any reply on the first
    /// step) and says what comes next.
    pub fn step(&mut self, reply: Reply) -> (r: Step<Result<(), Object>>)
        requires
            old(self).wf(),
        ensures
            final(self).wf(),
            final(self).capacity == old(self).capacity,
            old(self).phase is Begin ==> r == Step::<Result<(), Object>>::Issue(
                Request::EnsureLocalCapacity(old(self).capacity),
            ),
            old(self).phase is AwaitCode ==> match reply {
                Reply::Code(c) => if c == 0 {
                    r == Step::<Result<(), Object>>::Finish(Ok(()))
                } else {
                    r == Step::<Result<(), Object>>::Issue(Request::ExceptionOccurred)
                },
                _ => r == Step::<Result<(), Object>>::Fail(Fatal::Misuse),
            },
            old(self).phase is Ended ==> r == Step::<Result<(), Object>>::Fail(Fatal::Misuse),
            !(r is Issue) ==> final(self).phase is Ended,
            r is Finish ==> clean(final(self).trace@) && final(self).trace@.len() >= 1
                && final(self).trace@[0].request == Request::EnsureLocalCapacity(
                old(self).capacity,
            ),
            r matches Step::Finish(Ok(_)) ==> final(self).trace@[0].reply == Reply::Code(0),
            r matches Step::Finish(Err(e)) ==> e@.addr != 0 && final(self).trace@.len() >= 2
                && names_exception(final(self).trace@[1].reply),
            r == Step::<Result<(), Object>>::Fail(Fatal::MissingException) ==> final(self).trace@.len() == 2 && final(self).trace@[1].reply == Reply::Ref(RawRef { addr: 0 }),
            result_view(r) == old(self).next_out(reply),
            CapacityReservation::stepped(*old(self), *final(self), reply),
    {
        match self.phase {
            ReservePhase::Begin => {
                self.phase = ReservePhase::AwaitCode;
                Step::Issue(Request::EnsureLocalCapacity(self.capacity))
            },
            ReservePhase::AwaitCode => {
                let ghost e = Exchange {
                    request: Request::EnsureLocalCapacity(self.capacity),
                    reply,
                };
                proof {
                    lemma_push(Slot::Empty, self.trace@, e);
                    lemma_push(Slot::Empty, Seq::empty(), e);
                    assert(Seq::<Exchange>::empty().push(e) =~= self.trace@.push(e));
                }
                self.trace = Ghost(self.trace@.push(e));
                match reply {
                    Reply::Code(c) => {
                        if c == 0 {
                            self.phase = ReservePhase::Ended;
                            Step::Finish(Ok(()))
                        } else {
                            self.base = Ghost(self.trace@);
                            let mut check = ExceptionCheck::new();
                            let first = check.step(Reply::Nothing);
                            proof {
                                assert(self.trace@ =~= self.base@ + check.trace@);
                            }
                            self.check = check;
                            self.phase = ReservePhase::Checking;
                            forward(first)
                        }
                    },
                    _ => {
                        self.phase = ReservePhase::Ended;
                        Step::Fail(Fatal::Misuse)
                    },
                }
            },
            ReservePhase::Checking => {
                let ghost before = self.check;
                let step = self.check.step(reply);
                proof {
                    if before.awaiting() {
                        lemma_push_concat(
                            self.base@,
                            before.trace@,
                            Exchange { request: before.awaited(), reply },
                        );
                    }
                }
                proof {
                    lemma_concat(Slot::Empty, self.base@, self.check.trace@);
                    if self.check.trace@.len() > 0 {
                        lemma_reset(Slot::Unknown, slot_from(Slot::Empty, self.base@), self.check.trace@);
                    }
                }
                self.trace = Ghost(self.base@ + self.check.trace@);
                match step {
                    Step::Issue(q) => Step::Issue(q),
                    Step::Fail(f) => {
                        self.phase = ReservePhase::Ended;
                        Step::Fail(f)
                    },
                    Step::Finish(Some(e)) => {
                        proof {
                            assert(self.trace@[1] == self.check.trace@[0]);
                        }
                        self.phase = ReservePhase::Ended;
                        Step::Finish(Err(e))
                    },
                    Step::Finish(None) => {
                        proof {
                            assert(self.trace@[1] == self.check.trace@[0]);
                        }
                        self.phase = ReservePhase::Ended;
                        Step::Fail(Fatal::MissingException)
                    },
                }
            },
            ReservePhase::Ended => Step::Fail(Fatal::Misuse),
        }
    }
}


#[derive(Clone, Copy, Debug, PartialEq, Eq, Structural)]
pub enum LookupPhase {
    Begin,
    AwaitClass,
    Checking(RawRef),
    Promoting(RawRef),
    Ended,
}

/// Resolves a qualified type name to a type. A failed resolution hands back
/// the runtime's own exception.
pub struct ClassLookup {
    pub bytes: Option<Vec<u8>>,
    pub sent: Ghost<Option<Vec<u8>>>,
    pub phase: LookupPhase,
    pub check: ExceptionCheck,
    pub promotion: Promotion,
    pub base: Ghost<Seq<Exchange>>,
    pub trace: Ghost<Seq<Exchange>>,
}

impl ClassLookup {
    pub open spec fn wf(&self) -> bool {
        &&& disciplined_from(Slot::Empty, self.trace@)
        &&& match self.phase {
            LookupPhase::Begin => self.trace@.len() == 0,
            LookupPhase::AwaitClass => self.trace@.len() == 0,
            LookupPhase::Checking(h) => {
                &&& self.check.wf()
                &&& !(self.check.phase is Begin)
                &&& !(self.check.phase is Ended)
                &&& self.base@.len() == 1
                &&& self.base@[0].request is FindClass
                &&& self.base@[0].reply == Reply::Ref(h)
                &&& disciplined_from(Slot::Empty, self.base@)
                &&& self.trace@ == self.base@ + self.check.trace@
            },
            LookupPhase::Promoting(h) => {
                &&& self.promotion.wf()
                &&& self.promotion.owned
                &&& self.promotion.handle == h
                &&& !(self.promotion.phase is Begin)
                &&& !(self.promotion.phase is Ended)
                &&& self.base@.len() == 2
                &&& self.base@[0].request is FindClass
                &&& self.base@[0].reply == Reply::Ref(h)
                &&& self.base@[1].request is ExceptionOccurred
                &&& self.base@[1].reply == Reply::Ref(RawRef { addr: 0 })
                &&& clean(self.base@)
                &&& self.trace@ == self.base@ + self.promotion.trace@
            },
            LookupPhase::Ended => true,
        }
    }

    pub fn new(name: &str) -> (m: ClassLookup)
        ensures
            m.wf(),
            m.phase is Begin,
            m.bytes is None <==> has_nul(encode_utf8(name@)),
            m.bytes matches Some(v) ==> v@ == encode_utf8(name@),
    {
        let bytes = nul_free_bytes(name);
        ClassLookup {
            sent: Ghost(bytes),
            bytes,
            phase: LookupPhase::Begin,
            check: ExceptionCheck::new(),
            promotion: Promotion::new(RawRef::null(), true),
            base: Ghost(Seq::empty()),
            trace: Ghost(Seq::empty()),
        }
    }

    pub open spec fn awaiting(&self) -> bool {
        !(self.phase is Begin) && !(self.phase is Ended)
    }

    /// The request whose reply is awaited.
    pub open spec fn awaited(&self) -> Request {
        match self.phase {
            LookupPhase::Checking(_) => self.check.awaited(),
            LookupPhase::Promoting(_) => self.promotion.awaited(),
            _ => Request::FindClass(self.sent@.unwrap()),
        }
    }

    /// What the next step returns for `reply`, the type and an exception as
    /// their durable references.
    pub open spec fn next_out(&self, reply: Reply) -> Step<Result<RawRef, RawRef>> {
        match self.phase {
            LookupPhase::Begin => match self.bytes {
                Some(v) => Step::Issue(Request::FindClass(v)),
                None => Step::Fail(Fatal::EmbeddedNul),
            },
            LookupPhase::AwaitClass => match reply {
                Reply::Ref(_) => Step::Issue(Request::ExceptionOccurred),
                _ => Step::Fail(Fatal::Misuse),
            },
            LookupPhase::Checking(h) => match self.check.next_out(reply) {
                Step::Issue(q) => Step::Issue(q),
                Step::Fail(f) => Step::Fail(f),
                Step::Finish(Some(e)) => Step::Finish(Err(e)),
                Step::Finish(None) => if h.addr == 0 {
                    Step::Fail(Fatal::NullHandle)
                } else {
                    Step::Issue(Request::NewGlobalRef(h))
                },
            },
            LookupPhase::Promoting(_) => match self.promotion.next_out(reply) {
                Step::Issue(q) => Step::Issue(q),
                Step::Fail(f) => Step::Fail(f),
                Step::Finish(g) => Step::Finish(Ok(g)),
            },
            LookupPhase::Ended => Step::Fail(Fatal::Misuse),
        }
    }

    /// The phase after the next step for `reply`.
    pub open spec fn next_phase(&self, reply: Reply) -> LookupPhase {
        match self.phase {
            LookupPhase::Begin => if self.bytes is Some {
                LookupPhase::AwaitClass
            } else {
                LookupPhase::Ended
            },
            LookupPhase::AwaitClass => match reply {
                Reply::Ref(h) => LookupPhase::Checking(h),
                _ => LookupPhase::Ended,
            },
            LookupPhase::Checking(h) => match self.check.next_out(reply) {
                Step::Issue(_) => LookupPhase::Checking(h),
                Step::Finish(None) => if h.addr == 0 {
                    LookupPhase::Ended
                } else {
                    LookupPhase::Promoting(h)
                },
                _ => LookupPhase::Ended,
            },
            LookupPhase::Promoting(h) => if self.promotion.next_out(reply) is Issue {
                LookupPhase::Promoting(h)
            } else {
                LookupPhase::Ended
            },
            LookupPhase::Ended => LookupPhase::Ended,
        }
    }

    /// `b` is `a` after one step on `reply`.
    pub open spec fn stepped(a: ClassLookup, b: ClassLookup, reply: Reply) -> bool {
        &&& b.phase == a.next_phase(reply)
        &&& a.awaiting() ==> b.trace@ == a.trace@.push(Exchange { request: a.awaited(), reply })
        &&& !a.awaiting() ==> b.trace@ == a.trace@
        &&& a.phase is AwaitClass && b.phase is Checking ==> b.check.phase is AwaitOccurred
        &&& a.phase is Checking && b.phase is Checking ==> ExceptionCheck::stepped(
            a.check,
            b.check,
            reply,
        )
        &&& (a.phase is Checking && b.phase is Promoting) ==> (b.promotion.handle
            == b.phase->Promoting_0 && b.promotion.owned && b.promotion.phase is AwaitGlobal)
        &&& a.phase is Promoting ==> Promotion::stepped(a.promotion, b.promotion, reply)
    }

    /// Takes the reply to the request issued last (any reply on the first
    /// step) and says what comes next. A finished lookup leaves no exception
    /// pending: it fails with the exception exactly when resolution raised
    /// one, and otherwise returns the type, promoted to a durable reference.
    pub fn step(&mut self, reply: Reply) -> (r: Step<Result<Class, Object>>)
        requires
            old(self).wf(),
        ensures
            final(self).wf(),
            old(self).phase is Begin ==> match old(self).bytes {
                None => r == Step::<Result<Class, Object>>::Fail(Fatal::EmbeddedNul),
                Some(v) => r == Step::<Result<Class, Object>>::Issue(Request::FindClass(v)),
            },
            old(self).phase is AwaitClass ==> (r is Issue <==> reply is Ref),
            old(self).phase is Ended ==> r == Step::<Result<Class, Object>>::Fail(Fatal::Misuse),
            !(r is Issue) ==> final(self).phase is Ended,
            r is Finish ==> {
                &&& clean(final(self).trace@)
                &&& final(self).trace@.len() >= 2
                &&& final(self).trace@[0].request is FindClass
                &&& final(self).trace@[1].request is ExceptionOccurred
            },
            r matches Step::Finish(Ok(c)) ==> final(self).trace@[1].reply == Reply::Ref(
                RawRef { addr: 0 },
            ) && c@.addr != 0,
            r matches Step::Finish(Err(e)) ==> e@.addr != 0 && names_exception(
                final(self).trace@[1].reply,
            ),
            class_view(r) == old(self).next_out(reply),
            ClassLookup::stepped(*old(self), *final(self), reply),
    {
        match self.phase {
            LookupPhase::Begin => {
                let mut bytes: Option<Vec<u8>> = None;
                std::mem::swap(&mut bytes, &mut self.bytes);
                match bytes {
                    Some(v) => {
                        self.phase = LookupPhase::AwaitClass;
                        Step::Issue(Request::FindClass(v))
                    },
                    None => {
                        self.phase = LookupPhase::Ended;
                        Step::Fail(Fatal::EmbeddedNul)
                    },
                }
            },
            LookupPhase::AwaitClass => {
                let ghost e = Exchange { request: Request::FindClass(self.sent@.unwrap()), reply };
                proof {
                    lemma_push(Slot::Empty, self.trace@, e);
                }
                self.trace = Ghost(self.trace@.push(e));
                match reply {
                    Reply::Ref(h) => {
                        self.base = Ghost(self.trace@);
                        let mut check = ExceptionCheck::new();
                        let first = check.step(Reply::Nothing);
                        proof {
                            assert(self.trace@ =~= self.base@ + check.trace@);
                        }
                        self.check = check;
                        self.phase = LookupPhase::Checking(h);
                        forward(first)
                    },
                    _ => {
                        self.phase = LookupPhase::Ended;
                        Step::Fail(Fatal::Misuse)
                    },
                }
            },
            LookupPhase::Checking(h) => {
                let ghost before = self.check;
                let step = self.check.step(reply);
                proof {
                    lemma_push_concat(
                        self.base@,
                        before.trace@,
                        Exchange { request: before.awaited(), reply },
                    );
                }
                proof {
                    lemma_concat(Slot::Empty, self.base@, self.check.trace@);
                    if self.check.trace@.len() > 0 {
                        lemma_reset(Slot::Unknown, slot_from(Slot::Empty, self.base@), self.check.trace@);
                    }
                }
                self.trace = Ghost(self.base@ + self.check.trace@);
                match step {
                    Step::Issue(q) => Step::Issue(q),
                    Step::Fail(f) => {
                        self.phase = LookupPhase::Ended;
                        Step::Fail(f)
                    },
                    Step::Finish(Some(e)) => {
                        proof {
                            assert(self.trace@[1] == self.check.trace@[0]);
                        }
                        self.phase = LookupPhase::Ended;
                        Step::Finish(Err(e))
                    },
                    Step::Finish(None) => {
                        proof {
                            assert(self.trace@[1] == self.check.trace@[0]);
                        }
                        self.base = Ghost(self.trace@);
                        let mut promotion = Promotion::new(h, true);
                        let first = promotion.step(Reply::Nothing);
                        proof {
                            assert(self.trace@ =~= self.base@ + promotion.trace@);
                        }
                        self.promotion = promotion;
                        if matches!(first, Step::Issue(_)) {
                            self.phase = LookupPhase::Promoting(h);
                        } else {
                            self.phase = LookupPhase::Ended;
                        }
                        forward(first)
                    },
                }
            },
            LookupPhase::Promoting(h) => {
                let ghost before = self.promotion;
                let step = self.promotion.step(reply);
                proof {
                    lemma_push_concat(
                        self.base@,
                        before.trace@,
                        Exchange { request: before.awaited(), reply },
                    );
                }
                proof {
                    lemma_concat(Slot::Empty, self.base@, self.promotion.trace@);
                    lemma_neutral(Slot::Empty, self.promotion.trace@);
                }
                self.trace = Ghost(self.base@ + self.promotion.trace@);
                proof {
                    assert(self.trace@[0] == self.base@[0]);
                    assert(self.trace@[1] == self.base@[1]);
                }
                match step {
                    Step::Issue(q) => Step::Issue(q),
                    Step::Finish(g) => {
                        self.phase = LookupPhase::Ended;
                        Step::Finish(Ok(Class::from_durable(g)))
                    },
                    Step::Fail(f) => {
                        self.phase = LookupPhase::Ended;
                        Step::Fail(f)
                    },
                }
            },
            LookupPhase::Ended => Step::Fail(Fatal::Misuse),
        }
    }
}

} // verus!
