use vstd::prelude::*;

use crate::environment::{lemma_reset, ExceptionCheck};
use crate::handle::RawRef;
use crate::lifecycle::{lemma_neutral, Promotion};
use crate::object::Object;
use crate::protocol::{
    clean, disciplined_from, lemma_concat, lemma_push, lemma_push_concat, names_exception,
    slot_from, Exchange,
    Fatal, Reply, Request, Slot, Step,
};
use crate::value::{ArgSlot, RawReturn, ReturnKind};

verus! {

/// The result of a method call, by return representation. Floating-point
/// results are their IEEE 754 bit patterns; an object result is absent when
/// the method returned null.
#[derive(Debug)]
pub enum Returned {
    Void,
    Bool(bool),
    Byte(i8),
    Short(i16),
    Int(i32),
    Long(i64),
    Float(u32),
    Double(u64),
    Object(Option<Object>),
}

pub open spec fn kind_of(raw: RawReturn) -> ReturnKind {
    match raw {
        RawReturn::Void => ReturnKind::Void,
        RawReturn::Bool(_) => ReturnKind::Bool,
        RawReturn::Byte(_) => ReturnKind::Byte,
        RawReturn::Short(_) => ReturnKind::Short,
        RawReturn::Int(_) => ReturnKind::Int,
        RawReturn::Long(_) => ReturnKind::Long,
        RawReturn::Float(_) => ReturnKind::Float,
        RawReturn::Double(_) => ReturnKind::Double,
        RawReturn::Object(_) => ReturnKind::Object,
    }
}

/// Whether `v` is the outward form of the native return `raw`.
pub open spec fn converts(raw: RawReturn, v: Returned) -> bool {
    match raw {
        RawReturn::Void => v is Void,
        RawReturn::Bool(b) => v == Returned::Bool(b != 0),
        RawReturn::Byte(x) => v == Returned::Byte(x),
        RawReturn::Short(x) => v == Returned::Short(x),
        RawReturn::Int(x) => v == Returned::Int(x),
        RawReturn::Long(x) => v == Returned::Long(x),
        RawReturn::Float(x) => v == Returned::Float(x),
        RawReturn::Double(x) => v == Returned::Double(x),
        RawReturn::Object(h) => match v {
            Returned::Object(o) => (h.addr == 0) == (o is None),
            _ => false,
        },
    }
}

/// A native return with its boolean in the form the outward result keeps.
pub open spec fn normal(raw: RawReturn) -> RawReturn {
    match raw {
        RawReturn::Bool(b) => RawReturn::Bool(if b != 0 { 1u8 } else { 0u8 }),
        _ => raw,
    }
}

/// A call's result in native form, an object as its durable reference.
pub open spec fn returned_view(v: Returned) -> RawReturn {
    match v {
        Returned::Void => RawReturn::Void,
        Returned::Bool(b) => RawReturn::Bool(if b { 1u8 } else { 0u8 }),
        Returned::Byte(x) => RawReturn::Byte(x),
        Returned::Short(x) => RawReturn::Short(x),
        Returned::Int(x) => RawReturn::Int(x),
        Returned::Long(x) => RawReturn::Long(x),
        Returned::Float(x) => RawReturn::Float(x),
        Returned::Double(x) => RawReturn::Double(x),
        Returned::Object(None) => RawReturn::Object(RawRef { addr: 0 }),
        Returned::Object(Some(o)) => RawReturn::Object(o@),
    }
}

/// A step of a call, its result in native form and an exception as its
/// durable reference.
pub open spec fn invocation_view(s: Step<Result<Returned, Object>>) -> Step<Result<RawReturn, RawRef>> {
    match s {
        Step::Issue(q) => Step::Issue(q),
        Step::Fail(f) => Step::Fail(f),
        Step::Finish(Ok(v)) => Step::Finish(Ok(returned_view(v))),
        Step::Finish(Err(e)) => Step::Finish(Err(e@)),
    }
}

/// The native return that a reply carries.
pub open spec fn reply_raw(reply: Reply) -> RawReturn {
    match reply {
        Reply::Returned(raw) => raw,
        _ => RawReturn::Void,
    }
}

pub open spec fn converts_reply(reply: Reply, v: Returned) -> bool {
    match reply {
        Reply::Returned(raw) => converts(raw, v),
        _ => false,
    }
}

/// Whether a reply is a native return of the representation `kind`.
pub open spec fn returns_kind(reply: Reply, kind: ReturnKind) -> bool {
    match reply {
        Reply::Returned(raw) => kind_of(raw) == kind,
        _ => false,
    }
}

/// Reads the shape of a reply to a typed call.
fn raw_of(kind: ReturnKind, reply: &Reply) -> (r: Option<RawReturn>)
    ensures
        match r {
            Some(raw) => *reply == Reply::Returned(raw) && kind_of(raw) == kind,
            None => !returns_kind(*reply, kind),
        },
{
    match reply {
        Reply::Returned(raw) => {
            let same = match (kind, raw) {
                (ReturnKind::Void, RawReturn::Void) => true,
                (ReturnKind::Bool, RawReturn::Bool(_)) => true,
                (ReturnKind::Byte, RawReturn::Byte(_)) => true,
                (ReturnKind::Short, RawReturn::Short(_)) => true,
                (ReturnKind::Int, RawReturn::Int(_)) => true,
                (ReturnKind::Long, RawReturn::Long(_)) => true,
                (ReturnKind::Float, RawReturn::Float(_)) => true,
                (ReturnKind::Double, RawReturn::Double(_)) => true,
                (ReturnKind::Object, RawReturn::Object(_)) => true,
                _ => false,
            };
            if same {
                Some(*raw)
            } else {
                None
            }
        },
        _ => None,
    }
}

/// The outward form of a primitive native return; an object return is left
/// to promotion.
pub fn convert_primitive(raw: RawReturn) -> (v: Returned)
    requires
        !(raw is Object),
    ensures
        converts(raw, v),
        returned_view(v) == normal(raw),
{
    match raw {
        RawReturn::Void => Returned::Void,
        RawReturn::Bool(b) => Returned::Bool(b != 0),
        RawReturn::Byte(x) => Returned::Byte(x),
        RawReturn::Short(x) => Returned::Short(x),
        RawReturn::Int(x) => Returned::Int(x),
        RawReturn::Long(x) => Returned::Long(x),
        RawReturn::Float(x) => Returned::Float(x),
        RawReturn::Double(x) => Returned::Double(x),
        RawReturn::Object(_) => Returned::Object(None),
    }
}

#[derive(Clone, Copy, Debug, PartialEq, Eq, Structural)]
pub enum InvocationPhase {
    Begin,
    AwaitReturn,
    Checking(RawReturn),
    Promoting(RawRef),
    Ended,
}

/// One call of a managed method on a target object, for one return
/// representation: the call, the exception check right after it, and the
/// promotion of an object result.
pub struct Invocation {
    pub kind: ReturnKind,
    pub target: RawRef,
    pub method: RawRef,
    pub arguments: Vec<ArgSlot>,
    pub phase: InvocationPhase,
    pub check: ExceptionCheck,
    pub promotion: Promotion,
    pub sent: Ghost<Vec<ArgSlot>>,
    pub base: Ghost<Seq<Exchange>>,
    pub trace: Ghost<Seq<Exchange>>,
}

impl Invocation {
    pub open spec fn wf(&self) -> bool {
        &&& disciplined_from(Slot::Empty, self.trace@)
        &&& match self.phase {
            InvocationPhase::Begin => self.trace@.len() == 0,
            InvocationPhase::AwaitReturn => self.trace@.len() == 0,
            InvocationPhase::Checking(raw) => {
                &&& self.check.wf()
                &&& !(self.check.phase is Begin)
                &&& !(self.check.phase is Ended)
                &&& self.base@.len() == 1
                &&& self.base@[0].request is Invoke
                &&& self.base@[0].reply == Reply::Returned(raw)
                &&& kind_of(raw) == self.kind
                &&& slot_from(Slot::Empty, self.base@) == Slot::Unknown
                &&& disciplined_from(Slot::Empty, self.base@)
                &&& self.trace@ == self.base@ + self.check.trace@
            },
            InvocationPhase::Promoting(h) => {
                &&& self.promotion.wf()
                &&& self.promotion.owned
                &&& self.promotion.handle == h
                &&& !(self.promotion.phase is Begin)
                &&& !(self.promotion.phase is Ended)
                &&& h.addr != 0
                &&& self.base@.len() == 2
                &&& self.base@[0].request is Invoke
                &&& self.base@[0].reply == Reply::Returned(RawReturn::Object(h))
                &&& self.base@[1].request is ExceptionOccurred
                &&& self.base@[1].reply == Reply::Ref(RawRef { addr: 0 })
                &&& clean(self.base@)
                &&& self.trace@ == self.base@ + self.promotion.trace@
            },
            InvocationPhase::Ended => true,
        }
    }

    /// A call of `method` on `target` through the entry point for `kind`.
    pub fn new(kind: ReturnKind, target: RawRef, method: RawRef, arguments: Vec<ArgSlot>) -> (m:
        Invocation)
        ensures
            m.wf(),
            m.phase is Begin,
            m.kind == kind,
            m.target == target,
            m.method == method,
            m.arguments == arguments,
    {
        Invocation {
            kind,
            target,
            method,
            arguments,
            phase: InvocationPhase::Begin,
            check: ExceptionCheck::new(),
            promotion: Promotion::new(RawRef::null(), true),
            sent: Ghost(arguments),
            base: Ghost(Seq::empty()),
            trace: Ghost(Seq::empty()),
        }
    }

    pub open spec fn awaiting(&self) -> bool {
        !(self.phase is Begin) && !(self.phase is Ended)
    }

    /// The request whose reply is awaited.
    pub open spec fn awaited(&self) -> Request {
        match self.phase {
            InvocationPhase::Checking(_) => self.check.awaited(),
            InvocationPhase::Promoting(_) => self.promotion.awaited(),
            _ => Request::Invoke {
                kind: self.kind,
                target: self.target,
                method: self.method,
                arguments: self.sent@,
            },
        }
    }

    /// What the next step returns for `reply`: after the call, the
    /// exception read decides between the exception and the converted
    /// result, and a non-null object result is promoted first.
    pub open spec fn next_out(&self, reply: Reply) -> Step<Result<RawReturn, RawRef>> {
        match self.phase {
            InvocationPhase::Begin => Step::Issue(
                Request::Invoke {
                    kind: self.kind,
                    target: self.target,
                    method: self.method,
                    arguments: self.arguments,
                },
            ),
            InvocationPhase::AwaitReturn => if returns_kind(reply, self.kind) {
                Step::Issue(Request::ExceptionOccurred)
            } else {
                Step::Fail(Fatal::Misuse)
            },
            InvocationPhase::Checking(raw) => match self.check.next_out(reply) {
                Step::Issue(q) => Step::Issue(q),
                Step::Fail(f) => Step::Fail(f),
                Step::Finish(Some(e)) => Step::Finish(Err(e)),
                Step::Finish(None) => match raw {
                    RawReturn::Object(h) => if h.addr == 0 {
                        Step::Finish(Ok(raw))
                    } else {
                        Step::Issue(Request::NewGlobalRef(h))
                    },
                    _ => Step::Finish(Ok(normal(raw))),
                },
            },
            InvocationPhase::Promoting(_) => match self.promotion.next_out(reply) {
                Step::Issue(q) => Step::Issue(q),
                Step::Fail(f) => Step::Fail(f),
                Step::Finish(g) => Step::Finish(Ok(RawReturn::Object(g))),
            },
            InvocationPhase::Ended => Step::Fail(Fatal::Misuse),
        }
    }

    /// The phase after the next step for `reply`.
    pub open spec fn next_phase(&self, reply: Reply) -> InvocationPhase {
        match self.phase {
            InvocationPhase::Begin => InvocationPhase::AwaitReturn,
            InvocationPhase::AwaitReturn => if returns_kind(reply, self.kind) {
                InvocationPhase::Checking(reply_raw(reply))
            } else {
                InvocationPhase::Ended
            },
            InvocationPhase::Checking(raw) => match self.check.next_out(reply) {
                Step::Issue(_) => InvocationPhase::Checking(raw),
                Step::Finish(None) => match raw {
                    RawReturn::Object(h) => if h.addr == 0 {
                        InvocationPhase::Ended
                    } else {
                        InvocationPhase::Promoting(h)
                    },
                    _ => InvocationPhase::Ended,
                },
                _ => InvocationPhase::Ended,
            },
            InvocationPhase::Promoting(h) => if self.promotion.next_out(reply) is Issue {
                InvocationPhase::Promoting(h)
            } else {
                InvocationPhase::Ended
            },
            InvocationPhase::Ended => InvocationPhase::Ended,
        }
    }

    /// `b` is `a` after one step on `reply`.
    pub open spec fn stepped(a: Invocation, b: Invocation, reply: Reply) -> bool {
        &&& b.kind == a.kind
        &&& b.target == a.target
        &&& b.method == a.method
        &&& b.phase == a.next_phase(reply)
        &&& a.awaiting() ==> b.trace@ == a.trace@.push(Exchange { request: a.awaited(), reply })
        &&& !a.awaiting() ==> b.trace@ == a.trace@
        &&& a.phase is Begin ==> b.sent@ == a.arguments
        &&& a.phase is AwaitReturn && b.phase is Checking ==> b.check.phase is AwaitOccurred
        &&& a.phase is Checking && b.phase is Checking ==> ExceptionCheck::stepped(
            a.check,
            b.check,
            reply,
        )
        &&& (a.phase is Checking && b.phase is Promoting) ==> (b.promotion.handle
            == b.phase->Promoting_0 && b.promotion.owned && b.promotion.phase is AwaitGlobal)
        &&& a.phase is Promoting ==> Promotion::stepped(a.promotion, b.promotion, reply)
    }

    /// Takes the reply to the request issued last (any reply on the first
    /// step) and says what comes next. A finished call has checked and
    /// cleared the pending exception: it fails with the exception exactly
    /// when one was raised, and otherwise returns the converted result.
    pub fn step(&mut self, reply: Reply) -> (r: Step<Result<Returned, Object>>)
        requires
            old(self).wf(),
        ensures
            final(self).wf(),
            final(self).kind == old(self).kind,
            old(self).phase is Begin ==> r == Step::<Result<Returned, Object>>::Issue(
                Request::Invoke {
                    kind: old(self).kind,
                    target: old(self).target,
                    method: old(self).method,
                    arguments: old(self).arguments,
                },
            ),
            old(self).phase is AwaitReturn ==> (r is Issue <==> returns_kind(
                reply,
                old(self).kind,
            )),
            old(self).phase is Ended ==> r == Step::<Result<Returned, Object>>::Fail(
                Fatal::Misuse,
            ),
            !(r is Issue) ==> final(self).phase is Ended,
            r is Finish ==> {
                &&& clean(final(self).trace@)
                &&& final(self).trace@.len() >= 2
                &&& final(self).trace@[0].request is Invoke
                &&& final(self).trace@[1].request is ExceptionOccurred
            },
            r matches Step::Finish(Ok(v)) ==> final(self).trace@[1].reply == Reply::Ref(
                RawRef { addr: 0 },
            ) && converts_reply(final(self).trace@[0].reply, v),
            r matches Step::Finish(Err(e)) ==> e@.addr != 0 && names_exception(
                final(self).trace@[1].reply,
            ),
            invocation_view(r) == old(self).next_out(reply),
            Invocation::stepped(*old(self), *final(self), reply),
    {
        match self.phase {
            InvocationPhase::Begin => {
                let mut arguments: Vec<ArgSlot> = Vec::new();
                std::mem::swap(&mut arguments, &mut self.arguments);
                self.sent = Ghost(arguments);
                self.phase = InvocationPhase::AwaitReturn;
                Step::Issue(
                    Request::Invoke {
                        kind: self.kind,
                        target: self.target,
                        method: self.method,
                        arguments,
                    },
                )
            },
            InvocationPhase::AwaitReturn => {
                let ghost e = Exchange {
                    request: Request::Invoke {
                        kind: self.kind,
                        target: self.target,
                        method: self.method,
                        arguments: self.sent@,
                    },
                    reply,
                };
                proof {
                    lemma_push(Slot::Empty, self.trace@, e);
                }
                self.trace = Ghost(self.trace@.push(e));
                match raw_of(self.kind, &reply) {
                    Some(raw) => {
                        self.base = Ghost(self.trace@);
                        let mut check = ExceptionCheck::new();
                        let first = check.step(Reply::Nothing);
                        proof {
                            assert(self.trace@ =~= self.base@ + check.trace@);
                        }
                        self.check = check;
                        self.phase = InvocationPhase::Checking(raw);
                        match first {
                            Step::Issue(q) => Step::Issue(q),
                            _ => {
                                self.phase = InvocationPhase::Ended;
                                Step::Fail(Fatal::Misuse)
                            },
                        }
                    },
                    None => {
                        self.phase = InvocationPhase::Ended;
                        Step::Fail(Fatal::Misuse)
                    },
                }
            },
            InvocationPhase::Checking(raw) => {
                let ghost before = self.check;
                let step = self.check.step(reply);
                proof {
                    lemma_push_concat(
                        self.base@,
                        before.trace@,
                        Exchange { request: before.awaited(), reply },
                    );
                }
                proof {
                    lemma_concat(Slot::Empty, self.base@, self.check.trace@);
                    if self.check.trace@.len() > 0 {
                        lemma_reset(Slot::Unknown, Slot::Unknown, self.check.trace@);
                    }
                }
                self.trace = Ghost(self.base@ + self.check.trace@);
                match step {
                    Step::Issue(q) => Step::Issue(q),
                    Step::Fail(f) => {
                        self.phase = InvocationPhase::Ended;
                        Step::Fail(f)
                    },
                    Step::Finish(Some(e)) => {
                        proof {
                            assert(self.trace@[1] == self.check.trace@[0]);
                        }
                        self.phase = InvocationPhase::Ended;
                        Step::Finish(Err(e))
                    },
                    Step::Finish(None) => {
                        proof {
                            assert(self.trace@[1] == self.check.trace@[0]);
                        }
                        match raw {
                            RawReturn::Object(h) => {
                                if h.is_null() {
                                    self.phase = InvocationPhase::Ended;
                                    Step::Finish(Ok(Returned::Object(None)))
                                } else {
                                    self.base = Ghost(self.trace@);
                                    let mut promotion = Promotion::new(h, true);
                                    let first = promotion.step(Reply::Nothing);
                                    proof {
                                        assert(self.trace@ =~= self.base@ + promotion.trace@);
                                    }
                                    self.promotion = promotion;
                                    self.phase = InvocationPhase::Promoting(h);
                                    match first {
                                        Step::Issue(q) => Step::Issue(q),
                                        _ => {
                                            self.phase = InvocationPhase::Ended;
                                            Step::Fail(Fatal::Misuse)
                                        },
                                    }
                                }
                            },
                            _ => {
                                self.phase = InvocationPhase::Ended;
                                Step::Finish(Ok(convert_primitive(raw)))
                            },
                        }
                    },
                }
            },
            InvocationPhase::Promoting(h) => {
                let ghost before = self.promotion;
                let step = self.promotion.step(reply);
                proof {
                    lemma_push_concat(
                        self.base@,
                        before.trace@,
                        Exchange { request: before.awaited(), reply },
                    );
                }
                proof {
                    lemma_concat(Slot::Empty, self.base@, self.promotion.trace@);
                    lemma_neutral(Slot::Empty, self.promotion.trace@);
                    assert(self.base@.len() == 2);
                }
                self.trace = Ghost(self.base@ + self.promotion.trace@);
                proof {
                    assert(self.trace@[0] == self.base@[0]);
                    assert(self.trace@[1] == self.base@[1]);
                }
                match step {
                    Step::Issue(q) => Step::Issue(q),
                    Step::Finish(g) => {
                        self.phase = InvocationPhase::Ended;
                        Step::Finish(Ok(Returned::Object(Some(Object::from_durable(g)))))
                    },
                    Step::Fail(f) => {
                        self.phase = InvocationPhase::Ended;
                        Step::Fail(f)
                    },
                }
            },
            InvocationPhase::Ended => Step::Fail(Fatal::Misuse),
        }
    }
}

} // verus!
