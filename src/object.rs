use vstd::prelude::*;

use crate::class::Method;
use crate::handle::RawRef;
use crate::invocation::Invocation;
use crate::lifecycle::Promotion;
use crate::protocol::{clean, disciplined_from, lemma_push, Exchange, Fatal, Reply, Request, Slot, Step};
use crate::value::{marshal_arguments, slot_of, ReturnKind, Value};

verus! {

/// A managed instance held through one durable reference, which this value
/// owns and releases once.
#[derive(Debug)]
pub struct Object {
    handle: RawRef,
}

impl View for Object {
    type V = RawRef;

    closed spec fn view(&self) -> RawRef {
        self.handle
    }
}

impl Object {
    #[verifier::type_invariant]
    spec fn inv(&self) -> bool {
        self.handle.addr != 0
    }

    /// Takes ownership of a durable reference.
    pub fn from_durable(handle: RawRef) -> (o: Object)
        requires
            handle.addr != 0,
        ensures
            o@ == handle,
    {
        Object { handle }
    }

    pub fn as_handle(&self) -> (r: RawRef)
        ensures
            r == self@,
            r.addr != 0,
    {
        proof {
            use_type_invariant(self);
        }
        self.handle
    }

    /// A call of `method` on this object through the entry point for `kind`,
    /// with the arguments in their native form.
    pub fn call_method(&self, kind: ReturnKind, method: &Method, arguments: &[Value]) -> (m:
        Invocation)
        ensures
            m.wf(),
            m.phase is Begin,
            m.kind == kind,
            m.target == self@,
            m.method == method.handle,
            marshalled(m.arguments@, arguments@),
    {
        let args = marshal_arguments(arguments);
        Invocation::new(kind, self.as_handle(), method.handle, args)
    }

    /// A call of `method` through the entry point for void results.
    pub fn call_void_method(&self, method: &Method, arguments: &[Value]) -> (m: Invocation)
        ensures
            m.wf(),
            m.phase is Begin,
            m.kind == ReturnKind::Void,
            m.target == self@,
            m.method == method.handle,
            marshalled(m.arguments@, arguments@),
    {
        self.call_method(ReturnKind::Void, method, arguments)
    }

    /// A call of `method` through the entry point for bool results.
    pub fn call_bool_method(&self, method: &Method, arguments: &[Value]) -> (m: Invocation)
        ensures
            m.wf(),
            m.phase is Begin,
            m.kind == ReturnKind::Bool,
            m.target == self@,
            m.method == method.handle,
            marshalled(m.arguments@, arguments@),
    {
        self.call_method(ReturnKind::Bool, method, arguments)
    }

    /// A call of `method` through the entry point for byte results.
    pub fn call_byte_method(&self, method: &Method, arguments: &[Value]) -> (m: Invocation)
        ensures
            m.wf(),
            m.phase is Begin,
            m.kind == ReturnKind::Byte,
            m.target == self@,
            m.method == method.handle,
            marshalled(m.arguments@, arguments@),
    {
        self.call_method(ReturnKind::Byte, method, arguments)
    }

    /// A call of `method` through the entry point for short results.
    pub fn call_short_method(&self, method: &Method, arguments: &[Value]) -> (m: Invocation)
        ensures
            m.wf(),
            m.phase is Begin,
            m.kind == ReturnKind::Short,
            m.target == self@,
            m.method == method.handle,
            marshalled(m.arguments@, arguments@),
    {
        self.call_method(ReturnKind::Short, method, arguments)
    }

    /// A call of `method` through the entry point for int results.
    pub fn call_int_method(&self, method: &Method, arguments: &[Value]) -> (m: Invocation)
        ensures
            m.wf(),
            m.phase is Begin,
            m.kind == ReturnKind::Int,
            m.target == self@,
            m.method == method.handle,
            marshalled(m.arguments@, arguments@),
    {
        self.call_method(ReturnKind::Int, method, arguments)
    }

    /// A call of `method` through the entry point for long results.
    pub fn call_long_method(&self, method: &Method, arguments: &[Value]) -> (m: Invocation)
        ensures
            m.wf(),
            m.phase is Begin,
            m.kind == ReturnKind::Long,
            m.target == self@,
            m.method == method.handle,
            marshalled(m.arguments@, arguments@),
    {
        self.call_method(ReturnKind::Long, method, arguments)
    }

    /// A call of `method` through the entry point for float results.
    pub fn call_float_method(&self, method: &Method, arguments: &[Value]) -> (m: Invocation)
        ensures
            m.wf(),
            m.phase is Begin,
            m.kind == ReturnKind::Float,
            m.target == self@,
            m.method == method.handle,
            marshalled(m.arguments@, arguments@),
    {
        self.call_method(ReturnKind::Float, method, arguments)
    }

    /// A call of `method` through the entry point for double results.
    pub fn call_double_method(&self, method: &Method, arguments: &[Value]) -> (m: Invocation)
        ensures
            m.wf(),
            m.phase is Begin,
            m.kind == ReturnKind::Double,
            m.target == self@,
            m.method == method.handle,
            marshalled(m.arguments@, arguments@),
    {
        self.call_method(ReturnKind::Double, method, arguments)
    }

    /// A call of `method` through the entry point for object results.
    pub fn call_object_method(&self, method: &Method, arguments: &[Value]) -> (m: Invocation)
        ensures
            m.wf(),
            m.phase is Begin,
            m.kind == ReturnKind::Object,
            m.target == self@,
            m.method == method.handle,
            marshalled(m.arguments@, arguments@),
    {
        self.call_method(ReturnKind::Object, method, arguments)
    }

    /// Enters this object's monitor.
    pub fn enter_monitor(&self) -> (m: MonitorCall)
        ensures
            m.wf(),
            m.phase is Begin,
            m.target == self@,
            m.enter,
    {
        MonitorCall::new(self.as_handle(), true)
    }

    /// Leaves this object's monitor.
    pub fn exit_monitor(&self) -> (m: MonitorCall)
        ensures
            m.wf(),
            m.phase is Begin,
            m.target == self@,
            !m.enter,
    {
        MonitorCall::new(self.as_handle(), false)
    }

    /// A second durable reference to the same instance: the reference this
    /// object holds is borrowed, not released.
    pub fn duplicate(&self) -> (m: Promotion)
        ensures
            m.wf(),
            m.phase is Begin,
            m.handle == self@,
            !m.owned,
    {
        Promotion::new(self.as_handle(), false)
    }

    /// Gives up the durable reference: the request that releases it. The
    /// object is consumed, so its reference cannot be released twice.
    pub fn release(self) -> (r: Request)
        ensures
            r == Request::DeleteGlobalRef(self@),
    {
        Request::DeleteGlobalRef(self.handle)
    }
}

pub open spec fn marshalled(slots: Seq<crate::value::ArgSlot>, values: Seq<Value>) -> bool {
    &&& slots.len() == values.len()
    &&& forall|i: int| 0 <= i < values.len() ==> slots[i] == slot_of(#[trigger] values[i])
}

#[derive(Clone, Copy, Debug, PartialEq, Eq, Structural)]
pub enum MonitorPhase {
    Begin,
    AwaitCode,
    Ended,
}

/// Enters or leaves an object's monitor. Any refusal is fatal.
pub struct MonitorCall {
    pub target: RawRef,
    pub enter: bool,
    pub phase: MonitorPhase,
    pub trace: Ghost<Seq<Exchange>>,
}

impl MonitorCall {
    pub open spec fn request_spec(&self) -> Request {
        if self.enter {
            Request::MonitorEnter(self.target)
        } else {
            Request::MonitorExit(self.target)
        }
    }

    pub open spec fn wf(&self) -> bool {
        &&& disciplined_from(Slot::Empty, self.trace@)
        &&& !(self.phase is Ended) ==> self.trace@.len() == 0
    }

    /// What the next step returns for `reply`.
    pub open spec fn next_out(&self, reply: Reply) -> Step<()> {
        match self.phase {
            MonitorPhase::Begin => Step::Issue(self.request_spec()),
            MonitorPhase::AwaitCode => match reply {
                Reply::Code(c) => if c == 0 {
                    Step::Finish(())
                } else {
                    Step::Fail(Fatal::MonitorFailed(c))
                },
                _ => Step::Fail(Fatal::Misuse),
            },
            MonitorPhase::Ended => Step::Fail(Fatal::Misuse),
        }
    }

    /// The phase after the next step.
    pub open spec fn next_phase(&self) -> MonitorPhase {
        match self.phase {
            MonitorPhase::Begin => MonitorPhase::AwaitCode,
            _ => MonitorPhase::Ended,
        }
    }

    pub fn new(target: RawRef, enter: bool) -> (m: MonitorCall)
        ensures
            m.wf(),
            m.phase is Begin,
            m.target == target,
            m.enter == enter,
    {
        MonitorCall { target, enter, phase: MonitorPhase::Begin, trace: Ghost(Seq::empty()) }
    }

    /// Takes the reply to the request issued last (any reply on the first
    /// step) and says what comes next.
    pub fn step(&mut self, reply: Reply) -> (r: Step<()>)
        requires
            old(self).wf(),
        ensures
            final(self).wf(),
            old(self).phase is Begin ==> r == Step::<()>::Issue(old(self).request_spec()),
            old(self).phase is AwaitCode ==> match reply {
                Reply::Code(c) => if c == 0 {
                    r == Step::<()>::Finish(())
                } else {
                    r == Step::<()>::Fail(Fatal::MonitorFailed(c))
                },
                _ => r == Step::<()>::Fail(Fatal::Misuse),
            },
            old(self).phase is Ended ==> r == Step::<()>::Fail(Fatal::Misuse),
            !(r is Issue) ==> final(self).phase is Ended,
            r == old(self).next_out(reply),
            final(self).phase == old(self).next_phase(),
            final(self).target == old(self).target,
            final(self).enter == old(self).enter,
            old(self).phase is AwaitCode ==> final(self).trace@ == old(self).trace@.push(
                Exchange { request: old(self).request_spec(), reply },
            ),
            !(old(self).phase is AwaitCode) ==> final(self).trace@ == old(self).trace@,
            r is Finish ==> clean(final(self).trace@),
    {
        match self.phase {
            MonitorPhase::Begin => {
                self.phase = MonitorPhase::AwaitCode;
                if self.enter {
                    Step::Issue(Request::MonitorEnter(self.target))
                } else {
                    Step::Issue(Request::MonitorExit(self.target))
                }
            },
            MonitorPhase::AwaitCode => {
                self.phase = MonitorPhase::Ended;
                let ghost e = Exchange { request: self.request_spec(), reply };
                proof {
                    lemma_push(Slot::Empty, self.trace@, e);
                }
                self.trace = Ghost(self.trace@.push(e));
                match reply {
                    Reply::Code(c) => {
                        if c == 0 {
                            Step::Finish(())
                        } else {
                            Step::Fail(Fatal::MonitorFailed(c))
                        }
                    },
                    _ => Step::Fail(Fatal::Misuse),
                }
            },
            MonitorPhase::Ended => Step::Fail(Fatal::Misuse),
        }
    }
}

} // verus!
