use vstd::prelude::*;

use crate::handle::RawRef;
use crate::value::{ArgSlot, RawReturn, ReturnKind};

verus! {

/// One entry point of the embedding call table, with its arguments, issued on
/// the calling thread's execution context.
#[derive(Debug)]
pub enum Request {
    NewGlobalRef(RawRef),
    DeleteLocalRef(RawRef),
    DeleteGlobalRef(RawRef),
    ExceptionOccurred,
    ExceptionDescribe,
    ExceptionClear,
    EnsureLocalCapacity(i32),
    /// A qualified type name, without a terminating NUL.
    FindClass(Vec<u8>),
    Invoke { kind: ReturnKind, target: RawRef, method: RawRef, arguments: Vec<ArgSlot> },
    MonitorEnter(RawRef),
    MonitorExit(RawRef),
    /// UTF-8 bytes, without a terminating NUL.
    NewStringUtf(Vec<u8>),
    GetStringUtfChars(RawRef),
    /// The string and the character buffer that was handed out for it.
    ReleaseStringUtfChars(RawRef, RawRef),
}

/// What an entry point handed back.
#[derive(Debug)]
pub enum Reply {
    Nothing,
    Ref(RawRef),
    Code(i32),
    Returned(RawReturn),
    /// A character buffer and the bytes it holds up to its terminating NUL.
    Chars(RawRef, Vec<u8>),
}

/// A request together with its reply.
pub struct Exchange {
    pub request: Request,
    pub reply: Reply,
}

/// What is known of the context's pending-exception slot.
#[derive(Clone, Copy, Debug, PartialEq, Eq, Structural)]
pub enum Slot {
    Empty,
    Raised,
    Unknown,
}

/// A condition that ends an operation abruptly: a broken precondition or an
/// unrecoverable embedding failure.
#[derive(Clone, Copy, Debug, PartialEq, Eq, Structural)]
pub enum Fatal {
    /// A null reference reached promotion.
    NullHandle,
    /// The runtime could not create a durable reference.
    PromotionFailed,
    /// A failure was signalled but no exception was pending.
    MissingException,
    /// Text for the runtime held a NUL byte.
    EmbeddedNul,
    /// Entering or leaving a monitor returned this status.
    MonitorFailed(i32),
    /// The runtime handed out no character buffer.
    CharsUnavailable,
    /// A reply of the wrong shape, or a step after the operation ended.
    Misuse,
}

/// What an operation asks of its driver next.
#[derive(Debug)]
pub enum Step<T> {
    /// Issue this request and hand its reply to the next step.
    Issue(Request),
    /// The operation is complete with this result.
    Finish(T),
    /// The operation ends abruptly.
    Fail(Fatal),
}

/// A reply that names an exception.
pub open spec fn names_exception(r: Reply) -> bool {
    match r {
        Reply::Ref(x) => x.addr != 0,
        _ => false,
    }
}

/// Passes on what a sub-operation asks for, for an operation of another
/// result type: its request or its fatal end. A result where the caller
/// expected none is misuse.
pub fn forward<A, B>(s: Step<A>) -> (r: Step<B>)
    ensures
        s matches Step::Issue(q) ==> r == Step::<B>::Issue(q),
        s matches Step::Fail(f) ==> r == Step::<B>::Fail(f),
        s is Finish ==> r == Step::<B>::Fail(Fatal::Misuse),
{
    match s {
        Step::Issue(q) => Step::Issue(q),
        Step::Fail(f) => Step::Fail(f),
        Step::Finish(_) => Step::Fail(Fatal::Misuse),
    }
}

pub open spec fn is_inspection(q: Request) -> bool {
    q is ExceptionOccurred || q is ExceptionDescribe || q is ExceptionClear
}

/// The slot after one exchange, from the slot before it.
pub open spec fn next_slot(s: Slot, e: Exchange) -> Slot {
    match e.request {
        Request::ExceptionOccurred => match e.reply {
            Reply::Ref(r) => if r.addr == 0 { Slot::Empty } else { Slot::Raised },
            _ => Slot::Unknown,
        },
        Request::ExceptionDescribe => Slot::Empty,
        Request::ExceptionClear => Slot::Empty,
        Request::FindClass(_) => Slot::Unknown,
        Request::Invoke { .. } => Slot::Unknown,
        Request::EnsureLocalCapacity(_) => if e.reply == Reply::Code(0) { s } else { Slot::Unknown },
        Request::MonitorEnter(_) => if e.reply == Reply::Code(0) { s } else { Slot::Unknown },
        Request::MonitorExit(_) => if e.reply == Reply::Code(0) { s } else { Slot::Unknown },
        Request::NewStringUtf(_) => match e.reply {
            Reply::Ref(r) => if r.addr != 0 { s } else { Slot::Unknown },
            _ => Slot::Unknown,
        },
        Request::GetStringUtfChars(_) => match e.reply {
            Reply::Chars(p, _) => if p.addr != 0 { s } else { Slot::Unknown },
            _ => Slot::Unknown,
        },
        _ => s,
    }
}

/// The slot after a sequence of exchanges that began with slot `s0`.
pub open spec fn slot_from(s0: Slot, t: Seq<Exchange>) -> Slot
    decreases t.len(),
{
    if t.len() == 0 {
        s0
    } else {
        next_slot(slot_from(s0, t.drop_last()), t.last())
    }
}

/// Whether no request but an inspection of the slot was issued while the slot
/// might hold an exception.
pub open spec fn disciplined_from(s0: Slot, t: Seq<Exchange>) -> bool
    decreases t.len(),
{
    if t.len() == 0 {
        true
    } else {
        disciplined_from(s0, t.drop_last()) && (slot_from(s0, t.drop_last()) == Slot::Empty
            || is_inspection(t.last().request))
    }
}

/// A sequence of exchanges on a context that started with no pending exception
/// keeps the discipline and leaves no exception pending.
pub open spec fn clean(t: Seq<Exchange>) -> bool {
    disciplined_from(Slot::Empty, t) && slot_from(Slot::Empty, t) == Slot::Empty
}

pub proof fn lemma_push(s0: Slot, t: Seq<Exchange>, e: Exchange)
    ensures
        slot_from(s0, t.push(e)) == next_slot(slot_from(s0, t), e),
        disciplined_from(s0, t.push(e)) == (disciplined_from(s0, t) && (slot_from(s0, t)
            == Slot::Empty || is_inspection(e.request))),
{
    assert(t.push(e).drop_last() =~= t);
}

pub proof fn lemma_push_concat(p: Seq<Exchange>, c: Seq<Exchange>, e: Exchange)
    ensures
        (p + c).push(e) == p + c.push(e),
{
    assert((p + c).push(e) =~= p + c.push(e));
}

/// Running two sequences one after the other: the second starts from the slot
/// that the first left.
pub proof fn lemma_concat(s0: Slot, p: Seq<Exchange>, c: Seq<Exchange>)
    ensures
        slot_from(s0, p + c) == slot_from(slot_from(s0, p), c),
        disciplined_from(s0, p + c) == (disciplined_from(s0, p) && disciplined_from(
            slot_from(s0, p),
            c,
        )),
    decreases c.len(),
{
    if c.len() == 0 {
        assert(p + c =~= p);
    } else {
        lemma_concat(s0, p, c.drop_last());
        assert((p + c).drop_last() =~= p + c.drop_last());
    }
}

} // verus!
