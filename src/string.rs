use vstd::prelude::*;
use vstd::utf8::{decode_utf8, encode_utf8, valid_utf8};

use crate::handle::RawRef;
use crate::lifecycle::{lemma_neutral, Promotion};
use crate::object::Object;
use crate::protocol::{
    clean, disciplined_from, forward, lemma_concat, lemma_push, lemma_push_concat, Exchange, Fatal, Reply, Request, Slot, Step,
};
use crate::text::{has_nul, nul_free_bytes};

verus! {

/// Relies on std::str::from_utf8: it accepts exactly the valid UTF-8
/// sequences, and the text it hands back is made of exactly those bytes.
#[verifier::external_body]
fn utf8_text(b: &[u8]) -> (r: Option<&str>)
    ensures
        r is Some <==> valid_utf8(b@),
        r matches Some(t) ==> encode_utf8(t@) == b@,
{
    std::str::from_utf8(b).ok()
}

/// The text that extraction yields for the bytes the runtime handed out:
/// their decoding when they are valid UTF-8, else the empty text.
pub open spec fn lossy_text(b: Seq<u8>) -> Seq<char> {
    if valid_utf8(b) {
        decode_utf8(b)
    } else {
        Seq::empty()
    }
}

/// The character buffer of a reply.
pub open spec fn buffer_of(r: Reply) -> RawRef {
    match r {
        Reply::Chars(p, _) => p,
        _ => RawRef { addr: 0 },
    }
}

/// The text extracted from a reply that hands out a character buffer.
pub open spec fn text_of(r: Reply) -> Seq<char> {
    match r {
        Reply::Chars(_, b) => lossy_text(b@),
        _ => Seq::empty(),
    }
}

/// A step of construction, the string as its durable reference.
pub open spec fn string_view(s: Step<String>) -> Step<RawRef> {
    match s {
        Step::Issue(q) => Step::Issue(q),
        Step::Fail(f) => Step::Fail(f),
        Step::Finish(t) => Step::Finish(t@),
    }
}

/// A step of extraction, the text as its characters.
pub open spec fn text_view(s: Step<std::string::String>) -> Step<Seq<char>> {
    match s {
        Step::Issue(q) => Step::Issue(q),
        Step::Fail(f) => Step::Fail(f),
        Step::Finish(t) => Step::Finish(t@),
    }
}

/// Decodes UTF-8 bytes; bytes that do not decode give the empty string.
pub fn decode_lossy(b: &[u8]) -> (r: std::string::String)
    ensures
        r@ == lossy_text(b@),
{
    match utf8_text(b) {
        Some(t) => {
            proof {
                vstd::utf8::encode_utf8_decode_utf8(t@);
            }
            t.to_owned()
        },
        None => {
            let e = "";
            proof {
                reveal_strlit("");
            }
            e.to_owned()
        },
    }
}

/// Text made of NUL-free UTF-8 bytes comes back unchanged from the decoding
/// that extraction applies.
pub proof fn lemma_text_round_trip(s: Seq<char>)
    requires
        !has_nul(encode_utf8(s)),
    ensures
        lossy_text(encode_utf8(s)) == s,
{
    vstd::utf8::encode_utf8_valid_utf8(s);
    vstd::utf8::encode_utf8_decode_utf8(s);
}

/// Bytes that are not valid UTF-8 give the empty text.
pub proof fn lemma_invalid_is_empty(b: Seq<u8>)
    requires
        !valid_utf8(b),
    ensures
        lossy_text(b) == Seq::<char>::empty(),
{
}

/// A managed string, held through one durable reference that this value
/// owns and releases once.
#[derive(Debug)]
pub struct String {
    handle: RawRef,
}

impl View for String {
    type V = RawRef;

    closed spec fn view(&self) -> RawRef {
        self.handle
    }
}

impl String {
    #[verifier::type_invariant]
    spec fn inv(&self) -> bool {
        self.handle.addr != 0
    }

    /// Takes ownership of a durable reference to a managed string.
    pub fn from_durable(handle: RawRef) -> (s: String)
        requires
            handle.addr != 0,
        ensures
            s@ == handle,
    {
        String { handle }
    }

    pub fn as_handle(&self) -> (r: RawRef)
        ensures
            r == self@,
            r.addr != 0,
    {
        proof {
            use_type_invariant(self);
        }
        self.handle
    }

    /// Reads an object as a managed string. Nothing here can check that the
    /// instance is a string: the caller vouches for it.
    pub fn from_object(object: Object) -> (s: String)
        ensures
            s@ == object@,
    {
        let h = object.as_handle();
        String { handle: h }
    }

    /// Builds a managed string from `text`.
    pub fn from_str(text: &str) -> (m: StringConstruction)
        ensures
            m.wf(),
            m.phase is Begin,
            m.bytes is None <==> has_nul(encode_utf8(text@)),
            m.bytes matches Some(v) ==> v@ == encode_utf8(text@),
    {
        StringConstruction::new(text)
    }

    /// Reads the string's text back.
    pub fn to_string(&self) -> (m: StringExtraction)
        ensures
            m.wf(),
            m.phase is Begin,
            m.string == self@,
    {
        proof {
            use_type_invariant(self);
        }
        StringExtraction::new(self.handle)
    }

    /// The request that releases the string's durable reference.
    pub fn release(self) -> (r: Request)
        ensures
            r == Request::DeleteGlobalRef(self@),
    {
        Request::DeleteGlobalRef(self.handle)
    }
}

#[derive(Clone, Copy, Debug, PartialEq, Eq, Structural)]
pub enum ConstructPhase {
    Begin,
    AwaitString,
    Promoting,
    Ended,
}

/// Creates a managed string from UTF-8 text and promotes it.
pub struct StringConstruction {
    pub bytes: Option<Vec<u8>>,
    pub phase: ConstructPhase,
    pub promotion: Promotion,
    pub sent: Ghost<Option<Vec<u8>>>,
    pub base: Ghost<Seq<Exchange>>,
    pub trace: Ghost<Seq<Exchange>>,
}

impl StringConstruction {
    pub open spec fn wf(&self) -> bool {
        &&& disciplined_from(Slot::Empty, self.trace@)
        &&& !(self.phase is Ended) ==> clean(self.trace@)
        &&& match self.phase {
            ConstructPhase::Begin => self.trace@.len() == 0 && self.sent@ == self.bytes,
            ConstructPhase::AwaitString => self.trace@.len() == 0 && self.sent@ is Some,
            ConstructPhase::Promoting => {
                &&& self.promotion.wf()
                &&& self.promotion.owned
                &&& !(self.promotion.phase is Begin)
                &&& !(self.promotion.phase is Ended)
                &&& self.base@.len() == 1
                &&& self.base@[0] == Exchange {
                    request: Request::NewStringUtf(self.sent@.unwrap()),
                    reply: Reply::Ref(self.promotion.handle),
                }
                &&& clean(self.base@)
                &&& self.trace@ == self.base@ + self.promotion.trace@
            },
            ConstructPhase::Ended => true,
        }
    }

    pub fn new(text: &str) -> (m: StringConstruction)
        ensures
            m.wf(),
            m.phase is Begin,
            m.bytes is None <==> has_nul(encode_utf8(text@)),
            m.bytes matches Some(v) ==> v@ == encode_utf8(text@),
    {
        let bytes = nul_free_bytes(text);
        StringConstruction {
            sent: Ghost(bytes),
            bytes,
            phase: ConstructPhase::Begin,
            promotion: Promotion::new(RawRef::null(), true),
            base: Ghost(Seq::empty()),
            trace: Ghost(Seq::empty()),
        }
    }

    pub open spec fn awaiting(&self) -> bool {
        self.phase is AwaitString || self.phase is Promoting
    }

    /// The request whose reply is awaited.
    pub open spec fn awaited(&self) -> Request {
        match self.phase {
            ConstructPhase::Promoting => self.promotion.awaited(),
            _ => Request::NewStringUtf(self.sent@.unwrap()),
        }
    }

    /// What the next step returns for `reply`, the string as its durable
    /// reference.
    pub open spec fn next_out(&self, reply: Reply) -> Step<RawRef> {
        match self.phase {
            ConstructPhase::Begin => match self.bytes {
                Some(v) => Step::Issue(Request::NewStringUtf(v)),
                None => Step::Fail(Fatal::EmbeddedNul),
            },
            ConstructPhase::AwaitString => match reply {
                Reply::Ref(h) => if h.addr == 0 {
                    Step::Fail(Fatal::NullHandle)
                } else {
                    Step::Issue(Request::NewGlobalRef(h))
                },
                _ => Step::Fail(Fatal::Misuse),
            },
            ConstructPhase::Promoting => self.promotion.next_out(reply),
            ConstructPhase::Ended => Step::Fail(Fatal::Misuse),
        }
    }

    /// The phase after the next step for `reply`.
    pub open spec fn next_phase(&self, reply: Reply) -> ConstructPhase {
        match self.phase {
            ConstructPhase::Begin => if self.bytes is Some {
                ConstructPhase::AwaitString
            } else {
                ConstructPhase::Ended
            },
            ConstructPhase::AwaitString => match reply {
                Reply::Ref(h) => if h.addr == 0 {
                    ConstructPhase::Ended
                } else {
                    ConstructPhase::Promoting
                },
                _ => ConstructPhase::Ended,
            },
            ConstructPhase::Promoting => if self.promotion.next_out(reply) is Issue {
                ConstructPhase::Promoting
            } else {
                ConstructPhase::Ended
            },
            ConstructPhase::Ended => ConstructPhase::Ended,
        }
    }

    /// `b` is `a` after one step on `reply`.
    pub open spec fn stepped(a: StringConstruction, b: StringConstruction, reply: Reply) -> bool {
        &&& b.phase == a.next_phase(reply)
        &&& a.awaiting() ==> b.trace@ == a.trace@.push(Exchange { request: a.awaited(), reply })
        &&& !a.awaiting() ==> b.trace@ == a.trace@
        &&& (a.phase is AwaitString && b.phase is Promoting) ==> (b.promotion.handle
            == reply->Ref_0 && b.promotion.owned && b.promotion.phase is AwaitGlobal)
        &&& a.phase is Promoting ==> Promotion::stepped(a.promotion, b.promotion, reply)
    }

    /// Takes the reply to the request issued last (any reply on the first
    /// step) and says what comes next.
    pub fn step(&mut self, reply: Reply) -> (r: Step<String>)
        requires
            old(self).wf(),
        ensures
            final(self).wf(),
            old(self).phase is Begin ==> match old(self).bytes {
                None => r == Step::<String>::Fail(Fatal::EmbeddedNul),
                Some(v) => r == Step::<String>::Issue(Request::NewStringUtf(v)),
            },
            old(self).phase is AwaitString ==> match reply {
                Reply::Ref(h) => if h.addr == 0 {
                    r == Step::<String>::Fail(Fatal::NullHandle)
                } else {
                    r == Step::<String>::Issue(Request::NewGlobalRef(h))
                },
                _ => r == Step::<String>::Fail(Fatal::Misuse),
            },
            old(self).phase is Ended ==> r == Step::<String>::Fail(Fatal::Misuse),
            !(r is Issue) ==> final(self).phase is Ended,
            r matches Step::Finish(s) ==> s@.addr != 0 && final(self).trace@.len() >= 1
                && final(self).trace@[0].request == Request::NewStringUtf(final(self).sent@.unwrap()),
            r is Finish ==> clean(final(self).trace@),
            string_view(r) == old(self).next_out(reply),
            StringConstruction::stepped(*old(self), *final(self), reply),
    {
        match self.phase {
            ConstructPhase::Begin => {
                let mut bytes: Option<Vec<u8>> = None;
                std::mem::swap(&mut bytes, &mut self.bytes);
                match bytes {
                    Some(v) => {
                        self.phase = ConstructPhase::AwaitString;
                        Step::Issue(Request::NewStringUtf(v))
                    },
                    None => {
                        self.phase = ConstructPhase::Ended;
                        Step::Fail(Fatal::EmbeddedNul)
                    },
                }
            },
            ConstructPhase::AwaitString => {
                let ghost e = Exchange { request: Request::NewStringUtf(self.sent@.unwrap()), reply };
                proof {
                    lemma_push(Slot::Empty, self.trace@, e);
                }
                self.trace = Ghost(self.trace@.push(e));
                match reply {
                    Reply::Ref(h) => {
                        if h.is_null() {
                            self.phase = ConstructPhase::Ended;
                            Step::Fail(Fatal::NullHandle)
                        } else {
                            self.base = Ghost(self.trace@);
                            let mut promotion = Promotion::new(h, true);
                            let first = promotion.step(Reply::Nothing);
                            proof {
                                assert(self.trace@ =~= self.base@ + promotion.trace@);
                                assert(self.base@[0] == e);
                            }
                            self.promotion = promotion;
                            self.phase = ConstructPhase::Promoting;
                            forward(first)
                        }
                    },
                    _ => {
                        self.phase = ConstructPhase::Ended;
                        Step::Fail(Fatal::Misuse)
                    },
                }
            },
            ConstructPhase::Promoting => {
                let ghost before = self.promotion;
                let step = self.promotion.step(reply);
                proof {
                    lemma_push_concat(
                        self.base@,
                        before.trace@,
                        Exchange { request: before.awaited(), reply },
                    );
                }
                proof {
                    lemma_concat(Slot::Empty, self.base@, self.promotion.trace@);
                    lemma_neutral(Slot::Empty, self.promotion.trace@);
                }
                self.trace = Ghost(self.base@ + self.promotion.trace@);
                proof {
                    assert(self.trace@[0] == self.base@[0]);
                }
                match step {
                    Step::Issue(q) => Step::Issue(q),
                    Step::Finish(g) => {
                        self.phase = ConstructPhase::Ended;
                        Step::Finish(String::from_durable(g))
                    },
                    Step::Fail(f) => {
                        self.phase = ConstructPhase::Ended;
                        Step::Fail(f)
                    },
                }
            },
            ConstructPhase::Ended => Step::Fail(Fatal::Misuse),
        }
    }
}

#[derive(Clone, Copy, Debug, PartialEq, Eq, Structural)]
pub enum ExtractPhase {
    Begin,
    AwaitChars,
    AwaitRelease,
    Ended,
}

/// Reads a managed string's text: borrows its character buffer, decodes it
/// and gives the buffer back.
pub struct StringExtraction {
    pub string: RawRef,
    pub phase: ExtractPhase,
    pub text: std::string::String,
    pub trace: Ghost<Seq<Exchange>>,
}

impl StringExtraction {
    pub open spec fn wf(&self) -> bool {
        &&& disciplined_from(Slot::Empty, self.trace@)
        &&& !(self.phase is Ended) ==> clean(self.trace@)
        &&& match self.phase {
            ExtractPhase::Begin => self.trace@.len() == 0,
            ExtractPhase::AwaitChars => self.trace@.len() == 0,
            ExtractPhase::AwaitRelease => self.trace@.len() == 1 && self.trace@[0].request
                == Request::GetStringUtfChars(self.string) && self.trace@[0].reply is Chars
                && buffer_of(self.trace@[0].reply).addr != 0 && self.text@ == text_of(
                self.trace@[0].reply,
            ),
            ExtractPhase::Ended => true,
        }
    }

    pub fn new(string: RawRef) -> (m: StringExtraction)
        ensures
            m.wf(),
            m.phase is Begin,
            m.string == string,
    {
        StringExtraction {
            string,
            phase: ExtractPhase::Begin,
            text: std::string::String::new(),
            trace: Ghost(Seq::empty()),
        }
    }

    pub open spec fn awaiting(&self) -> bool {
        self.phase is AwaitChars || self.phase is AwaitRelease
    }

    /// The request whose reply is awaited.
    pub open spec fn awaited(&self) -> Request {
        match self.phase {
            ExtractPhase::AwaitRelease => Request::ReleaseStringUtfChars(
                self.string,
                buffer_of(self.trace@[0].reply),
            ),
            _ => Request::GetStringUtfChars(self.string),
        }
    }

    /// What the next step returns for `reply`, the text as its characters.
    pub open spec fn next_out(&self, reply: Reply) -> Step<Seq<char>> {
        match self.phase {
            ExtractPhase::Begin => Step::Issue(Request::GetStringUtfChars(self.string)),
            ExtractPhase::AwaitChars => match reply {
                Reply::Chars(p, _) => if p.addr == 0 {
                    Step::Fail(Fatal::CharsUnavailable)
                } else {
                    Step::Issue(Request::ReleaseStringUtfChars(self.string, p))
                },
                _ => Step::Fail(Fatal::Misuse),
            },
            ExtractPhase::AwaitRelease => Step::Finish(text_of(self.trace@[0].reply)),
            ExtractPhase::Ended => Step::Fail(Fatal::Misuse),
        }
    }

    /// The phase after the next step for `reply`.
    pub open spec fn next_phase(&self, reply: Reply) -> ExtractPhase {
        match self.phase {
            ExtractPhase::Begin => ExtractPhase::AwaitChars,
            ExtractPhase::AwaitChars => match reply {
                Reply::Chars(p, _) => if p.addr == 0 {
                    ExtractPhase::Ended
                } else {
                    ExtractPhase::AwaitRelease
                },
                _ => ExtractPhase::Ended,
            },
            _ => ExtractPhase::Ended,
        }
    }

    /// Takes the reply to the request issued last (any reply on the first
    /// step) and says what comes next. The text is the decoding of the
    /// buffer's bytes, or empty when they are not valid UTF-8.
    pub fn step(&mut self, reply: Reply) -> (r: Step<std::string::String>)
        requires
            old(self).wf(),
        ensures
            final(self).wf(),
            final(self).string == old(self).string,
            old(self).phase is Begin ==> r == Step::<std::string::String>::Issue(
                Request::GetStringUtfChars(old(self).string),
            ),
            old(self).phase is AwaitChars ==> match reply {
                Reply::Chars(p, _) => if p.addr == 0 {
                    r == Step::<std::string::String>::Fail(Fatal::CharsUnavailable)
                } else {
                    r == Step::<std::string::String>::Issue(
                        Request::ReleaseStringUtfChars(old(self).string, p),
                    )
                },
                _ => r == Step::<std::string::String>::Fail(Fatal::Misuse),
            },
            old(self).phase is Ended ==> r == Step::<std::string::String>::Fail(Fatal::Misuse),
            !(r is Issue) ==> final(self).phase is Ended,
            r matches Step::Finish(t) ==> final(self).trace@.len() == 2 && final(self).trace@[0].reply
                is Chars && t@ == text_of(final(self).trace@[0].reply),
            r is Finish ==> clean(final(self).trace@),
            text_view(r) == old(self).next_out(reply),
            final(self).phase == old(self).next_phase(reply),
            old(self).awaiting() ==> final(self).trace@ == old(self).trace@.push(
                Exchange { request: old(self).awaited(), reply },
            ),
            !old(self).awaiting() ==> final(self).trace@ == old(self).trace@,
    {
        match self.phase {
            ExtractPhase::Begin => {
                self.phase = ExtractPhase::AwaitChars;
                Step::Issue(Request::GetStringUtfChars(self.string))
            },
            ExtractPhase::AwaitChars => {
                let ghost e = Exchange { request: Request::GetStringUtfChars(self.string), reply };
                proof {
                    lemma_push(Slot::Empty, self.trace@, e);
                }
                self.trace = Ghost(self.trace@.push(e));
                match reply {
                    Reply::Chars(p, b) => {
                        if p.is_null() {
                            self.phase = ExtractPhase::Ended;
                            Step::Fail(Fatal::CharsUnavailable)
                        } else {
                            self.text = decode_lossy(b.as_slice());
                            self.phase = ExtractPhase::AwaitRelease;
                            Step::Issue(Request::ReleaseStringUtfChars(self.string, p))
                        }
                    },
                    _ => {
                        self.phase = ExtractPhase::Ended;
                        Step::Fail(Fatal::Misuse)
                    },
                }
            },
            ExtractPhase::AwaitRelease => {
                let ghost p = self.trace@[0].reply->Chars_0;
                let ghost e = Exchange {
                    request: Request::ReleaseStringUtfChars(self.string, p),
                    reply,
                };
                proof {
                    lemma_push(Slot::Empty, self.trace@, e);
                }
                self.trace = Ghost(self.trace@.push(e));
                self.phase = ExtractPhase::Ended;
                let mut text = std::string::String::new();
                std::mem::swap(&mut text, &mut self.text);
                Step::Finish(text)
            },
            ExtractPhase::Ended => Step::Fail(Fatal::Misuse),
        }
    }
}

} // verus!
