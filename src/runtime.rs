use vstd::prelude::*;
use vstd::utf8::encode_utf8;

use crate::environment::Environment;
use crate::handle::RawRef;
use crate::status::{classify, failure_of, Failure, STATUS_OK};
use crate::text::{has_nul, nul_free_bytes};

verus! {

/// Status code of a context request from a thread that is not attached.
pub const STATUS_DETACHED: i32 = -2;

/// The embedded runtime instance, held as the address of its interface.
#[derive(Clone, Copy, Debug, PartialEq, Eq, Structural)]
pub struct JVM {
    pub handle: RawRef,
}

/// Why the runtime singleton could not be recorded.
#[derive(Clone, Copy, Debug, PartialEq, Eq, Structural)]
pub enum SlotError {
    /// A runtime was recorded already.
    AlreadyInitialised,
}

pub open spec fn all_nul_free(options: Seq<&str>) -> bool {
    forall|i: int| 0 <= i < options.len() ==> !has_nul(encode_utf8(#[trigger] options[i]@))
}

/// The bytes of each creation option, in order: `None` when one holds a NUL.
pub fn option_bytes(options: &[&str]) -> (r: Option<Vec<Vec<u8>>>)
    ensures
        r is None <==> !all_nul_free(options@),
        r matches Some(v) ==> v@.len() == options@.len() && forall|i: int|
            0 <= i < options@.len() ==> (#[trigger] v@[i])@ == encode_utf8(options@[i]@),
{
    let mut out: Vec<Vec<u8>> = Vec::new();
    let mut i: usize = 0;
    while i < options.len()
        invariant
            i <= options@.len(),
            out@.len() == i,
            forall|j: int| 0 <= j < i ==> (#[trigger] out@[j])@ == encode_utf8(options@[j]@),
            forall|j: int| 0 <= j < i ==> !has_nul(encode_utf8(#[trigger] options@[j]@)),
        decreases options@.len() - i,
    {
        match nul_free_bytes(options[i]) {
            Some(b) => out.push(b),
            None => {
                return None;
            },
        }
        i = i + 1;
    }
    Some(out)
}

impl JVM {
    /// The runtime and the creating thread's context, from what creation
    /// returned: the status code and the two interface addresses.
    pub fn created(code: i32, vm: RawRef, env: RawRef) -> (r: Result<(JVM, Environment), Failure>)
        ensures
            code == STATUS_OK ==> r == Ok::<(JVM, Environment), Failure>(
                (JVM { handle: vm }, Environment { handle: env }),
            ),
            code != STATUS_OK ==> r == Err::<(JVM, Environment), Failure>(failure_of(code)),
    {
        match classify(code) {
            None => Ok((JVM { handle: vm }, Environment::from_handle(env))),
            Some(f) => Err(f),
        }
    }

    /// The context of a newly attached thread, from what attaching returned.
    pub fn attached(code: i32, env: RawRef) -> (r: Result<Environment, Failure>)
        ensures
            code == STATUS_OK ==> r == Ok::<Environment, Failure>(Environment { handle: env }),
            code != STATUS_OK ==> r == Err::<Environment, Failure>(failure_of(code)),
    {
        match classify(code) {
            None => Ok(Environment::from_handle(env)),
            Some(f) => Err(f),
        }
    }

    /// The calling thread's context, from what the context request returned:
    /// none when the thread is not attached, a failure for any other refusal.
    pub fn current_environment(&self, code: i32, env: RawRef) -> (r: Result<
        Option<Environment>,
        Failure,
    >)
        ensures
            code == STATUS_DETACHED ==> r == Ok::<Option<Environment>, Failure>(None),
            code == STATUS_OK && env.addr == 0 ==> r == Ok::<Option<Environment>, Failure>(None),
            code == STATUS_OK && env.addr != 0 ==> r == Ok::<Option<Environment>, Failure>(
                Some(Environment { handle: env }),
            ),
            code != STATUS_OK && code != STATUS_DETACHED ==> r == Err::<
                Option<Environment>,
                Failure,
            >(failure_of(code)),
    {
        if code == STATUS_DETACHED {
            return Ok(None);
        }
        match classify(code) {
            None => {
                if env.is_null() {
                    Ok(None)
                } else {
                    Ok(Some(Environment::from_handle(env)))
                }
            },
            Some(f) => Err(f),
        }
    }
}

/// The process-wide record of the one runtime instance: empty until the
/// runtime is created, then written once.
pub struct RuntimeSlot {
    pub jvm: Option<JVM>,
}

/// The slot and the outcome after recording `jvm` in a slot holding `slot`.
pub open spec fn install_spec(slot: Option<JVM>, jvm: JVM) -> (Option<JVM>, Result<(), SlotError>) {
    match slot {
        None => (Some(jvm), Ok(())),
        Some(j) => (Some(j), Err(SlotError::AlreadyInitialised)),
    }
}

impl RuntimeSlot {
    pub fn new() -> (s: RuntimeSlot)
        ensures
            s.jvm is None,
    {
        RuntimeSlot { jvm: None }
    }

    /// Records the runtime; refused when one is recorded already.
    pub fn install(&mut self, jvm: JVM) -> (r: Result<(), SlotError>)
        ensures
            (final(self).jvm, r) == install_spec(old(self).jvm, jvm),
    {
        match self.jvm {
            None => {
                self.jvm = Some(jvm);
                Ok(())
            },
            Some(_) => Err(SlotError::AlreadyInitialised),
        }
    }

    /// The recorded runtime, if any.
    pub fn global_jvm(&self) -> (r: Option<JVM>)
        ensures
            r == self.jvm,
    {
        self.jvm
    }
}

/// Only one runtime per process: once a runtime is recorded in the empty
/// slot, recording another is refused and the first stays.
pub proof fn lemma_single_runtime(first: JVM, second: JVM)
    ensures
        install_spec(None, first).1 is Ok,
        install_spec(install_spec(None, first).0, second).1 == Err::<(), SlotError>(
            SlotError::AlreadyInitialised,
        ),
        install_spec(install_spec(None, first).0, second).0 == Some(first),
{
}

} // verus!
