use vstd::prelude::*;

verus! {

/// Status code of a successful call into the embedding interface.
pub const STATUS_OK: i32 = 0;

/// Why the embedding interface refused to create, attach to or report on
/// the runtime, from the status code it returned.
#[derive(Clone, Copy, Debug, PartialEq, Eq, Structural)]
pub enum Failure {
    /// The calling thread is not attached.
    Detached,
    /// A runtime exists already.
    AlreadyExists,
    /// The arguments were refused.
    InvalidArguments,
    /// The runtime ran out of memory.
    OutOfMemory,
    /// The runtime's generic error.
    Unknown,
    /// The requested interface version is not supported.
    Version,
    /// A code outside the documented set.
    Unrecognised(i32),
}

pub open spec fn failure_of(code: i32) -> Failure {
    if code == -1 {
        Failure::Unknown
    } else if code == -2 {
        Failure::Detached
    } else if code == -3 {
        Failure::Version
    } else if code == -4 {
        Failure::OutOfMemory
    } else if code == -5 {
        Failure::AlreadyExists
    } else if code == -6 {
        Failure::InvalidArguments
    } else {
        Failure::Unrecognised(code)
    }
}

/// Reads a status code: `None` for success, else the failure it names.
pub fn classify(code: i32) -> (r: Option<Failure>)
    ensures
        code == STATUS_OK ==> r is None,
        code != STATUS_OK ==> r == Some(failure_of(code)),
{
    if code == STATUS_OK {
        None
    } else if code == -1 {
        Some(Failure::Unknown)
    } else if code == -2 {
        Some(Failure::Detached)
    } else if code == -3 {
        Some(Failure::Version)
    } else if code == -4 {
        Some(Failure::OutOfMemory)
    } else if code == -5 {
        Some(Failure::AlreadyExists)
    } else if code == -6 {
        Some(Failure::InvalidArguments)
    } else {
        Some(Failure::Unrecognised(code))
    }
}

impl Failure {
    pub open spec fn message_spec(&self) -> Seq<char> {
        match self {
            Failure::Detached => "thread detached from JVM"@,
            Failure::AlreadyExists => "JVM exists already"@,
            Failure::InvalidArguments => "invalid arguments"@,
            Failure::OutOfMemory => "not enough memory"@,
            Failure::Unknown => "unknown error"@,
            Failure::Version => "JNI version error"@,
            Failure::Unrecognised(_) => "unknown JNI error value"@,
        }
    }

    /// The diagnostic that a fatal report of this failure carries.
    pub fn message(&self) -> (r: &'static str)
        ensures
            r@ == self.message_spec(),
    {
        match self {
            Failure::Detached => "thread detached from JVM",
            Failure::AlreadyExists => "JVM exists already",
            Failure::InvalidArguments => "invalid arguments",
            Failure::OutOfMemory => "not enough memory",
            Failure::Unknown => "unknown error",
            Failure::Version => "JNI version error",
            Failure::Unrecognised(_) => "unknown JNI error value",
        }
    }
}

} // verus!
