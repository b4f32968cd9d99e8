//! The outcome of a permission check.
use vstd::prelude::*;

verus! {

/// The identity that the server resolved a credential to.
#[derive(Debug)]
pub struct Principal(String);

impl View for Principal {
    type V = Seq<char>;

    closed spec fn view(&self) -> Seq<char> {
        self.0@
    }
}

impl Principal {
    /// The principal that the server names by `id`.
    pub fn new(id: String) -> (r: Principal)
        ensures
            r@ == id@,
    {
        Principal(id)
    }

    pub fn as_str(&self) -> (r: &str)
        ensures
            r@ == self@,
    {
        self.0.as_str()
    }
}

impl AsRef<str> for Principal {
    fn as_ref(&self) -> &str {
        self.0.as_str()
    }
}

impl From<String> for Principal {
    fn from(value: String) -> (r: Principal) {
        Principal(value)
    }
}

impl vstd::std_specs::convert::FromSpecImpl<String> for Principal {
    open spec fn obeys_from_spec() -> bool {
        true
    }

    closed spec fn from_spec(v: String) -> Principal {
        Principal(v)
    }
}

impl From<Principal> for String {
    fn from(value: Principal) -> (r: String) {
        value.0
    }
}

impl vstd::std_specs::convert::FromSpecImpl<Principal> for String {
    open spec fn obeys_from_spec() -> bool {
        true
    }

    closed spec fn from_spec(v: Principal) -> String {
        v.0
    }
}

impl From<&Principal> for String {
    fn from(value: &Principal) -> (r: String) {
        value.0.clone()
    }
}

impl vstd::std_specs::convert::FromSpecImpl<&Principal> for String {
    open spec fn obeys_from_spec() -> bool {
        true
    }

    closed spec fn from_spec(v: &Principal) -> String {
        v.0
    }
}

/// The three outcomes of a check.
#[derive(Debug)]
pub enum CheckResult {
    /// The subject resolved to this principal, which holds the permission.
    Granted(Principal),
    /// The subject resolved to this principal, which lacks the permission.
    Forbidden(Principal),
    /// The server knows no principal for the subject.
    UnknownPutativeUser,
}

/// A check or list call that failed.
#[derive(Debug)]
pub enum CallError {
    /// The server answered in a shape that the protocol does not define.
    UnexpectedResponseFormat,
    /// The transport or the server failed.
    Status(tonic::Status),
}

impl From<tonic::Status> for CallError {
    fn from(value: tonic::Status) -> (r: CallError) {
        CallError::Status(value)
    }
}

impl vstd::std_specs::convert::FromSpecImpl<tonic::Status> for CallError {
    open spec fn obeys_from_spec() -> bool {
        true
    }

    open spec fn from_spec(v: tonic::Status) -> CallError {
        CallError::Status(v)
    }
}

} // verus!
