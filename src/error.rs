//! Errors of identifier parsing and of the write and read calls.
use vstd::prelude::*;
use vstd::string::StringExecFns;

verus! {

/// Declares `tonic::Status`, the status that a failed call to the
/// authorization service ends with. It is only carried through, as an opaque
/// value; nothing here reads it.
#[verifier::external_type_specification]
#[verifier::external_body]
pub struct ExStatus(tonic::Status);

#[derive(Debug)]
pub enum ParseErrorKind {
    InvalidSyntax,
}

/// Malformed identifier input: which item, the text given, and why.
#[derive(Debug)]
pub struct ParseError {
    pub item: String,
    pub value: String,
    pub source: ParseErrorKind,
}

impl ParseError {
    /// The text form: `'value' has invalid syntax for item`.
    pub fn to_string(&self) -> (r: String)
        ensures
            r@ == "'"@ + self.value@ + "' has invalid syntax for "@ + self.item@,
    {
        let mut s = String::from_str("'");
        s.append(self.value.as_str());
        s.append("' has invalid syntax for ");
        s.append(self.item.as_str());
        s
    }
}

/// A write call (additions and deletions of tuples) that failed.
#[derive(Debug)]
pub struct AddError(pub tonic::Status);

impl AddError {
    /// The text form, which names the call that failed.
    pub fn to_string(&self) -> (r: String)
        ensures
            r@ == "add tuples grpc call"@,
    {
        String::from_str("add tuples grpc call")
    }
}

impl From<tonic::Status> for AddError {
    fn from(value: tonic::Status) -> (r: AddError) {
        AddError(value)
    }
}

impl vstd::std_specs::convert::FromSpecImpl<tonic::Status> for AddError {
    open spec fn obeys_from_spec() -> bool {
        true
    }

    open spec fn from_spec(v: tonic::Status) -> AddError {
        AddError(v)
    }
}

/// A read call that failed, or returned a tuple whose subject cannot be
/// mapped back into the typed model.
#[derive(Debug)]
pub enum ReadError {
    Status(tonic::Status),
    UnmappedSubject,
}

impl ReadError {
    /// The text form, which names the call that failed and, for a tuple
    /// without subject, why.
    pub fn to_string(&self) -> (r: String)
        ensures
            r@ == match self {
                ReadError::Status(_) => "read tuples grpc call"@,
                ReadError::UnmappedSubject => "read tuples: a tuple has no subject"@,
            },
    {
        match self {
            ReadError::Status(_) => String::from_str("read tuples grpc call"),
            ReadError::UnmappedSubject => String::from_str("read tuples: a tuple has no subject"),
        }
    }
}

impl From<tonic::Status> for ReadError {
    fn from(value: tonic::Status) -> (r: ReadError) {
        ReadError::Status(value)
    }
}

impl vstd::std_specs::convert::FromSpecImpl<tonic::Status> for ReadError {
    open spec fn obeys_from_spec() -> bool {
        true
    }

    open spec fn from_spec(v: tonic::Status) -> ReadError {
        ReadError::Status(v)
    }
}

} // verus!
