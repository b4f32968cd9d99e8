//! Client side of a relationship-based access-control protocol.
//!
//! Relations between subjects and objects are tuples held by a remote
//! authorization service. This crate states the typed model of those tuples,
//! the wire messages that carry them, how a response is read back into the
//! model, and the decisions that request-handling middleware takes around a
//! permission check.
use vstd::prelude::*;
use vstd::string::StringExecFns;

pub mod auth;
pub mod error;
pub mod middleware;
pub mod protocol;
pub mod wire;

pub use error::{AddError, ParseError, ParseErrorKind, ReadError};

verus! {

/// A partition of the relation graph, such as `customer`.
#[derive(Clone, Debug)]
pub struct Namespace(pub String);

impl View for Namespace {
    type V = Seq<char>;

    open spec fn view(&self) -> Seq<char> {
        self.0@
    }
}

pub const PERSONAL: &'static str = "personal";

pub const ROOT: &'static str = "root";

pub const TOKEN: &'static str = "token";

pub const SERVICEACCOUNT_NS: &'static str = "serviceaccount";

impl Namespace {
    pub fn personal() -> (r: Namespace)
        ensures
            r@ == PERSONAL@,
    {
        Namespace(String::from_str(PERSONAL))
    }

    pub fn token() -> (r: Namespace)
        ensures
            r@ == TOKEN@,
    {
        Namespace(String::from_str(TOKEN))
    }

    pub fn root() -> (r: Namespace)
        ensures
            r@ == ROOT@,
    {
        Namespace(String::from_str(ROOT))
    }

    pub fn serviceaccount() -> (r: Namespace)
        ensures
            r@ == SERVICEACCOUNT_NS@,
    {
        Namespace(String::from_str(SERVICEACCOUNT_NS))
    }
}

/// A capability from the fixed set that resources ask for; sent on the wire
/// as a relation of the same name.
#[derive(Clone, Debug)]
pub struct Permission(pub &'static str);

impl View for Permission {
    type V = Seq<char>;

    open spec fn view(&self) -> Seq<char> {
        self.0@
    }
}

/// A named edge type of the relation graph.
#[derive(Clone, Debug)]
pub struct Rel(pub String);

impl View for Rel {
    type V = Seq<char>;

    open spec fn view(&self) -> Seq<char> {
        self.0@
    }
}

impl Rel {
    pub const TRIPLE_DOT: &'static str = "...";
    pub const IS: &'static str = "is";
    pub const PARENT: &'static str = "parent";
    pub const IAM_GET: &'static str = "iam.get";
    pub const IAM_UPDATE: &'static str = "iam.update";
    pub const IAM_DELETE: &'static str = "iam.delete";
    pub const SERVICEACCOUNT_GET: &'static str = "serviceaccount.get";
    pub const SERVICEACCOUNT_CREATE: &'static str = "serviceaccount.create";
    pub const SERVICEACCOUNT_KEY_GET: &'static str = "serviceaccount.key.get";
    pub const SERVICEACCOUNT_KEY_CREATE: &'static str = "serviceaccount.key.create";
    pub const SERVICEACCOUNT_CREATE_TOKEN: &'static str = "serviceaccount.createToken";
    pub const USER_CREATE: &'static str = "user.create";

    pub fn triple_dot() -> (r: Rel)
        ensures
            r@ == Self::TRIPLE_DOT@,
    {
        Rel(String::from_str(Self::TRIPLE_DOT))
    }

    pub fn is() -> (r: Rel)
        ensures
            r@ == Self::IS@,
    {
        Rel(String::from_str(Self::IS))
    }

    pub fn parent() -> (r: Rel)
        ensures
            r@ == Self::PARENT@,
    {
        Rel(String::from_str(Self::PARENT))
    }

    pub fn iam_get() -> (r: Rel)
        ensures
            r@ == Self::IAM_GET@,
    {
        Rel(String::from_str(Self::IAM_GET))
    }

    pub fn iam_update() -> (r: Rel)
        ensures
            r@ == Self::IAM_UPDATE@,
    {
        Rel(String::from_str(Self::IAM_UPDATE))
    }

    pub fn iam_delete() -> (r: Rel)
        ensures
            r@ == Self::IAM_DELETE@,
    {
        Rel(String::from_str(Self::IAM_DELETE))
    }

    pub fn serviceaccount_get() -> (r: Rel)
        ensures
            r@ == Self::SERVICEACCOUNT_GET@,
    {
        Rel(String::from_str(Self::SERVICEACCOUNT_GET))
    }

    pub fn serviceaccount_create() -> (r: Rel)
        ensures
            r@ == Self::SERVICEACCOUNT_CREATE@,
    {
        Rel(String::from_str(Self::SERVICEACCOUNT_CREATE))
    }

    pub fn serviceaccount_key_get() -> (r: Rel)
        ensures
            r@ == Self::SERVICEACCOUNT_KEY_GET@,
    {
        Rel(String::from_str(Self::SERVICEACCOUNT_KEY_GET))
    }

    pub fn serviceaccount_key_create() -> (r: Rel)
        ensures
            r@ == Self::SERVICEACCOUNT_KEY_CREATE@,
    {
        Rel(String::from_str(Self::SERVICEACCOUNT_KEY_CREATE))
    }

    pub fn serviceaccount_create_token() -> (r: Rel)
        ensures
            r@ == Self::SERVICEACCOUNT_CREATE_TOKEN@,
    {
        Rel(String::from_str(Self::SERVICEACCOUNT_CREATE_TOKEN))
    }

    pub fn user_upsert() -> (r: Rel)
        ensures
            r@ == Self::USER_CREATE@,
    {
        Rel(String::from_str(Self::USER_CREATE))
    }

    /// The relation that carries a permission on the wire: same name.
    pub fn of_permission(p: &Permission) -> (r: Rel)
        ensures
            r@ == p@,
    {
        Rel(String::from_str(p.0))
    }
}

impl From<Permission> for Rel {
    fn from(value: Permission) -> (r: Rel) {
        Rel::of_permission(&value)
    }
}

/// A `String` cannot be written down in a spec, so this conversion promises
/// nothing here; `Rel::of_permission`, which it calls, states its result.
impl vstd::std_specs::convert::FromSpecImpl<Permission> for Rel {
    open spec fn obeys_from_spec() -> bool {
        false
    }

    open spec fn from_spec(v: Permission) -> Rel {
        arbitrary()
    }
}

/// A concrete user id, or a credential passed verbatim for the server to
/// resolve.
#[derive(Clone, Debug)]
pub struct UserId(pub String);

impl View for UserId {
    type V = Seq<char>;

    open spec fn view(&self) -> Seq<char> {
        self.0@
    }
}

/// An opaque consistency token (read/write watermark) defined by the server.
#[derive(Clone, Debug)]
pub struct Timestamp(pub String);

impl View for Timestamp {
    type V = Seq<char>;

    open spec fn view(&self) -> Seq<char> {
        self.0@
    }
}

/// The token that asks for a read at the latest consistency point.
pub const LATEST: &'static str = "1:0000000000000";

impl Timestamp {
    pub fn empty() -> (r: Self)
        ensures
            r@ == LATEST@,
    {
        Timestamp(String::from_str(LATEST))
    }
}

/// The token a call is made at: the one given, else the latest.
pub open spec fn token_or_latest(ts: Option<Timestamp>) -> Seq<char> {
    match ts {
        Some(t) => t@,
        None => LATEST@,
    }
}

impl core::str::FromStr for UserId {
    type Err = ParseError;

    fn from_str(s: &str) -> Result<Self, Self::Err> {
        Ok(UserId(<String as StringExecFns>::from_str(s)))
    }
}

impl TryFrom<String> for UserId {
    type Error = ParseError;

    fn try_from(value: String) -> Result<Self, Self::Error> {
        Ok(UserId(value))
    }
}

impl vstd::std_specs::convert::TryFromSpecImpl<String> for UserId {
    open spec fn obeys_try_from_spec() -> bool {
        true
    }

    open spec fn try_from_spec(v: String) -> Result<Self, Self::Error> {
        Ok(UserId(v))
    }
}

/// A resource instance within a namespace; opaque to the client.
#[derive(Clone, Debug)]
pub struct Obj(pub String);

impl View for Obj {
    type V = Seq<char>;

    open spec fn view(&self) -> Seq<char> {
        self.0@
    }
}

pub const ROOT_OBJ: &'static str = "root";

pub const UNSPECIFIED_OBJ: &'static str = "...";

impl Obj {
    pub fn unspecified() -> (r: Obj)
        ensures
            r@ == UNSPECIFIED_OBJ@,
    {
        Obj(String::from_str(UNSPECIFIED_OBJ))
    }

    pub fn root() -> (r: Obj)
        ensures
            r@ == ROOT_OBJ@,
    {
        Obj(String::from_str(ROOT_OBJ))
    }
}

impl core::str::FromStr for Obj {
    type Err = ParseError;

    fn from_str(s: &str) -> Result<Self, Self::Err> {
        Ok(Obj(<String as StringExecFns>::from_str(s)))
    }
}

impl TryFrom<String> for Obj {
    type Error = ParseError;

    fn try_from(value: String) -> Result<Self, Self::Error> {
        Ok(Obj(value))
    }
}

impl vstd::std_specs::convert::TryFromSpecImpl<String> for Obj {
    open spec fn obeys_try_from_spec() -> bool {
        true
    }

    open spec fn try_from_spec(v: String) -> Result<Self, Self::Error> {
        Ok(Obj(v))
    }
}

/// The subject of a tuple: a user id, or a userset that the server resolves.
#[derive(Clone, Debug)]
pub enum User {
    UserId(String),
    UserSet { ns: Namespace, obj: Obj, rel: Rel },
}

/// What a subject denotes, with its text as character sequences.
pub enum SubjectView {
    UserId(Seq<char>),
    UserSet { ns: Seq<char>, obj: Seq<char>, rel: Seq<char> },
}

impl View for User {
    type V = SubjectView;

    open spec fn view(&self) -> SubjectView {
        match self {
            User::UserId(u) => SubjectView::UserId(u@),
            User::UserSet { ns, obj, rel } => SubjectView::UserSet { ns: ns@, obj: obj@, rel: rel@ },
        }
    }
}

/// One fact of the relation graph: (namespace, object, relation, subject).
#[derive(Clone, Debug)]
pub struct Tuple {
    pub ns: Namespace,
    pub obj: Obj,
    pub rel: Rel,
    pub sbj: User,
}

/// A tuple as four values.
pub struct TupleView {
    pub ns: Seq<char>,
    pub obj: Seq<char>,
    pub rel: Seq<char>,
    pub sbj: SubjectView,
}

impl View for Tuple {
    type V = TupleView;

    open spec fn view(&self) -> TupleView {
        TupleView { ns: self.ns@, obj: self.obj@, rel: self.rel@, sbj: self.sbj@ }
    }
}

/// A temporal qualifier on a tuple: it holds until the given instant, in
/// seconds since the Unix epoch.
#[derive(Clone, Copy, Debug, PartialEq, Eq, Structural)]
pub enum Condition {
    Expires(i64),
}

/// How a subject is written: `id`, or `ns:obj#rel` for a userset.
pub open spec fn subject_text(s: SubjectView) -> Seq<char> {
    match s {
        SubjectView::UserId(u) => u,
        SubjectView::UserSet { ns, obj, rel } => ns + ":"@ + obj + "#"@ + rel,
    }
}

/// How a tuple is written: `Tuple(ns:obj#rel@subject)`.
pub open spec fn tuple_text(t: TupleView) -> Seq<char> {
    "Tuple("@ + t.ns + ":"@ + t.obj + "#"@ + t.rel + "@"@ + subject_text(t.sbj) + ")"@
}

impl Tuple {
    /// The text form of the tuple.
    pub fn to_string(&self) -> (r: String)
        ensures
            r@ == tuple_text(self@),
    {
        let mut s = String::from_str("Tuple(");
        s.append(self.ns.0.as_str());
        s.append(":");
        s.append(self.obj.0.as_str());
        s.append("#");
        s.append(self.rel.0.as_str());
        s.append("@");
        match &self.sbj {
            User::UserId(u) => {
                s.append(u.as_str());
            },
            User::UserSet { ns, obj, rel } => {
                s.append(ns.0.as_str());
                s.append(":");
                s.append(obj.0.as_str());
                s.append("#");
                s.append(rel.0.as_str());
            },
        }
        s.append(")");
        assert(s@ =~= tuple_text(self@));
        s
    }
}

} // verus!
