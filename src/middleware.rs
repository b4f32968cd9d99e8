//! The decisions that request-handling middleware takes around a permission
//! check.
//!
//! A request goes through these steps: the resource is parsed, the
//! credential is looked up, the permission for the request's verb is
//! resolved, the check is made, and its outcome becomes either an authorized
//! request or a rejection. The embedding web layer does the parsing, the
//! header lookup and the call; [`after_credential`] decides what follows the lookup, and
//! `from_check` what follows the call.
use core::marker::PhantomData;
use vstd::prelude::*;

use crate::auth::{CallError, CheckResult, Principal};
use crate::protocol::check_request;
use crate::wire::CheckRequest;
use crate::{Namespace, Obj, Permission, UserId, LATEST};

verus! {

/// The name of the cookie that holds a session token.
pub const SESSION_COOKIE: &'static str = "session";

/// Why a request was rejected.
#[derive(Debug)]
pub enum WebResourceError {
    /// No credential came with a request that needs one.
    MissingSession,
    /// The subject lacks the permission, or is unknown to the service.
    Forbidden,
    /// The resource allows no permission for the request's verb.
    MethodNotAllowed,
    /// The check call failed.
    InternalServerError(CallError),
    /// The resource could not be parsed out of the request.
    Parse(String),
}

/// Takes the credential from the `session` cookie.
pub struct SessionCookieAuth;

/// Takes the credential from an `Authorization: Bearer` header.
pub struct BearerTokenAuth;

/// Declares `http::Method`, the request method, which is handed to a
/// resource to pick a permission; it is opaque here and never read.
#[verifier::external_type_specification]
#[verifier::external_body]
pub struct ExMethod(http::Method);

/// A protected resource: where it stands in the relation graph, and which
/// permission each request method needs on it.
pub trait WebResource: Sized {
    fn namespace(&self) -> Namespace;

    /// The permission that `method` needs; `None` when the method is not
    /// allowed on this resource at all.
    fn permission(&self, method: &http::Method) -> Option<Permission>;

    fn object(&self) -> Obj;
}

/// Whether a request must come with a credential.
#[derive(Clone, Copy, Debug, PartialEq, Eq, Structural)]
pub enum CredentialPolicy {
    /// A missing credential rejects the request.
    Required,
    /// A missing credential lets the request through without a principal.
    Optional,
}

/// What happens to a request once its credential has been looked up.
pub enum Admission {
    /// It is rejected; no check is made.
    Reject(WebResourceError),
    /// It goes through without a principal; no check is made.
    Anonymous,
    /// This check is made, and its outcome decides.
    Check(CheckRequest),
}

/// The step after the credential lookup. A missing credential rejects the
/// request or lets it through anonymously, as `policy` says. Otherwise a verb
/// without a permission rejects it, and else the credential is checked,
/// verbatim as the user id, for the permission on `ns:obj` at the latest
/// consistency point.
pub fn after_credential(
    policy: CredentialPolicy,
    credential: Option<String>,
    ns: Namespace,
    obj: Obj,
    permission: Option<Permission>,
) -> (r: Admission)
    ensures
        match credential {
            None => match policy {
                CredentialPolicy::Required => r matches Admission::Reject(
                    WebResourceError::MissingSession,
                ),
                CredentialPolicy::Optional => r is Anonymous,
            },
            Some(token) => match permission {
                None => r matches Admission::Reject(WebResourceError::MethodNotAllowed),
                Some(p) => r matches Admission::Check(q) && q.ns@ == ns@ && q.obj@ == obj@
                    && q.rel@ == p@ && q.user_id@ == token@ && q.ts@ == LATEST@,
            },
        },
{
    match credential {
        None => match policy {
            CredentialPolicy::Required => Admission::Reject(WebResourceError::MissingSession),
            CredentialPolicy::Optional => Admission::Anonymous,
        },
        Some(token) => match permission {
            None => Admission::Reject(WebResourceError::MethodNotAllowed),
            Some(p) => Admission::Check(check_request(ns, obj, p, UserId(token), None)),
        },
    }
}

/// What a check's outcome means for the request: the granted principal, or
/// the rejection. Forbidden and unknown subjects are rejected alike, so that
/// a caller cannot tell whether a credential names a known identity.
pub open spec fn verdict(outcome: Result<CheckResult, CallError>) -> Result<
    Principal,
    WebResourceError,
> {
    match outcome {
        Ok(CheckResult::Granted(p)) => Ok(p),
        Ok(CheckResult::Forbidden(_)) => Err(WebResourceError::Forbidden),
        Ok(CheckResult::UnknownPutativeUser) => Err(WebResourceError::Forbidden),
        Err(e) => Err(WebResourceError::InternalServerError(e)),
    }
}

/// A subject unknown to the service and one that is known but lacks the
/// permission meet the same rejection.
pub proof fn lemma_unknown_subject_looks_forbidden(p: Principal)
    ensures
        verdict(Ok(CheckResult::UnknownPutativeUser)) == verdict(Ok(CheckResult::Forbidden(p))),
        verdict(Ok(CheckResult::UnknownPutativeUser)) == Err::<Principal, WebResourceError>(
            WebResourceError::Forbidden,
        ),
{
}

/// A request whose principal holds the permission checked on its resource.
pub struct WithPrincipal<R, A = SessionCookieAuth> {
    pub principal: Principal,
    pub resource: R,
    auth_type: PhantomData<A>,
}

impl<R, A> View for WithPrincipal<R, A> {
    /// The principal and the resource.
    type V = (Principal, R);

    closed spec fn view(&self) -> (Principal, R) {
        (self.principal, self.resource)
    }
}

impl<R, A> WithPrincipal<R, A> {
    /// The request authorized, or rejected, by the outcome of its check.
    pub fn from_check(resource: R, outcome: Result<CheckResult, CallError>) -> (r: Result<
        Self,
        WebResourceError,
    >)
        ensures
            match verdict(outcome) {
                Ok(p) => r matches Ok(w) && w@ == (p, resource),
                Err(e) => r matches Err(f) && f == e,
            },
    {
        match outcome {
            Ok(CheckResult::Granted(principal)) => Ok(
                WithPrincipal { principal, resource, auth_type: PhantomData },
            ),
            Ok(CheckResult::Forbidden(_)) => Err(WebResourceError::Forbidden),
            Ok(CheckResult::UnknownPutativeUser) => Err(WebResourceError::Forbidden),
            Err(e) => Err(WebResourceError::InternalServerError(e)),
        }
    }
}

impl<R> WithPrincipal<R> {
    pub fn into_principal(self) -> (r: Principal)
        ensures
            r == self@.0,
    {
        self.principal
    }

    pub fn into_resource(self) -> (r: R)
        ensures
            r == self@.1,
    {
        self.resource
    }

    pub fn into_principal_and_resource(self) -> (r: (Principal, R))
        ensures
            r == self@,
    {
        (self.principal, self.resource)
    }

    /// The same principal, with `f` applied to the resource.
    pub fn map<T, F: Fn(R) -> T>(self, f: F) -> (r: WithPrincipal<T>)
        requires
            f.requires((self@.1,)),
        ensures
            r@.0 == self@.0,
            f.ensures((self@.1,), r@.1),
    {
        let resource = f(self.resource);
        WithPrincipal { principal: self.principal, resource, auth_type: PhantomData }
    }
}

impl<R> WithPrincipal<R, BearerTokenAuth> {
    pub fn into_principal(self) -> (r: Principal)
        ensures
            r == self@.0,
    {
        self.principal
    }

    pub fn into_resource(self) -> (r: R)
        ensures
            r == self@.1,
    {
        self.resource
    }

    pub fn into_principal_and_resource(self) -> (r: (Principal, R))
        ensures
            r == self@,
    {
        (self.principal, self.resource)
    }

    /// The same principal, with `f` applied to the resource.
    pub fn map<T, F: Fn(R) -> T>(self, f: F) -> (r: WithPrincipal<T>)
        requires
            f.requires((self@.1,)),
        ensures
            r@.0 == self@.0,
            f.ensures((self@.1,), r@.1),
    {
        let resource = f(self.resource);
        WithPrincipal { principal: self.principal, resource, auth_type: PhantomData }
    }
}

/// A request that may come with a principal; when it does, the principal
/// holds the permission checked on its resource.
pub struct WithOptPrincipal<R> {
    pub principal: Option<Principal>,
    pub resource: R,
}

impl<R> WithOptPrincipal<R> {
    /// A request that came without a credential.
    pub fn anonymous(resource: R) -> (r: Self)
        ensures
            r.principal is None,
            r.resource == resource,
    {
        WithOptPrincipal { principal: None, resource }
    }

    /// The request authorized, or rejected, by the outcome of its check.
    pub fn from_check(resource: R, outcome: Result<CheckResult, CallError>) -> (r: Result<
        Self,
        WebResourceError,
    >)
        ensures
            match verdict(outcome) {
                Ok(p) => r matches Ok(w) && w.principal == Some(p) && w.resource == resource,
                Err(e) => r matches Err(f) && f == e,
            },
    {
        match outcome {
            Ok(CheckResult::Granted(principal)) => Ok(
                WithOptPrincipal { principal: Some(principal), resource },
            ),
            Ok(CheckResult::Forbidden(_)) => Err(WebResourceError::Forbidden),
            Ok(CheckResult::UnknownPutativeUser) => Err(WebResourceError::Forbidden),
            Err(e) => Err(WebResourceError::InternalServerError(e)),
        }
    }
}

} // verus!
