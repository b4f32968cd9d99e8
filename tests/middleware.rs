use check_client::auth::{CallError, CheckResult, Principal};
use check_client::middleware::{
    after_credential, Admission, BearerTokenAuth, CredentialPolicy, WebResource,
    WebResourceError, WithOptPrincipal, WithPrincipal, SESSION_COOKIE,
};
use check_client::{Namespace, Obj, Permission};

struct Customer {
    id: String,
}

impl WebResource for Customer {
    fn namespace(&self) -> Namespace {
        Namespace("customer".to_string())
    }

    fn permission(&self, method: &http::Method) -> Option<Permission> {
        if method == http::Method::GET {
            Some(Permission("customer.get"))
        } else if method == http::Method::PUT {
            Some(Permission("customer.update"))
        } else {
            None
        }
    }

    fn object(&self) -> Obj {
        Obj(self.id.clone())
    }
}

fn acme() -> Customer {
    Customer { id: "acme".to_string() }
}

fn step(policy: CredentialPolicy, credential: Option<&str>, method: http::Method) -> Admission {
    let r = acme();
    after_credential(
        policy,
        credential.map(|c| c.to_string()),
        r.namespace(),
        r.object(),
        r.permission(&method),
    )
}

#[test]
fn session_cookie_is_named_session() {
    assert_eq!(SESSION_COOKIE, "session");
}

#[test]
fn missing_credential_is_missing_session() {
    for method in [http::Method::GET, http::Method::DELETE] {
        assert!(matches!(
            step(CredentialPolicy::Required, None, method),
            Admission::Reject(WebResourceError::MissingSession)
        ));
    }
}

#[test]
fn missing_optional_credential_passes_unchecked() {
    assert!(matches!(
        step(CredentialPolicy::Optional, None, http::Method::DELETE),
        Admission::Anonymous
    ));
    let w = WithOptPrincipal::anonymous(acme());
    assert!(w.principal.is_none());
    assert_eq!(w.resource.id, "acme");
}

#[test]
fn unmapped_verb_is_method_not_allowed() {
    for policy in [CredentialPolicy::Required, CredentialPolicy::Optional] {
        assert!(matches!(
            step(policy, Some("tok"), http::Method::DELETE),
            Admission::Reject(WebResourceError::MethodNotAllowed)
        ));
    }
}

#[test]
fn credential_is_checked_verbatim() {
    match step(CredentialPolicy::Required, Some("abcdef"), http::Method::PUT) {
        Admission::Check(q) => {
            assert_eq!(q.ns, "customer");
            assert_eq!(q.obj, "acme");
            assert_eq!(q.rel, "customer.update");
            assert_eq!(q.user_id, "abcdef");
            assert_eq!(q.ts, "1:0000000000000");
        }
        _ => panic!("expected a check"),
    }
}

#[test]
fn granted_check_authorizes() {
    let outcome = Ok(CheckResult::Granted(Principal::from("abcdef".to_string())));
    let w: WithPrincipal<Customer> = WithPrincipal::from_check(acme(), outcome).unwrap();
    assert_eq!(w.principal.as_str(), "abcdef");
    let (p, r) = w.into_principal_and_resource();
    assert_eq!(p.as_str(), "abcdef");
    assert_eq!(r.id, "acme");
}

#[test]
fn unknown_and_forbidden_are_rejected_alike() {
    let forbidden = Ok(CheckResult::Forbidden(Principal::from("abcdef".to_string())));
    let unknown = Ok(CheckResult::UnknownPutativeUser);
    let a = WithPrincipal::<Customer>::from_check(acme(), forbidden);
    let b = WithPrincipal::<Customer>::from_check(acme(), unknown);
    assert!(matches!(a, Err(WebResourceError::Forbidden)));
    assert!(matches!(b, Err(WebResourceError::Forbidden)));
    let c = WithOptPrincipal::from_check(acme(), Ok(CheckResult::UnknownPutativeUser));
    assert!(matches!(c, Err(WebResourceError::Forbidden)));
}

#[test]
fn failed_check_is_internal_error() {
    let outcome = Err(CallError::Status(tonic::Status::unavailable("down")));
    match WithPrincipal::<Customer, BearerTokenAuth>::from_check(acme(), outcome) {
        Err(WebResourceError::InternalServerError(CallError::Status(s))) => {
            assert_eq!(s.code(), tonic::Code::Unavailable)
        }
        _ => panic!("expected an internal error"),
    }
    let outcome = Err(CallError::UnexpectedResponseFormat);
    assert!(matches!(
        WithOptPrincipal::from_check(acme(), outcome),
        Err(WebResourceError::InternalServerError(CallError::UnexpectedResponseFormat))
    ));
}

#[test]
fn optional_principal_granted() {
    let outcome = Ok(CheckResult::Granted(Principal::from("u7".to_string())));
    let w = WithOptPrincipal::from_check(acme(), outcome).unwrap();
    assert_eq!(w.principal.unwrap().as_str(), "u7");
}

#[test]
fn bearer_principal_accessors_and_map() {
    let grant = || Ok(CheckResult::Granted(Principal::from("b".to_string())));
    let w = WithPrincipal::<Customer, BearerTokenAuth>::from_check(acme(), grant()).unwrap();
    assert_eq!(w.into_principal().as_str(), "b");
    let w = WithPrincipal::<Customer, BearerTokenAuth>::from_check(acme(), grant()).unwrap();
    assert_eq!(w.into_resource().id, "acme");
    let w = WithPrincipal::<Customer, BearerTokenAuth>::from_check(acme(), grant()).unwrap();
    let m = w.map(|c| c.id.len());
    assert_eq!(m.resource, 4);
    assert_eq!(m.into_principal().as_str(), "b");
}

#[test]
fn session_principal_map_keeps_principal() {
    let outcome = Ok(CheckResult::Granted(Principal::from("s".to_string())));
    let w: WithPrincipal<Customer> = WithPrincipal::from_check(acme(), outcome).unwrap();
    let m = w.map(|c| c.id.to_uppercase());
    assert_eq!(m.principal.as_str(), "s");
    assert_eq!(m.into_resource(), "ACME");
}
