use mandate_dispatch::auth::{AuthSpec, AuthStrategy, KeyVerdict, Lookup, TokenVerdict, Verdicts};
use mandate_dispatch::dispatch::{dispatch, Action, Body, Event, Response, Stage};
use mandate_dispatch::endpoints::{get_mandate, retrieve_mandates_list, revoke_mandate};
use mandate_dispatch::lock::ResourceLockTable;
use mandate_dispatch::model::{
    AuthError, DomainError, Flow, LockAction, MandateId, MerchantContext, Permission, Request,
    ValidationError,
};
use mandate_dispatch::query::{MandateListConstraints, TimeFilter};

fn with_key() -> Request {
    Request { api_key: Some(String::from("key")), bearer_token: None }
}

fn mandate(id: &str) -> MandateId {
    MandateId::new(String::from(id)).unwrap()
}

fn filters(limit: Option<i64>) -> MandateListConstraints {
    MandateListConstraints {
        limit,
        offset: None,
        mandate_status: None,
        connector: None,
        created_time: None,
        created_time_lt: None,
        created_time_gt: None,
        created_time_lte: None,
        created_time_gte: None,
    }
}

fn is_header_api_key(strategy: &AuthStrategy) -> bool {
    match strategy {
        AuthStrategy::HeaderAuth(inner) => matches!(**inner, AuthStrategy::ApiKeyAuth),
        _ => false,
    }
}

#[test]
fn get_mandate_authenticates_by_api_key_and_locks_nothing() {
    let (dispatch, input) = get_mandate(with_key(), mandate("man_1"));
    assert_eq!(input.mandate_id, "man_1");
    assert_eq!(dispatch.flow, Flow::MandatesRetrieve);
    assert!(matches!(dispatch.lock, LockAction::NotApplicable));
    assert!(matches!(dispatch.stage, Stage::Received));
    assert!(matches!(&dispatch.auth, AuthSpec::Single(strategy) if is_header_api_key(strategy)));
    assert_eq!(dispatch.request.api_key, Some(String::from("key")));
}

#[test]
fn get_mandate_refuses_a_bearer_token() {
    let request = Request { api_key: None, bearer_token: Some(String::from("jwt")) };
    let (dispatch, _) = get_mandate(request, mandate("man_1"));
    let mut table = ResourceLockTable::new();
    let (_, action) = dispatch.step(&mut table, Event::Arrived);
    assert!(matches!(
        action,
        Action::Respond(Response {
            status: 401,
            flow: Flow::MandatesRetrieve,
            body: Body::Unauthorized(AuthError::MissingCredential)
        })
    ));
}

#[test]
fn revoke_mandate_locks_the_mandate() {
    let (dispatch, input) = revoke_mandate(with_key(), mandate("man_7"));
    assert_eq!(input.mandate_id, "man_7");
    assert_eq!(dispatch.flow, Flow::MandatesRevoke);
    assert!(matches!(&dispatch.lock, LockAction::AcquireExclusive(key) if key == "man_7"));
    assert!(matches!(&dispatch.auth, AuthSpec::Single(strategy) if is_header_api_key(strategy)));
    assert!(matches!(dispatch.stage, Stage::Received));
}

#[test]
fn list_prefers_the_token_and_falls_back_to_the_api_key() {
    let (dispatch, query) = retrieve_mandates_list(with_key(), filters(Some(50)), 100).unwrap();
    assert_eq!(query.limit, Some(50));
    assert_eq!(query.created, TimeFilter::Range { lt: None, gt: None, lte: None, gte: None });
    assert_eq!(dispatch.flow, Flow::MandatesList);
    assert!(matches!(dispatch.lock, LockAction::NotApplicable));
    match &dispatch.auth {
        AuthSpec::Either { primary, secondary } => {
            assert!(matches!(
                primary,
                AuthStrategy::JWTAuth { permission: Permission::MerchantMandateRead }
            ));
            assert!(is_header_api_key(secondary));
        }
        other => panic!("expected a pair of strategies, got {:?}", other),
    }
    let mut table = ResourceLockTable::new();
    let (dispatch, action) = dispatch.step(&mut table, Event::Arrived);
    assert!(matches!(action, Action::Consult(Lookup::KeyStore)));
    let answers = Verdicts {
        api_key: KeyVerdict::Known(MerchantContext {
            merchant_id: String::from("merchant_1"),
            key_store: String::from("ks_1"),
        }),
        token: TokenVerdict::Invalid,
    };
    let (_, action) = dispatch.step(&mut table, Event::Verdicts(answers));
    assert!(matches!(action, Action::Invoke(context) if context.merchant_id == "merchant_1"));
}

#[test]
fn list_without_any_credential_answers_401() {
    let request = Request { api_key: None, bearer_token: None };
    let (dispatch, _) = retrieve_mandates_list(request, filters(None), 100).unwrap();
    let mut table = ResourceLockTable::new();
    let (dispatch, action) = dispatch.step(&mut table, Event::Arrived);
    assert!(matches!(
        action,
        Action::Respond(Response {
            status: 401,
            flow: Flow::MandatesList,
            body: Body::Unauthorized(AuthError::MissingCredential)
        })
    ));
    assert!(dispatch.is_finished());
}

#[test]
fn list_with_refused_filters_answers_400() {
    let refused = retrieve_mandates_list(with_key(), filters(Some(0)), 100).unwrap_err();
    assert_eq!(
        refused,
        Response {
            status: 400,
            flow: Flow::MandatesList,
            body: Body::Invalid(ValidationError::OutOfBoundsLimit)
        }
    );
    let constraints = MandateListConstraints { offset: Some(-1), ..filters(Some(5)) };
    let refused = retrieve_mandates_list(with_key(), constraints, 100).unwrap_err();
    assert_eq!(
        refused,
        Response {
            status: 400,
            flow: Flow::MandatesList,
            body: Body::Invalid(ValidationError::NegativeOffset)
        }
    );
}

#[test]
fn get_mandate_with_an_empty_api_key_answers_401_missing_credential() {
    let request = Request { api_key: Some(String::new()), bearer_token: None };
    let (dispatch, _) = get_mandate(request, mandate("man_1"));
    assert_eq!(dispatch.auth.lookup(&dispatch.request), Lookup::Nothing);
    let mut table = ResourceLockTable::new();
    let (dispatch, action) = dispatch.step(&mut table, Event::Arrived);
    assert!(matches!(
        action,
        Action::Respond(Response {
            status: 401,
            flow: Flow::MandatesRetrieve,
            body: Body::Unauthorized(AuthError::MissingCredential)
        })
    ));
    assert!(dispatch.is_finished());
    assert!(table.is_empty());
}

#[test]
fn revoke_mandate_with_an_empty_api_key_answers_401_and_locks_nothing() {
    let request = Request { api_key: Some(String::new()), bearer_token: None };
    let (dispatch, _) = revoke_mandate(request, mandate("man_1"));
    let mut table = ResourceLockTable::new();
    let (dispatch, action) = dispatch.step(&mut table, Event::Arrived);
    assert!(matches!(
        action,
        Action::Respond(Response {
            status: 401,
            flow: Flow::MandatesRevoke,
            body: Body::Unauthorized(AuthError::MissingCredential)
        })
    ));
    assert!(dispatch.is_finished());
    assert!(table.is_empty());
}

#[test]
fn retrieval_with_an_empty_api_key_never_calls_the_handler() {
    let request = Request { api_key: Some(String::new()), bearer_token: None };
    let (prepared, id) = get_mandate(request, mandate("man_1"));
    let answers = Verdicts {
        api_key: KeyVerdict::Known(MerchantContext {
            merchant_id: String::from("merchant_1"),
            key_store: String::from("ks_1"),
        }),
        token: TokenVerdict::Invalid,
    };
    let mut table = ResourceLockTable::new();
    let mut calls: Vec<String> = Vec::new();
    let (response, payload) = dispatch(
        prepared.flow,
        prepared.auth,
        prepared.lock,
        prepared.request,
        answers,
        &mut table,
        id,
        |_, id: MandateId| -> Result<String, DomainError> {
            calls.push(id.mandate_id);
            Ok(String::from("{}"))
        },
    );
    assert_eq!(
        response,
        Response {
            status: 401,
            flow: Flow::MandatesRetrieve,
            body: Body::Unauthorized(AuthError::MissingCredential)
        }
    );
    assert_eq!(payload, None);
    assert_eq!(calls.len(), 0);
}
