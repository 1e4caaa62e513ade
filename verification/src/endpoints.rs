use vstd::prelude::*;
use crate::auth::{AuthSpec, AuthStrategy, Lookup};
use crate::dispatch::{Action, Body, Dispatch, Event, Phase, Response, Stage, invalid};
use crate::model::{
    AuthError, CredentialKind, Flow, LockAction, MandateId, Permission, Request,
};
use crate::query::{MandateListConstraints, NormalizedQuery, normalize};

verus! {

/// Authentication by the API key sent in its header.
pub open spec fn api_key_only() -> AuthSpec {
    AuthSpec::Single(AuthStrategy::HeaderAuth(Box::new(AuthStrategy::ApiKeyAuth)))
}

/// Authentication by a bearer token that grants `MerchantMandateRead`,
/// or, where no token is sent, by the API key sent in its header.
pub open spec fn token_or_api_key() -> AuthSpec {
    AuthSpec::Either {
        primary: AuthStrategy::JWTAuth { permission: Permission::MerchantMandateRead },
        secondary: AuthStrategy::HeaderAuth(Box::new(AuthStrategy::ApiKeyAuth)),
    }
}

/// The dispatch that a listing request starts as.
pub open spec fn listing(request: Request) -> Dispatch {
    Dispatch {
        flow: Flow::MandatesList,
        auth: token_or_api_key(),
        lock: LockAction::NotApplicable,
        request,
        stage: Stage::Received,
    }
}

/// Retrieves one mandate: `GET /mandates/{mandate_id}`.
///
/// Prepares the dispatch of the request and hands the identifier on as
/// the handler's input. The caller authenticates by API key; nothing is
/// locked. The identifier is a well-formed one, which is not empty.
pub fn get_mandate(request: Request, mandate_id: MandateId) -> (r: (Dispatch, MandateId))
    requires
        mandate_id.wf(),
    ensures
        r.0 == (Dispatch {
            flow: Flow::MandatesRetrieve,
            auth: api_key_only(),
            lock: LockAction::NotApplicable,
            request,
            stage: Stage::Received,
        }),
        r.1 == mandate_id,
{
    let auth = AuthSpec::Single(AuthStrategy::HeaderAuth(Box::new(AuthStrategy::ApiKeyAuth)));
    (Dispatch::new(Flow::MandatesRetrieve, auth, LockAction::NotApplicable, request), mandate_id)
}

/// Revokes one mandate: `POST /mandates/{mandate_id}/revoke`.
///
/// Prepares the dispatch of the request and hands the identifier on as
/// the handler's input. The caller authenticates by API key, and the
/// handler runs with exclusive access to the mandate. The identifier is a
/// well-formed one, which is not empty, and so is the key that is locked.
pub fn revoke_mandate(request: Request, mandate_id: MandateId) -> (r: (Dispatch, MandateId))
    requires
        mandate_id.wf(),
    ensures
        r.0 == (Dispatch {
            flow: Flow::MandatesRevoke,
            auth: api_key_only(),
            lock: LockAction::AcquireExclusive(mandate_id.mandate_id),
            request,
            stage: Stage::Received,
        }),
        r.1 == mandate_id,
{
    let auth = AuthSpec::Single(AuthStrategy::HeaderAuth(Box::new(AuthStrategy::ApiKeyAuth)));
    let lock = LockAction::AcquireExclusive(mandate_id.mandate_id.clone());
    (Dispatch::new(Flow::MandatesRevoke, auth, lock, request), mandate_id)
}

/// Lists mandates: `GET /mandates/list`.
///
/// Validates the filters against `max_limit` and prepares the dispatch of
/// the request, with the normalized filters as the handler's input.
/// Filters that are refused end the request with status 400 before
/// anything else is done. The caller authenticates by a bearer token that
/// grants `MerchantMandateRead` or by API key; nothing is locked.
pub fn retrieve_mandates_list(
    request: Request,
    payload: MandateListConstraints,
    max_limit: i64,
) -> (r: Result<(Dispatch, NormalizedQuery), Response>)
    ensures
        match payload.normalized(max_limit) {
            Ok(query) => r == Ok::<(Dispatch, NormalizedQuery), Response>(
                (listing(request), query),
            ),
            Err(error) => r == Err::<(Dispatch, NormalizedQuery), Response>(
                invalid(Flow::MandatesList, error),
            ),
        },
{
    match normalize(payload, max_limit) {
        Err(error) => Err(Response::for_invalid_input(Flow::MandatesList, error)),
        Ok(query) => {
            let auth = AuthSpec::Either {
                primary: AuthStrategy::JWTAuth { permission: Permission::MerchantMandateRead },
                secondary: AuthStrategy::HeaderAuth(Box::new(AuthStrategy::ApiKeyAuth)),
            };
            Ok(
                (
                    Dispatch::new(Flow::MandatesList, auth, LockAction::NotApplicable, request),
                    query,
                ),
            )
        },
    }
}

/// A request to an endpoint that authenticates by API key alone and
/// carries none, its header not sent or sent empty, is answered in its
/// first step with 401 and `MissingCredential`: the key store is not
/// asked, the handler is not run and no lock is touched.
pub proof fn lemma_key_endpoint_without_key(dispatch: Dispatch, held: Set<Seq<char>>)
    requires
        dispatch.auth == api_key_only(),
        dispatch.stage.phase() == Phase::Received,
        !dispatch.request.carries(CredentialKind::ApiKey),
    ensures
        dispatch.transition(held, Event::Arrived) == (
            Phase::Finished,
            held,
            Action::Respond(
                Response {
                    status: 401,
                    flow: dispatch.flow,
                    body: Body::Unauthorized(AuthError::MissingCredential),
                },
            ),
        ),
{
    let strategy = AuthStrategy::HeaderAuth(Box::new(AuthStrategy::ApiKeyAuth));
    assert(strategy.expects() == CredentialKind::ApiKey) by {
        reveal_with_fuel(AuthStrategy::expects, 3);
    }
    assert(api_key_only().consults(dispatch.request) == Lookup::Nothing);
    assert(api_key_only().unmet() == AuthError::MissingCredential);
}

/// A listing request with acceptable filters that carries neither a
/// bearer token nor an API key is answered in its first step with 401 and
/// `MissingCredential`; the handler is not run and no lock is touched.
pub proof fn lemma_list_without_credential(request: Request, held: Set<Seq<char>>)
    requires
        !request.carries(CredentialKind::ApiKey),
        !request.carries(CredentialKind::BearerToken),
    ensures
        listing(request).transition(held, Event::Arrived) == (
            Phase::Finished,
            held,
            Action::Respond(
                Response {
                    status: 401,
                    flow: Flow::MandatesList,
                    body: Body::Unauthorized(AuthError::MissingCredential),
                },
            ),
        ),
{
    let secondary = AuthStrategy::HeaderAuth(Box::new(AuthStrategy::ApiKeyAuth));
    assert(secondary.expects() == CredentialKind::ApiKey) by {
        reveal_with_fuel(AuthStrategy::expects, 3);
    }
    assert(token_or_api_key().consults(request) == Lookup::Nothing);
    assert(token_or_api_key().unmet() == AuthError::MissingCredential);
}

} // verus!
