use vstd::prelude::*;
use crate::model::{
    AuthError, AuthenticationContext, CredentialKind, MerchantContext, Permission, Request,
};

verus! {

/// What the key store said of the request's API key.
#[derive(Clone, Debug)]
pub enum KeyVerdict {
    Unknown,
    Known(MerchantContext),
}

/// What the token verifier said of the request's bearer token.
#[derive(Clone, Debug)]
pub enum TokenVerdict {
    Invalid,
    Expired,
    Valid { merchant: MerchantContext, permissions: Option<Vec<Permission>> },
}

/// The collaborators' answers about one request. A collaborator that was
/// not consulted is recorded with its refusing answer.
#[derive(Clone, Debug)]
pub struct Verdicts {
    pub api_key: KeyVerdict,
    pub token: TokenVerdict,
}

/// The collaborator that has to be consulted before a request can be judged.
#[derive(Clone, Copy, Debug, PartialEq, Eq, Structural)]
pub enum Lookup {
    Nothing,
    KeyStore,
    TokenVerifier,
}

/// One way of authenticating a request.
#[derive(Debug)]
pub enum AuthStrategy {
    /// The API key, looked up in the key store.
    ApiKeyAuth,
    /// Takes the credential from its header and defers to the inner
    /// strategy; a header that was not sent, or was sent empty, is a
    /// missing credential.
    HeaderAuth(Box<AuthStrategy>),
    /// A bearer token that must grant `permission`.
    JWTAuth { permission: Permission },
}

/// Whether an optional permission set grants `wanted`. No set grants nothing.
pub open spec fn grants(permissions: Option<Vec<Permission>>, wanted: Permission) -> bool {
    permissions.is_some() && permissions.unwrap()@.contains(wanted)
}

/// Decides `grants` by walking the set.
pub fn permits(permissions: &Option<Vec<Permission>>, wanted: Permission) -> (r: bool)
    ensures
        r == grants(*permissions, wanted),
{
    match permissions {
        None => false,
        Some(held) => {
            let mut i: usize = 0;
            while i < held.len()
                invariant
                    i <= held.len(),
                    grants(*permissions, wanted) == held@.contains(wanted),
                    forall|j: int| 0 <= j < i ==> held@[j] != wanted,
                decreases held.len() - i,
            {
                if held[i] == wanted {
                    assert(held@[i as int] == wanted);
                    return true;
                }
                i += 1;
            }
            false
        },
    }
}

/// The context that key authentication builds from the key store's answer.
pub open spec fn key_context(merchant: MerchantContext) -> AuthenticationContext {
    AuthenticationContext {
        merchant_id: merchant.merchant_id,
        key_store: merchant.key_store,
        permissions: None,
    }
}

/// The context that token authentication builds from the verifier's answer.
pub open spec fn token_context(
    merchant: MerchantContext,
    permissions: Option<Vec<Permission>>,
) -> AuthenticationContext {
    AuthenticationContext {
        merchant_id: merchant.merchant_id,
        key_store: merchant.key_store,
        permissions,
    }
}

/// The judgement of a present API key.
pub open spec fn judge_key(verdict: KeyVerdict) -> Result<AuthenticationContext, AuthError> {
    match verdict {
        KeyVerdict::Unknown => Err(AuthError::InvalidCredential),
        KeyVerdict::Known(merchant) => Ok(key_context(merchant)),
    }
}

/// The judgement of a present bearer token that has to grant `wanted`.
pub open spec fn judge_token(verdict: TokenVerdict, wanted: Permission) -> Result<
    AuthenticationContext,
    AuthError,
> {
    match verdict {
        TokenVerdict::Invalid => Err(AuthError::InvalidToken),
        TokenVerdict::Expired => Err(AuthError::ExpiredToken),
        TokenVerdict::Valid { merchant, permissions } => if grants(permissions, wanted) {
            Ok(token_context(merchant, permissions))
        } else {
            Err(AuthError::InsufficientPermission)
        },
    }
}

impl AuthStrategy {
    /// The class of credential the strategy examines.
    pub open spec fn expects(self) -> CredentialKind
        decreases self,
    {
        match self {
            AuthStrategy::ApiKeyAuth => CredentialKind::ApiKey,
            AuthStrategy::HeaderAuth(inner) => inner.expects(),
            AuthStrategy::JWTAuth { .. } => CredentialKind::BearerToken,
        }
    }

    /// The failure a strategy reports when the request does not carry the
    /// credential it examines: a header strategy and the token strategy
    /// miss the credential, and the key strategy by itself refuses the
    /// absent key as invalid.
    pub open spec fn unmet(self) -> AuthError {
        match self {
            AuthStrategy::ApiKeyAuth => AuthError::InvalidCredential,
            AuthStrategy::HeaderAuth(_) => AuthError::MissingCredential,
            AuthStrategy::JWTAuth { .. } => AuthError::MissingCredential,
        }
    }

    /// What the strategy makes of `request`, given the collaborators' answers.
    pub open spec fn outcome(self, request: Request, verdicts: Verdicts) -> Result<
        AuthenticationContext,
        AuthError,
    >
        decreases self,
    {
        match self {
            AuthStrategy::ApiKeyAuth => if request.carries(CredentialKind::ApiKey) {
                judge_key(verdicts.api_key)
            } else {
                Err(AuthError::InvalidCredential)
            },
            AuthStrategy::HeaderAuth(inner) => if request.carries(inner.expects()) {
                inner.outcome(request, verdicts)
            } else {
                Err(AuthError::MissingCredential)
            },
            AuthStrategy::JWTAuth { permission } => if request.carries(
                CredentialKind::BearerToken,
            ) {
                judge_token(verdicts.token, permission)
            } else {
                Err(AuthError::MissingCredential)
            },
        }
    }

    /// The collaborator whose answer decides the outcome, if any does.
    pub open spec fn consults(self, request: Request) -> Lookup {
        if !request.carries(self.expects()) {
            Lookup::Nothing
        } else if self.expects() == CredentialKind::ApiKey {
            Lookup::KeyStore
        } else {
            Lookup::TokenVerifier
        }
    }

    /// The class of credential the strategy examines.
    pub fn credential_kind(&self) -> (r: CredentialKind)
        ensures
            r == self.expects(),
        decreases *self,
    {
        match self {
            AuthStrategy::ApiKeyAuth => CredentialKind::ApiKey,
            AuthStrategy::HeaderAuth(inner) => inner.credential_kind(),
            AuthStrategy::JWTAuth { .. } => CredentialKind::BearerToken,
        }
    }

    /// Says which collaborator must be asked before `evaluate` can judge
    /// `request`: none when the request lacks the credential the strategy examines.
    pub fn lookup(&self, request: &Request) -> (r: Lookup)
        ensures
            r == self.consults(*request),
            r == Lookup::Nothing <==> !request.carries(self.expects()),
    {
        let kind = self.credential_kind();
        if !request.has_credential(kind) {
            Lookup::Nothing
        } else {
            match kind {
                CredentialKind::ApiKey => Lookup::KeyStore,
                CredentialKind::BearerToken => Lookup::TokenVerifier,
            }
        }
    }

    /// The failure to report where the request lacks the credential the
    /// strategy examines.
    pub fn refusal(&self) -> (r: AuthError)
        ensures
            r == self.unmet(),
    {
        match self {
            AuthStrategy::ApiKeyAuth => AuthError::InvalidCredential,
            AuthStrategy::HeaderAuth(_) => AuthError::MissingCredential,
            AuthStrategy::JWTAuth { .. } => AuthError::MissingCredential,
        }
    }

    /// Judges `request`. Where the request lacks the credential the
    /// strategy examines, the strategy fails without regard to the
    /// collaborators; otherwise the collaborator's verdict decides, and a
    /// valid token must also grant the permission the strategy asks for.
    pub fn evaluate(&self, request: &Request, verdicts: Verdicts) -> (r: Result<
        AuthenticationContext,
        AuthError,
    >)
        ensures
            r == self.outcome(*request, verdicts),
            !request.carries(self.expects()) ==> r == Err::<AuthenticationContext, AuthError>(
                self.unmet(),
            ),
            r == Err::<AuthenticationContext, AuthError>(AuthError::MissingCredential)
                ==> !request.carries(self.expects()),
        decreases *self,
    {
        proof {
            self.lemma_credential_decides(*request, verdicts);
        }
        match self {
            AuthStrategy::ApiKeyAuth => {
                if !request.has_credential(CredentialKind::ApiKey) {
                    return Err(AuthError::InvalidCredential);
                }
                match verdicts.api_key {
                    KeyVerdict::Unknown => Err(AuthError::InvalidCredential),
                    KeyVerdict::Known(merchant) => Ok(
                        AuthenticationContext {
                            merchant_id: merchant.merchant_id,
                            key_store: merchant.key_store,
                            permissions: None,
                        },
                    ),
                }
            },
            AuthStrategy::HeaderAuth(inner) => {
                if !request.has_credential(inner.credential_kind()) {
                    return Err(AuthError::MissingCredential);
                }
                inner.evaluate(request, verdicts)
            },
            AuthStrategy::JWTAuth { permission } => {
                if !request.has_credential(CredentialKind::BearerToken) {
                    return Err(AuthError::MissingCredential);
                }
                match verdicts.token {
                    TokenVerdict::Invalid => Err(AuthError::InvalidToken),
                    TokenVerdict::Expired => Err(AuthError::ExpiredToken),
                    TokenVerdict::Valid { merchant, permissions } => {
                        if permits(&permissions, *permission) {
                            Ok(
                                AuthenticationContext {
                                    merchant_id: merchant.merchant_id,
                                    key_store: merchant.key_store,
                                    permissions,
                                },
                            )
                        } else {
                            Err(AuthError::InsufficientPermission)
                        }
                    },
                }
            },
        }
    }

    /// Whether the request carries the credential decides how a strategy
    /// fails: without it the failure is fixed, whatever the collaborators
    /// would have said, and with it the strategy never reports a missing
    /// credential.
    pub proof fn lemma_credential_decides(self, request: Request, verdicts: Verdicts)
        ensures
            !request.carries(self.expects()) ==> self.outcome(request, verdicts) == Err::<
                AuthenticationContext,
                AuthError,
            >(self.unmet()),
            request.carries(self.expects()) ==> self.outcome(request, verdicts) != Err::<
                AuthenticationContext,
                AuthError,
            >(AuthError::MissingCredential),
        decreases self,
    {
        match self {
            AuthStrategy::HeaderAuth(inner) => {
                inner.lemma_credential_decides(request, verdicts);
            },
            _ => {},
        }
    }

    /// The outcome rests on one collaborator only: two sets of answers that
    /// agree on the collaborator the strategy consults give the same outcome.
    pub proof fn lemma_only_consulted_verdict_counts(
        self,
        request: Request,
        a: Verdicts,
        b: Verdicts,
    )
        requires
            self.consults(request) == Lookup::KeyStore ==> a.api_key == b.api_key,
            self.consults(request) == Lookup::TokenVerifier ==> a.token == b.token,
        ensures
            self.outcome(request, a) == self.outcome(request, b),
        decreases self,
    {
        match self {
            AuthStrategy::HeaderAuth(inner) => {
                inner.lemma_only_consulted_verdict_counts(request, a, b);
            },
            _ => {},
        }
    }
}

/// What a pair of strategies makes of a request. The primary decides,
/// unless it reports a missing credential; then the secondary is tried,
/// and its failure counts only if it had a credential to examine: where
/// neither found one, the credential is missing.
pub open spec fn resolved(
    primary: AuthStrategy,
    secondary: AuthStrategy,
    request: Request,
    verdicts: Verdicts,
) -> Result<AuthenticationContext, AuthError> {
    match primary.outcome(request, verdicts) {
        Err(AuthError::MissingCredential) => match secondary.outcome(request, verdicts) {
            Err(error) => if request.carries(secondary.expects()) {
                Err(error)
            } else {
                Err(AuthError::MissingCredential)
            },
            Ok(context) => Ok(context),
        },
        decided => decided,
    }
}

/// Tries `primary`, and `secondary` only where `primary` reports a missing
/// credential. Any other failure of `primary` is final.
pub fn resolve(
    primary: &AuthStrategy,
    secondary: &AuthStrategy,
    request: &Request,
    verdicts: Verdicts,
) -> (r: Result<AuthenticationContext, AuthError>)
    ensures
        r == resolved(*primary, *secondary, *request, verdicts),
        request.carries(primary.expects()) ==> r == primary.outcome(*request, verdicts),
        !request.carries(primary.expects()) && primary.unmet()
            != AuthError::MissingCredential ==> r == Err::<AuthenticationContext, AuthError>(
            primary.unmet(),
        ),
        !request.carries(primary.expects()) && primary.unmet()
            == AuthError::MissingCredential && request.carries(secondary.expects()) ==> r
            == secondary.outcome(*request, verdicts),
        !request.carries(primary.expects()) && primary.unmet()
            == AuthError::MissingCredential && !request.carries(secondary.expects()) ==> r
            == Err::<AuthenticationContext, AuthError>(AuthError::MissingCredential),
{
    proof {
        primary.lemma_credential_decides(*request, verdicts);
        secondary.lemma_credential_decides(*request, verdicts);
    }
    if request.has_credential(primary.credential_kind()) {
        return primary.evaluate(request, verdicts);
    }
    let refused = primary.refusal();
    match refused {
        AuthError::MissingCredential => {
            if request.has_credential(secondary.credential_kind()) {
                secondary.evaluate(request, verdicts)
            } else {
                Err(AuthError::MissingCredential)
            }
        },
        _ => Err(refused),
    }
}

/// How an endpoint authenticates: by one strategy, or by a pair with precedence.
#[derive(Debug)]
pub enum AuthSpec {
    Single(AuthStrategy),
    Either { primary: AuthStrategy, secondary: AuthStrategy },
}

impl AuthSpec {
    /// What the endpoint makes of `request`, given the collaborators' answers.
    pub open spec fn outcome(self, request: Request, verdicts: Verdicts) -> Result<
        AuthenticationContext,
        AuthError,
    > {
        match self {
            AuthSpec::Single(strategy) => strategy.outcome(request, verdicts),
            AuthSpec::Either { primary, secondary } => resolved(
                primary,
                secondary,
                request,
                verdicts,
            ),
        }
    }

    /// The collaborator whose answer decides the outcome: that of the
    /// strategy that examines a credential of the request, if one does.
    pub open spec fn consults(self, request: Request) -> Lookup {
        match self {
            AuthSpec::Single(strategy) => strategy.consults(request),
            AuthSpec::Either { primary, secondary } => if request.carries(primary.expects()) {
                primary.consults(request)
            } else if primary.unmet() == AuthError::MissingCredential {
                secondary.consults(request)
            } else {
                Lookup::Nothing
            },
        }
    }

    /// The failure where no strategy examines a credential of the request.
    pub open spec fn unmet(self) -> AuthError {
        match self {
            AuthSpec::Single(strategy) => strategy.unmet(),
            AuthSpec::Either { primary, .. } => primary.unmet(),
        }
    }

    /// Says which collaborator must be asked before `authenticate` can
    /// judge `request`; none where no strategy examines a credential.
    pub fn lookup(&self, request: &Request) -> (r: Lookup)
        ensures
            r == self.consults(*request),
    {
        match self {
            AuthSpec::Single(strategy) => strategy.lookup(request),
            AuthSpec::Either { primary, secondary } => {
                if request.has_credential(primary.credential_kind()) {
                    primary.lookup(request)
                } else {
                    match primary.refusal() {
                        AuthError::MissingCredential => secondary.lookup(request),
                        _ => Lookup::Nothing,
                    }
                }
            },
        }
    }

    /// The failure to report where `lookup` names no collaborator.
    pub fn refusal(&self) -> (r: AuthError)
        ensures
            r == self.unmet(),
    {
        match self {
            AuthSpec::Single(strategy) => strategy.refusal(),
            AuthSpec::Either { primary, .. } => primary.refusal(),
        }
    }

    /// Judges `request` by the strategy, or by the pair with precedence.
    pub fn authenticate(&self, request: &Request, verdicts: Verdicts) -> (r: Result<
        AuthenticationContext,
        AuthError,
    >)
        ensures
            r == self.outcome(*request, verdicts),
            self.consults(*request) == Lookup::Nothing ==> r == Err::<
                AuthenticationContext,
                AuthError,
            >(self.unmet()),
    {
        proof {
            if self.consults(*request) == Lookup::Nothing {
                self.lemma_nothing_to_consult(*request, verdicts);
            }
        }
        match self {
            AuthSpec::Single(strategy) => strategy.evaluate(request, verdicts),
            AuthSpec::Either { primary, secondary } => resolve(
                primary,
                secondary,
                request,
                verdicts,
            ),
        }
    }

    /// Where no collaborator needs to be asked, authentication fails, and
    /// with the same failure whatever the collaborators would have said.
    pub proof fn lemma_nothing_to_consult(self, request: Request, verdicts: Verdicts)
        requires
            self.consults(request) == Lookup::Nothing,
        ensures
            self.outcome(request, verdicts) == Err::<AuthenticationContext, AuthError>(
                self.unmet(),
            ),
    {
        match self {
            AuthSpec::Single(strategy) => {
                strategy.lemma_credential_decides(request, verdicts);
            },
            AuthSpec::Either { primary, secondary } => {
                primary.lemma_credential_decides(request, verdicts);
                secondary.lemma_credential_decides(request, verdicts);
            },
        }
    }

    /// The outcome rests on one collaborator only: two sets of answers that
    /// agree on the collaborator that is consulted give the same outcome.
    pub proof fn lemma_only_consulted_verdict_counts(self, request: Request, a: Verdicts, b: Verdicts)
        requires
            self.consults(request) == Lookup::KeyStore ==> a.api_key == b.api_key,
            self.consults(request) == Lookup::TokenVerifier ==> a.token == b.token,
        ensures
            self.outcome(request, a) == self.outcome(request, b),
    {
        match self {
            AuthSpec::Single(strategy) => {
                strategy.lemma_only_consulted_verdict_counts(request, a, b);
            },
            AuthSpec::Either { primary, secondary } => {
                primary.lemma_credential_decides(request, a);
                primary.lemma_credential_decides(request, b);
                secondary.lemma_credential_decides(request, a);
                secondary.lemma_credential_decides(request, b);
                if request.carries(primary.expects()) {
                    primary.lemma_only_consulted_verdict_counts(request, a, b);
                } else if primary.unmet() == AuthError::MissingCredential {
                    secondary.lemma_only_consulted_verdict_counts(request, a, b);
                }
            },
        }
    }
}

/// Precedence between a pair of strategies: where the request carries the
/// credential the primary examines, the primary alone decides, also when
/// the secondary's credential is present too; where the primary misses
/// its credential and the request carries the secondary's, the secondary
/// decides; where both miss theirs, the credential is missing.
pub proof fn lemma_precedence(
    primary: AuthStrategy,
    secondary: AuthStrategy,
    request: Request,
    verdicts: Verdicts,
)
    ensures
        request.carries(primary.expects()) ==> resolved(primary, secondary, request, verdicts)
            == primary.outcome(request, verdicts),
        !request.carries(primary.expects()) && primary.unmet()
            == AuthError::MissingCredential && request.carries(secondary.expects()) ==> resolved(
            primary,
            secondary,
            request,
            verdicts,
        ) == secondary.outcome(request, verdicts),
        !request.carries(primary.expects()) && primary.unmet()
            == AuthError::MissingCredential && !request.carries(secondary.expects()) ==> resolved(
            primary,
            secondary,
            request,
            verdicts,
        ) == Err::<AuthenticationContext, AuthError>(AuthError::MissingCredential),
{
    primary.lemma_credential_decides(request, verdicts);
    secondary.lemma_credential_decides(request, verdicts);
}

/// A token strategy paired with a key strategy: with a bearer token present
/// the token's verdict decides, with or without an API key beside it; with
/// only an API key present the key store's verdict decides; with neither
/// the credential is missing.
pub proof fn lemma_token_before_key(permission: Permission, request: Request, verdicts: Verdicts)
    ensures
        request.carries(CredentialKind::BearerToken) ==> resolved(
            AuthStrategy::JWTAuth { permission },
            AuthStrategy::ApiKeyAuth,
            request,
            verdicts,
        ) == judge_token(verdicts.token, permission),
        !request.carries(CredentialKind::BearerToken) && request.carries(CredentialKind::ApiKey)
            ==> resolved(
            AuthStrategy::JWTAuth { permission },
            AuthStrategy::ApiKeyAuth,
            request,
            verdicts,
        ) == judge_key(verdicts.api_key),
        !request.carries(CredentialKind::BearerToken) && !request.carries(CredentialKind::ApiKey)
            ==> resolved(
            AuthStrategy::JWTAuth { permission },
            AuthStrategy::ApiKeyAuth,
            request,
            verdicts,
        ) == Err::<AuthenticationContext, AuthError>(AuthError::MissingCredential),
{
}

/// A valid token that comes without any permission set is refused for
/// insufficient permission, whichever permission is asked for.
pub proof fn lemma_no_permission_set_is_insufficient(
    permission: Permission,
    request: Request,
    verdicts: Verdicts,
    merchant: MerchantContext,
)
    requires
        request.carries(CredentialKind::BearerToken),
        verdicts.token == (TokenVerdict::Valid { merchant, permissions: None }),
    ensures
        (AuthStrategy::JWTAuth { permission }).outcome(request, verdicts) == Err::<
            AuthenticationContext,
            AuthError,
        >(AuthError::InsufficientPermission),
{
}

} // verus!
