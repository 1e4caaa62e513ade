use vstd::prelude::*;

verus! {

/// The logical operation a request belongs to. It is attached to every
/// response for observability and decides nothing.
#[derive(Clone, Copy, Debug, PartialEq, Eq, Structural)]
pub enum Flow {
    MandatesRetrieve,
    MandatesRevoke,
    MandatesList,
}

/// A capability that a token-authenticated caller may hold.
#[derive(Clone, Copy, Debug, PartialEq, Eq, Structural)]
pub enum Permission {
    MerchantMandateRead,
    MerchantMandateWrite,
}

/// Lifecycle state of a mandate. `Revoked` is terminal.
#[derive(Clone, Copy, Debug, PartialEq, Eq, Structural)]
pub enum MandateStatus {
    Active,
    Inactive,
    Pending,
    Revoked,
}

impl MandateStatus {
    /// Whether the state is final.
    pub open spec fn terminal(self) -> bool {
        self == MandateStatus::Revoked
    }

    /// Whether no further mutating operation may proceed from this state.
    pub fn is_terminal(&self) -> (r: bool)
        ensures
            r == self.terminal(),
    {
        match self {
            MandateStatus::Revoked => true,
            _ => false,
        }
    }
}

/// The two classes of credential a request can carry.
#[derive(Clone, Copy, Debug, PartialEq, Eq, Structural)]
pub enum CredentialKind {
    ApiKey,
    BearerToken,
}

/// Proof of identity taken from a request. A credential is never empty:
/// an empty header value is the same as no credential at all.
#[derive(Clone, Debug)]
pub enum Credential {
    ApiKey(String),
    BearerToken(String),
}

impl Credential {
    /// The secret the credential carries.
    pub open spec fn secret(self) -> Seq<char> {
        match self {
            Credential::ApiKey(s) => s@,
            Credential::BearerToken(s) => s@,
        }
    }

    /// The class the credential belongs to.
    pub open spec fn kind(self) -> CredentialKind {
        match self {
            Credential::ApiKey(_) => CredentialKind::ApiKey,
            Credential::BearerToken(_) => CredentialKind::BearerToken,
        }
    }

    /// A credential is well formed when its secret is not empty.
    pub open spec fn wf(self) -> bool {
        self.secret().len() > 0
    }

    /// An API-key credential, unless `value` is empty.
    pub fn api_key(value: String) -> (r: Option<Credential>)
        ensures
            r.is_some() <==> value@.len() > 0,
            r.is_some() ==> r.unwrap() == Credential::ApiKey(value) && r.unwrap().wf(),
    {
        if value.as_str().is_empty() {
            None
        } else {
            Some(Credential::ApiKey(value))
        }
    }

    /// A bearer-token credential, unless `value` is empty.
    pub fn bearer_token(value: String) -> (r: Option<Credential>)
        ensures
            r.is_some() <==> value@.len() > 0,
            r.is_some() ==> r.unwrap() == Credential::BearerToken(value) && r.unwrap().wf(),
    {
        if value.as_str().is_empty() {
            None
        } else {
            Some(Credential::BearerToken(value))
        }
    }

    /// The class the credential belongs to.
    pub fn class(&self) -> (r: CredentialKind)
        ensures
            r == self.kind(),
    {
        match self {
            Credential::ApiKey(_) => CredentialKind::ApiKey,
            Credential::BearerToken(_) => CredentialKind::BearerToken,
        }
    }

    /// The secret, to show to the collaborator that judges it.
    pub fn value(&self) -> (r: &String)
        ensures
            r@ == self.secret(),
    {
        match self {
            Credential::ApiKey(value) => value,
            Credential::BearerToken(value) => value,
        }
    }
}

/// What the authentication strategies read of an inbound request: the raw
/// value of the API-key header and the bearer token of the authorization
/// header, each absent when the request did not send it.
#[derive(Clone, Debug)]
pub struct Request {
    pub api_key: Option<String>,
    pub bearer_token: Option<String>,
}

/// The token of an authorization header that uses the bearer scheme: what
/// follows the seven characters `Bearer `.
pub open spec fn bearer_part(authorization: Seq<char>) -> Option<Seq<char>> {
    if authorization.len() >= 7 && authorization[0] == 'B' && authorization[1] == 'e'
        && authorization[2] == 'a' && authorization[3] == 'r' && authorization[4] == 'e'
        && authorization[5] == 'r' && authorization[6] == ' ' {
        Some(authorization.subrange(7, authorization.len() as int))
    } else {
        None
    }
}

/// Takes the token out of an authorization header; none where the header
/// does not use the bearer scheme.
pub fn bearer_token_of(authorization: &str) -> (r: Option<String>)
    ensures
        r.is_some() == bearer_part(authorization@).is_some(),
        r.is_some() ==> r.unwrap()@ == bearer_part(authorization@).unwrap(),
{
    let length = authorization.unicode_len();
    if length < 7 {
        return None;
    }
    if authorization.get_char(0) == 'B' && authorization.get_char(1) == 'e'
        && authorization.get_char(2) == 'a' && authorization.get_char(3) == 'r'
        && authorization.get_char(4) == 'e' && authorization.get_char(5) == 'r'
        && authorization.get_char(6) == ' ' {
        Some(authorization.substring_char(7, length).to_owned())
    } else {
        None
    }
}

impl Request {
    /// The request as the strategies see it, from the value of the API-key
    /// header and the value of the authorization header. An authorization
    /// header that does not use the bearer scheme counts as not sent.
    pub fn from_headers(api_key: Option<String>, authorization: Option<String>) -> (r: Request)
        ensures
            r.api_key == api_key,
            authorization.is_none() ==> r.bearer_token.is_none(),
            authorization.is_some() ==> r.bearer_token.is_some() == bearer_part(
                authorization.unwrap()@,
            ).is_some(),
            authorization.is_some() && r.bearer_token.is_some() ==> r.bearer_token.unwrap()@
                == bearer_part(authorization.unwrap()@).unwrap(),
    {
        let bearer_token = match &authorization {
            Some(value) => bearer_token_of(value.as_str()),
            None => None,
        };
        Request { api_key, bearer_token }
    }

    /// Whether the request carries a non-empty credential of class `kind`.
    pub open spec fn carries(self, kind: CredentialKind) -> bool {
        match kind {
            CredentialKind::ApiKey => self.api_key.is_some() && self.api_key.unwrap()@.len() > 0,
            CredentialKind::BearerToken => self.bearer_token.is_some()
                && self.bearer_token.unwrap()@.len() > 0,
        }
    }

    /// Whether the request carries a non-empty credential of class `kind`.
    pub fn has_credential(&self, kind: CredentialKind) -> (r: bool)
        ensures
            r == self.carries(kind),
    {
        match kind {
            CredentialKind::ApiKey => match &self.api_key {
                Some(v) => !v.as_str().is_empty(),
                None => false,
            },
            CredentialKind::BearerToken => match &self.bearer_token {
                Some(v) => !v.as_str().is_empty(),
                None => false,
            },
        }
    }

    /// The credential of class `kind` that the request carries, if it carries one.
    pub fn credential(&self, kind: CredentialKind) -> (r: Option<Credential>)
        ensures
            r.is_some() == self.carries(kind),
            r.is_some() ==> r.unwrap().wf() && r.unwrap().kind() == kind,
            r.is_some() && kind == CredentialKind::ApiKey ==> r.unwrap().secret()
                == self.api_key.unwrap()@,
            r.is_some() && kind == CredentialKind::BearerToken ==> r.unwrap().secret()
                == self.bearer_token.unwrap()@,
    {
        match kind {
            CredentialKind::ApiKey => match &self.api_key {
                Some(value) => Credential::api_key(value.clone()),
                None => None,
            },
            CredentialKind::BearerToken => match &self.bearer_token {
                Some(value) => Credential::bearer_token(value.clone()),
                None => None,
            },
        }
    }
}

/// Identifier of a mandate. It names the mandate and, for mutating flows,
/// the resource that is locked.
#[derive(Clone, Debug)]
pub struct MandateId {
    pub mandate_id: String,
}

impl MandateId {
    /// An identifier is well formed when it is not empty.
    pub open spec fn wf(self) -> bool {
        self.mandate_id@.len() > 0
    }

    /// The identifier `value`, unless it is empty.
    pub fn new(value: String) -> (r: Option<MandateId>)
        ensures
            r.is_some() <==> value@.len() > 0,
            r.is_some() ==> r.unwrap().mandate_id == value && r.unwrap().wf(),
    {
        if value.as_str().is_empty() {
            None
        } else {
            Some(MandateId { mandate_id: value })
        }
    }
}

/// Whether an operation needs exclusive access to a named resource.
#[derive(Clone, Debug)]
pub enum LockAction {
    NotApplicable,
    AcquireExclusive(String),
}

/// Why authentication failed.
#[derive(Clone, Copy, Debug, PartialEq, Eq, Structural)]
pub enum AuthError {
    MissingCredential,
    InvalidCredential,
    ExpiredToken,
    InvalidToken,
    InsufficientPermission,
}

/// Exclusive access was not obtained within the wait bound.
#[derive(Clone, Copy, Debug, PartialEq, Eq, Structural)]
pub struct LockContention;

/// Why list constraints were refused.
#[derive(Clone, Copy, Debug, PartialEq, Eq, Structural)]
pub enum ValidationError {
    OutOfBoundsLimit,
    NegativeOffset,
}

/// A failure reported by the handler. It is passed through, never reinterpreted.
#[derive(Clone, Copy, Debug, PartialEq, Eq, Structural)]
pub enum DomainError {
    NotFound,
    Conflict,
    Internal,
}

/// The merchant a credential belongs to, as a collaborator reports it.
#[derive(Clone, Debug)]
pub struct MerchantContext {
    pub merchant_id: String,
    pub key_store: String,
}

/// Who is making the request. One is built per request by the strategy
/// that succeeded; `permissions` is present only for token authentication.
#[derive(Clone, Debug)]
pub struct AuthenticationContext {
    pub merchant_id: String,
    pub key_store: String,
    pub permissions: Option<Vec<Permission>>,
}

} // verus!
