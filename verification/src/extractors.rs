//! Request verification: from the two token headers of a request to the claims of its
//! sender, or to the rejection that the request is answered with.

use vstd::prelude::*;

use crate::claims::{
    unix_timestamp_now,
    AccessClaimsView,
    AccessTokenClaims,
    RefreshClaimsView,
    RefreshTokenClaims,
};
use crate::database::Role;
use crate::errors::{ErrorKind, HttpError};
use crate::session::{ids_view, spec_delete, SessionStore};
use crate::token::{is_past, KeyView, TokenCodec};

verus! {

/// The claims of both tokens of a request that was let through.
#[derive(Debug)]
pub struct AuthenticatedClaims {
    pub access_token: AccessTokenClaims,
    pub refresh_token: RefreshTokenClaims,
}

/// The claims of both tokens as plain values.
pub ghost struct AuthenticatedView {
    pub access: AccessClaimsView,
    pub refresh: RefreshClaimsView,
}

impl View for AuthenticatedClaims {
    type V = AuthenticatedView;

    open spec fn view(&self) -> AuthenticatedView {
        AuthenticatedView { access: self.access_token@, refresh: self.refresh_token@ }
    }
}

/// What verification decided: the claims or the rejection, and the sessions that are to be
/// revoked before the answer goes out.
#[derive(Debug)]
pub struct Verdict {
    pub outcome: Result<AuthenticatedClaims, HttpError>,
    pub revoke: Vec<String>,
}

/// A verdict as plain values.
pub ghost struct VerdictView {
    pub outcome: Result<AuthenticatedView, ErrorKind>,
    pub revoke: Seq<Seq<char>>,
}

/// An outcome as plain values: the claims, or the kind of the error.
pub open spec fn outcome_view(outcome: Result<AuthenticatedClaims, HttpError>) -> Result<
    AuthenticatedView,
    ErrorKind,
> {
    match outcome {
        Ok(claims) => Ok(claims@),
        Err(e) => Err(e.kind()),
    }
}

impl View for Verdict {
    type V = VerdictView;

    open spec fn view(&self) -> VerdictView {
        VerdictView { outcome: outcome_view(self.outcome), revoke: ids_view(self.revoke@) }
    }
}

/// A header as a plain value.
pub open spec fn header_view(header: Option<&str>) -> Option<Seq<char>> {
    match header {
        Some(text) => Some(text@),
        None => None,
    }
}

/// A rejection that revokes nothing.
pub open spec fn spec_reject(kind: ErrorKind) -> VerdictView {
    VerdictView { outcome: Err(kind), revoke: Seq::empty() }
}

/// The claims that the two headers present: both headers are there, neither is empty, and
/// each holds a token that its key accepts. Anything less is invalid credentials.
pub open spec fn spec_presented(
    keys: KeyView,
    access: Option<Seq<char>>,
    refresh: Option<Seq<char>>,
) -> Result<AuthenticatedView, ErrorKind> {
    if access is None || refresh is None {
        Err(ErrorKind::InvalidAuthenticationCredentials)
    } else if access->0.len() == 0 || refresh->0.len() == 0 {
        Err(ErrorKind::InvalidAuthenticationCredentials)
    } else {
        match (keys.decode_access(access->0), keys.decode_refresh(refresh->0)) {
            (Ok(a), Ok(r)) => Ok(AuthenticatedView { access: a, refresh: r }),
            _ => Err(ErrorKind::InvalidAuthenticationCredentials),
        }
    }
}

/// The verdict on a request at `now`. Credentials that are missing or do not decode are
/// invalid. Tokens of two different sessions are unauthorized, and both sessions are
/// revoked. Tokens of one session of which either has expired are unauthorized. Everything
/// else is let through with its claims.
pub open spec fn spec_validate(
    keys: KeyView,
    access: Option<Seq<char>>,
    refresh: Option<Seq<char>>,
    now: int,
) -> VerdictView {
    match spec_presented(keys, access, refresh) {
        Err(kind) => spec_reject(kind),
        Ok(claims) => if claims.access.sid != claims.refresh.sid {
            VerdictView {
                outcome: Err(ErrorKind::Unauthorized),
                revoke: seq![claims.access.sid, claims.refresh.sid],
            }
        } else if claims.access.exp < now || claims.refresh.exp < now {
            spec_reject(ErrorKind::Unauthorized)
        } else {
            VerdictView { outcome: Ok(claims), revoke: Seq::empty() }
        },
    }
}

/// What the role gate makes of an outcome: claims with another role than the required one
/// are forbidden; a rejection stays what it was.
pub open spec fn spec_require_role(
    outcome: Result<AuthenticatedView, ErrorKind>,
    required: Role,
) -> Result<AuthenticatedView, ErrorKind> {
    match outcome {
        Ok(claims) => if claims.access.rle == required {
            Ok(claims)
        } else {
            Err(ErrorKind::Forbidden)
        },
        Err(kind) => Err(kind),
    }
}

/// Reads the claims that the two headers present.
pub fn present_tokens(codec: &TokenCodec, access: Option<&str>, refresh: Option<&str>) -> (r:
    Result<AuthenticatedClaims, HttpError>)
    ensures
        outcome_view(r) == spec_presented(codec@, header_view(access), header_view(refresh)),
{
    let (access, refresh) = match (access, refresh) {
        (Some(access), Some(refresh)) => (access, refresh),
        _ => { return Err(HttpError::InvalidAuthenticationCredentials); },
    };
    if access.is_empty() || refresh.is_empty() {
        return Err(HttpError::InvalidAuthenticationCredentials);
    }
    let access_token = match codec.decode_access(access) {
        Ok(claims) => claims,
        Err(_) => { return Err(HttpError::InvalidAuthenticationCredentials); },
    };
    let refresh_token = match codec.decode_refresh(refresh) {
        Ok(claims) => claims,
        Err(_) => { return Err(HttpError::InvalidAuthenticationCredentials); },
    };
    Ok(AuthenticatedClaims { access_token, refresh_token })
}

/// Decides on a request whose headers are given, at the moment `now`.
pub fn validate_tokens_at(
    codec: &TokenCodec,
    access: Option<&str>,
    refresh: Option<&str>,
    now: i64,
) -> (r: Verdict)
    ensures
        r@ == spec_validate(codec@, header_view(access), header_view(refresh), now as int),
{
    let claims = match present_tokens(codec, access, refresh) {
        Ok(claims) => claims,
        Err(e) => {
            let v = Verdict { outcome: Err(e), revoke: Vec::new() };
            assert(v@.revoke =~= Seq::empty());
            return v;
        },
    };
    if claims.access_token.sid != claims.refresh_token.sid {
        let mut revoke: Vec<String> = Vec::new();
        revoke.push(claims.access_token.sid.clone());
        revoke.push(claims.refresh_token.sid.clone());
        let v = Verdict { outcome: Err(HttpError::Unauthorized), revoke };
        assert(v@.revoke =~= seq![claims@.access.sid, claims@.refresh.sid]);
        return v;
    }
    if is_past(claims.access_token.exp, now) || is_past(claims.refresh_token.exp, now) {
        let v = Verdict { outcome: Err(HttpError::Unauthorized), revoke: Vec::new() };
        assert(v@.revoke =~= Seq::empty());
        return v;
    }
    let v = Verdict { outcome: Ok(claims), revoke: Vec::new() };
    assert(v@.revoke =~= Seq::empty());
    v
}

/// The verdict is the one that belongs to some moment.
pub open spec fn decided_at_some_moment(
    keys: KeyView,
    access: Option<Seq<char>>,
    refresh: Option<Seq<char>>,
    verdict: VerdictView,
) -> bool {
    exists|now: int| verdict == #[trigger] spec_validate(keys, access, refresh, now)
}

/// Decides on a request whose headers are given, at the moment the clock shows.
pub fn validate_tokens_in_header(
    codec: &TokenCodec,
    access: Option<&str>,
    refresh: Option<&str>,
) -> (r: Verdict)
    ensures
        decided_at_some_moment(codec@, header_view(access), header_view(refresh), r@),
{
    let now = unix_timestamp_now();
    let r = validate_tokens_at(codec, access, refresh, now);
    assert(r@ == spec_validate(codec@, header_view(access), header_view(refresh), now as int));
    r
}

/// Decides on a request and revokes in the store what the verdict says is to be revoked.
pub fn authenticate(
    codec: &TokenCodec,
    store: &mut SessionStore,
    access: Option<&str>,
    refresh: Option<&str>,
    now: i64,
) -> (r: Result<AuthenticatedClaims, HttpError>)
    requires
        old(store).wf(),
    ensures
        final(store).wf(),
        outcome_view(r) == spec_validate(
            codec@,
            header_view(access),
            header_view(refresh),
            now as int,
        ).outcome,
        final(store)@ == spec_delete(
            old(store)@,
            spec_validate(codec@, header_view(access), header_view(refresh), now as int).revoke,
        ),
{
    let verdict = validate_tokens_at(codec, access, refresh, now);
    let _ = store.delete(&verdict.revoke);
    verdict.outcome
}

/// The role gate: lets claims through whose role is the required one.
pub fn require_role(outcome: Result<AuthenticatedClaims, HttpError>, required: Role) -> (r: Result<
    AuthenticatedClaims,
    HttpError,
>)
    ensures
        outcome_view(r) == spec_require_role(outcome_view(outcome), required),
        r matches Ok(claims) ==> outcome == Ok::<AuthenticatedClaims, HttpError>(claims),
{
    match outcome {
        Ok(claims) => if claims.access_token.rle == required {
            Ok(claims)
        } else {
            Err(HttpError::Forbidden)
        },
        Err(e) => Err(e),
    }
}

/// The claims of a request that any signed-in user may make.
#[derive(Debug)]
pub struct AuthenticatedUserClaims(pub AuthenticatedClaims);

/// The claims of a request that only an administrator may make.
#[derive(Debug)]
pub struct AuthenticatedAdminClaims(pub AuthenticatedClaims);

impl AuthenticatedUserClaims {
    /// Lets through what verification let through.
    pub fn from_outcome(outcome: Result<AuthenticatedClaims, HttpError>) -> (r: Result<
        AuthenticatedUserClaims,
        HttpError,
    >)
        ensures
            match r {
                Ok(user) => outcome == Ok::<AuthenticatedClaims, HttpError>(user.0),
                Err(e) => outcome == Err::<AuthenticatedClaims, HttpError>(e),
            },
    {
        match outcome {
            Ok(claims) => Ok(AuthenticatedUserClaims(claims)),
            Err(e) => Err(e),
        }
    }
}

impl AuthenticatedAdminClaims {
    /// Lets through what verification let through, if the role is that of an administrator.
    pub fn from_outcome(outcome: Result<AuthenticatedClaims, HttpError>) -> (r: Result<
        AuthenticatedAdminClaims,
        HttpError,
    >)
        ensures
            match r {
                Ok(admin) => outcome == Ok::<AuthenticatedClaims, HttpError>(admin.0)
                    && admin.0@.access.rle == Role::Admin,
                Err(e) => Err::<AuthenticatedView, ErrorKind>(e.kind()) == spec_require_role(
                    outcome_view(outcome),
                    Role::Admin,
                ),
            },
    {
        match require_role(outcome, Role::Admin) {
            Ok(claims) => Ok(AuthenticatedAdminClaims(claims)),
            Err(e) => Err(e),
        }
    }
}

/// Tokens of two different sessions, presented together, are unauthorized at every moment,
/// and both sessions leave the store.
pub proof fn lemma_session_binding(
    keys: KeyView,
    access: Seq<char>,
    refresh: Seq<char>,
    now: int,
)
    requires
        access.len() > 0,
        refresh.len() > 0,
        keys.decode_access(access) is Ok,
        keys.decode_refresh(refresh) is Ok,
        keys.decode_access(access)->Ok_0.sid != keys.decode_refresh(refresh)->Ok_0.sid,
    ensures
        spec_validate(keys, Some(access), Some(refresh), now).outcome == Err::<
            AuthenticatedView,
            ErrorKind,
        >(ErrorKind::Unauthorized),
        forall|table: Map<Seq<char>, crate::database::SessionView>|
            {
                let after = #[trigger] spec_delete(
                    table,
                    spec_validate(keys, Some(access), Some(refresh), now).revoke,
                );
                &&& !after.dom().contains(keys.decode_access(access)->Ok_0.sid)
                &&& !after.dom().contains(keys.decode_refresh(refresh)->Ok_0.sid)
            },
{
    let a = keys.decode_access(access)->Ok_0.sid;
    let r = keys.decode_refresh(refresh)->Ok_0.sid;
    let revoke = spec_validate(keys, Some(access), Some(refresh), now).revoke;
    assert(revoke == seq![a, r]);
    assert(revoke[0] == a && revoke[1] == r);
    assert(revoke.to_set().contains(a));
    assert(revoke.to_set().contains(r));
}

/// The role gate is independent of the rest: a pair of tokens that is valid, unexpired and
/// of one session, whose role is not the required one, is forbidden and nothing else.
pub proof fn lemma_role_gate(
    keys: KeyView,
    access: Option<Seq<char>>,
    refresh: Option<Seq<char>>,
    now: int,
    required: Role,
)
    requires
        spec_validate(keys, access, refresh, now).outcome is Ok,
        spec_validate(keys, access, refresh, now).outcome->Ok_0.access.rle != required,
    ensures
        spec_require_role(spec_validate(keys, access, refresh, now).outcome, required) == Err::<
            AuthenticatedView,
            ErrorKind,
        >(ErrorKind::Forbidden),
{
}

} // verus!
