//! The authenticator: a token codec and a session store under one roof, for callers that
//! keep their sessions in memory.

use vstd::prelude::*;

use crate::claims::unix_timestamp_now;
use crate::database::{Role, SessionView};
use crate::errors::{ErrorKind, HttpError};
use crate::extractors::{
    authenticate,
    header_view,
    outcome_view,
    require_role,
    spec_require_role,
    spec_validate,
    AuthenticatedClaims,
};
use crate::refresh::{refresh, refreshed};
use crate::session::{spec_delete, SessionStore};
use crate::signin::{
    new_session_id,
    response_view,
    sign_in_with,
    signed_in,
    spec_sign_in,
    TokenPair,
};
use crate::token::{KeyMaterial, KeyView, TokenCodec};

verus! {

/// Lets claims through that carry one role, and no others.
#[derive(Clone, Copy, Debug)]
pub struct RoleGate {
    pub required: Role,
}

impl RoleGate {
    /// Decides on an outcome of verification by the role it carries.
    pub fn decide(&self, outcome: Result<AuthenticatedClaims, HttpError>) -> (r: Result<
        AuthenticatedClaims,
        HttpError,
    >)
        ensures
            outcome_view(r) == spec_require_role(outcome_view(outcome), self.required),
    {
        require_role(outcome, self.required)
    }
}

/// Issues tokens, verifies requests and rotates refresh tokens against its own store.
#[derive(Debug)]
pub struct Authenticator {
    pub codec: TokenCodec,
    pub store: SessionStore,
}

impl Authenticator {
    /// The store holds at most one row for each session.
    pub open spec fn wf(&self) -> bool {
        self.store.wf()
    }

    /// The keys that the authenticator signs and checks with.
    pub open spec fn keys(&self) -> KeyView {
        self.codec@
    }

    /// The table of sessions.
    pub open spec fn sessions(&self) -> Map<Seq<char>, SessionView> {
        self.store@
    }

    /// An authenticator with the given keys and no sessions.
    pub fn new(keys: KeyMaterial) -> (r: Authenticator)
        ensures
            r.wf(),
            r.keys() == keys@,
            r.sessions() == Map::<Seq<char>, SessionView>::empty(),
    {
        Authenticator { codec: TokenCodec::new(keys), store: SessionStore::new() }
    }

    /// Signs a user in under the given session id at `now`.
    pub fn sign_in_at(&mut self, user_id: &str, role: Role, session_id: &str, now: i64) -> (r:
        Result<TokenPair, HttpError>)
        requires
            old(self).wf(),
        ensures
            final(self).wf(),
            final(self).keys() == old(self).keys(),
            (final(self).sessions(), response_view(r)) == spec_sign_in(
                old(self).keys(),
                old(self).sessions(),
                user_id@,
                role,
                session_id@,
                now as int,
            ),
    {
        sign_in_with(&self.codec, &mut self.store, user_id, role, session_id, now)
    }

    /// Signs a user in under a fresh random session id, at the moment the clock shows.
    pub fn sign_in(&mut self, user_id: &str, role: Role) -> (r: Result<TokenPair, HttpError>)
        requires
            old(self).wf(),
        ensures
            final(self).wf(),
            final(self).keys() == old(self).keys(),
            signed_in(
                old(self).keys(),
                old(self).sessions(),
                final(self).sessions(),
                user_id@,
                role,
                response_view(r),
            ),
            r matches Err(e) ==> e.kind() == ErrorKind::InternalServerError
                && final(self).sessions() == old(self).sessions(),
    {
        let session_id = new_session_id();
        let now = unix_timestamp_now();
        let r = self.sign_in_at(user_id, role, session_id.as_str(), now);
        assert((final(self).sessions(), response_view(r)) == spec_sign_in(
            old(self).keys(),
            old(self).sessions(),
            user_id@,
            role,
            session_id@,
            now as int,
        ));
        r
    }

    /// Verifies a request at `now`, and revokes what the verdict says is to be revoked.
    pub fn verify_at(&mut self, access: Option<&str>, refresh_header: Option<&str>, now: i64) -> (r:
        Result<AuthenticatedClaims, HttpError>)
        requires
            old(self).wf(),
        ensures
            final(self).wf(),
            final(self).keys() == old(self).keys(),
            outcome_view(r) == spec_validate(
                old(self).keys(),
                header_view(access),
                header_view(refresh_header),
                now as int,
            ).outcome,
            final(self).sessions() == spec_delete(
                old(self).sessions(),
                spec_validate(
                    old(self).keys(),
                    header_view(access),
                    header_view(refresh_header),
                    now as int,
                ).revoke,
            ),
    {
        authenticate(&self.codec, &mut self.store, access, refresh_header, now)
    }

    /// Verifies a request at `now` and asks that it carries the given role.
    pub fn verify_role_at(
        &mut self,
        access: Option<&str>,
        refresh_header: Option<&str>,
        required: Role,
        now: i64,
    ) -> (r: Result<AuthenticatedClaims, HttpError>)
        requires
            old(self).wf(),
        ensures
            final(self).wf(),
            final(self).keys() == old(self).keys(),
            outcome_view(r) == spec_require_role(
                spec_validate(
                    old(self).keys(),
                    header_view(access),
                    header_view(refresh_header),
                    now as int,
                ).outcome,
                required,
            ),
            final(self).sessions() == spec_delete(
                old(self).sessions(),
                spec_validate(
                    old(self).keys(),
                    header_view(access),
                    header_view(refresh_header),
                    now as int,
                ).revoke,
            ),
    {
        let outcome = self.verify_at(access, refresh_header, now);
        require_role(outcome, required)
    }

    /// Rotates the tokens of a session at `now`.
    pub fn refresh_at(
        &mut self,
        access: Option<&str>,
        refresh_header: Option<&str>,
        now: i64,
    ) -> (r: Result<TokenPair, HttpError>)
        requires
            old(self).wf(),
        ensures
            final(self).wf(),
            final(self).keys() == old(self).keys(),
            refreshed(
                old(self).keys(),
                old(self).sessions(),
                header_view(access),
                header_view(refresh_header),
                now as int,
                final(self).sessions(),
                response_view(r),
            ),
    {
        refresh(&self.codec, &mut self.store, access, refresh_header, now)
    }

    /// Verifies a request at the moment the clock shows, and revokes what the verdict says
    /// is to be revoked.
    pub fn verify(&mut self, access: Option<&str>, refresh_header: Option<&str>) -> (r: Result<
        AuthenticatedClaims,
        HttpError,
    >)
        requires
            old(self).wf(),
        ensures
            final(self).wf(),
            final(self).keys() == old(self).keys(),
            exists|now: int|
                {
                    let verdict = #[trigger] spec_validate(
                        old(self).keys(),
                        header_view(access),
                        header_view(refresh_header),
                        now,
                    );
                    &&& outcome_view(r) == verdict.outcome
                    &&& final(self).sessions() == spec_delete(old(self).sessions(), verdict.revoke)
                },
    {
        let now = unix_timestamp_now();
        let r = self.verify_at(access, refresh_header, now);
        proof {
            let verdict = spec_validate(
                old(self).keys(),
                header_view(access),
                header_view(refresh_header),
                now as int,
            );
            assert(outcome_view(r) == verdict.outcome);
        }
        r
    }

    /// Rotates the tokens of a session at the moment the clock shows.
    pub fn refresh(&mut self, access: Option<&str>, refresh_header: Option<&str>) -> (r: Result<
        TokenPair,
        HttpError,
    >)
        requires
            old(self).wf(),
        ensures
            final(self).wf(),
            final(self).keys() == old(self).keys(),
            exists|now: int| #[trigger]
                refreshed(
                    old(self).keys(),
                    old(self).sessions(),
                    header_view(access),
                    header_view(refresh_header),
                    now,
                    final(self).sessions(),
                    response_view(r),
                ),
    {
        let now = unix_timestamp_now();
        let r = self.refresh_at(access, refresh_header, now);
        assert(refreshed(
            old(self).keys(),
            old(self).sessions(),
            header_view(access),
            header_view(refresh_header),
            now as int,
            final(self).sessions(),
            response_view(r),
        ));
        r
    }
}

} // verus!
