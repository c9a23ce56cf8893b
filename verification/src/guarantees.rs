//! What the protocol guarantees of the store and of the answers it gives, over every table,
//! every pair of headers and every moment.

use vstd::prelude::*;

use crate::claims::{AccessClaimsView, RefreshClaimsView};
use crate::database::{Role, SessionView};
use crate::errors::ErrorKind;
use crate::extractors::{spec_presented, spec_validate, AuthenticatedView};
use crate::refresh::refreshed;
use crate::session::spec_delete;
use crate::signin::{
    minted,
    spec_mint_claims,
    spec_mint_tokens,
    spec_sign_in,
    TokenPairView,
};
use crate::token::{KeyView, VerificationError};

verus! {

/// The refresh token of a row decodes, and names the row's own session and user.
pub open spec fn row_is_bound(keys: KeyView, session_id: Seq<char>, row: SessionView) -> bool {
    keys.decode_refresh(row.refresh_token) matches Ok(claims) && claims.sid == session_id
        && claims.uid == row.user_id
}

/// Every row of the table is bound to its own session.
pub open spec fn table_is_bound(keys: KeyView, table: Map<Seq<char>, SessionView>) -> bool {
    forall|session_id: Seq<char>| #[trigger]
        table.dom().contains(session_id) ==> row_is_bound(keys, session_id, table[session_id])
}

/// A sign-in keeps every row bound to its session: the row it adds holds a refresh token
/// that names the new session and its user.
pub proof fn lemma_sign_in_keeps_rows_bound(
    keys: KeyView,
    before: Map<Seq<char>, SessionView>,
    user_id: Seq<char>,
    role: Role,
    session_id: Seq<char>,
    now: int,
    pair: TokenPairView,
)
    requires
        table_is_bound(keys, before),
        minted(keys, user_id, role, session_id, now, pair),
    ensures
        table_is_bound(
            keys,
            before.insert(session_id, SessionView { user_id, refresh_token: pair.refresh_token }),
        ),
{
}

/// Revoking sessions keeps every row that is left bound to its session.
pub proof fn lemma_revocation_keeps_rows_bound(
    keys: KeyView,
    before: Map<Seq<char>, SessionView>,
    session_ids: Seq<Seq<char>>,
)
    requires
        table_is_bound(keys, before),
    ensures
        table_is_bound(keys, spec_delete(before, session_ids)),
{
}

/// A refresh keeps every row bound to its session, however it ends.
pub proof fn lemma_refresh_keeps_rows_bound(
    keys: KeyView,
    before: Map<Seq<char>, SessionView>,
    access: Option<Seq<char>>,
    refresh: Option<Seq<char>>,
    now: int,
    after: Map<Seq<char>, SessionView>,
    response: Result<TokenPairView, ErrorKind>,
)
    requires
        table_is_bound(keys, before),
        refreshed(keys, before, access, refresh, now, after, response),
    ensures
        table_is_bound(keys, after),
{
    match spec_presented(keys, access, refresh) {
        Err(_) => {},
        Ok(claims) => {
            if claims.access.sid != claims.refresh.sid {
                lemma_revocation_keeps_rows_bound(
                    keys,
                    before,
                    seq![claims.access.sid, claims.refresh.sid],
                );
            } else {
                let session_id = claims.refresh.sid;
                if before.dom().contains(session_id) {
                    assert(row_is_bound(keys, session_id, before[session_id]));
                }
            }
        },
    }
}

/// The tokens of a sign-in, presented together, are let through with the claims they were
/// minted with, at every moment up to the expiry of the access token, a quarter of an hour
/// after the sign-in.
pub proof fn lemma_fresh_tokens_are_accepted(
    keys: KeyView,
    user_id: Seq<char>,
    role: Role,
    session_id: Seq<char>,
    now: int,
    pair: TokenPairView,
    later: int,
)
    requires
        minted(keys, user_id, role, session_id, now, pair),
        later <= now + 900,
    ensures
        spec_mint_claims(user_id, role, session_id, now) matches Some((access, refresh))
            && spec_validate(keys, Some(pair.access_token), Some(pair.refresh_token), later).outcome
            == Ok::<AuthenticatedView, ErrorKind>(AuthenticatedView { access, refresh }),
        spec_validate(keys, Some(pair.access_token), Some(pair.refresh_token), later).revoke
            == Seq::<Seq<char>>::empty(),
{
}

/// A refresh with tokens of two different sessions is unauthorized, and neither session is
/// in the store afterwards.
pub proof fn lemma_refresh_across_sessions_revokes_both(
    keys: KeyView,
    before: Map<Seq<char>, SessionView>,
    access: Option<Seq<char>>,
    refresh: Option<Seq<char>>,
    now: int,
    after: Map<Seq<char>, SessionView>,
    response: Result<TokenPairView, ErrorKind>,
)
    requires
        spec_presented(keys, access, refresh) is Ok,
        spec_presented(keys, access, refresh)->Ok_0.access.sid != spec_presented(
            keys,
            access,
            refresh,
        )->Ok_0.refresh.sid,
        refreshed(keys, before, access, refresh, now, after, response),
    ensures
        response == Err::<TokenPairView, ErrorKind>(ErrorKind::Unauthorized),
        !after.dom().contains(spec_presented(keys, access, refresh)->Ok_0.access.sid),
        !after.dom().contains(spec_presented(keys, access, refresh)->Ok_0.refresh.sid),
        forall|other: Seq<char>|
            other != spec_presented(keys, access, refresh)->Ok_0.access.sid && other
                != spec_presented(keys, access, refresh)->Ok_0.refresh.sid ==> (
            #[trigger] after.dom().contains(other) <==> before.dom().contains(other)),
{
    let claims = spec_presented(keys, access, refresh)->Ok_0;
    let gone = seq![claims.access.sid, claims.refresh.sid];
    assert(gone[0] == claims.access.sid && gone[1] == claims.refresh.sid);
    assert(gone.to_set().contains(claims.access.sid));
    assert(gone.to_set().contains(claims.refresh.sid));
    assert forall|other: Seq<char>|
        other != claims.access.sid && other != claims.refresh.sid implies (
        #[trigger] after.dom().contains(other) <==> before.dom().contains(other)) by {
        if gone.to_set().contains(other) {
            let i = choose|i: int| 0 <= i < gone.len() && gone[i] == other;
            assert(gone[i] == other);
        }
    }
}

/// Rotation is not idempotent. Once a refresh has succeeded, the refresh token it was given
/// is stale: whoever presents it again, at whatever moment and with whatever access token
/// that decodes, is unauthorized, and the session is revoked.
///
/// One case is left out, in which the second refresh succeeds as the first did: a first
/// refresh in the very second in which the presented token was minted. The new claims are
/// then the old claims, the new token is the old token, and nothing was rotated.
pub proof fn lemma_reused_refresh_token_revokes_session(
    keys: KeyView,
    before: Map<Seq<char>, SessionView>,
    access: Option<Seq<char>>,
    refresh: Option<Seq<char>>,
    now: int,
    between: Map<Seq<char>, SessionView>,
    tokens: TokenPairView,
    later_access: Option<Seq<char>>,
    later: int,
    after: Map<Seq<char>, SessionView>,
    response: Result<TokenPairView, ErrorKind>,
)
    requires
        refreshed(keys, before, access, refresh, now, between, Ok(tokens)),
        keys.decode_refresh(tokens.refresh_token) != keys.decode_refresh(refresh->0),
        spec_presented(keys, later_access, refresh) is Ok,
        refreshed(keys, between, later_access, refresh, later, after, response),
    ensures
        response == Err::<TokenPairView, ErrorKind>(ErrorKind::Unauthorized),
        !after.dom().contains(keys.decode_refresh(refresh->0)->Ok_0.sid),
{
    let first = spec_presented(keys, access, refresh)->Ok_0;
    let second = spec_presented(keys, later_access, refresh)->Ok_0;
    let session_id = first.refresh.sid;
    assert(second.refresh == first.refresh);
    assert(between.dom().contains(session_id));
    assert(between[session_id].refresh_token == tokens.refresh_token);
    if second.access.sid != second.refresh.sid {
        let gone = seq![second.access.sid, second.refresh.sid];
        assert(gone[1] == session_id);
        assert(gone.to_set().contains(session_id));
    }
}

/// A refresh token that is not the current one of its session is refused wherever every row
/// is bound to its session: whoever presents it is unauthorized, and the session is not in
/// the store afterwards. It does not matter how long ago the token was rotated away, how
/// often the session was refreshed since, or whether it was revoked meanwhile.
pub proof fn lemma_stale_refresh_token_is_refused(
    keys: KeyView,
    before: Map<Seq<char>, SessionView>,
    access: Option<Seq<char>>,
    refresh: Option<Seq<char>>,
    now: int,
    after: Map<Seq<char>, SessionView>,
    response: Result<TokenPairView, ErrorKind>,
)
    requires
        table_is_bound(keys, before),
        spec_presented(keys, access, refresh) matches Ok(claims) && !(before.dom().contains(
            claims.refresh.sid,
        ) && keys.decode_refresh(before[claims.refresh.sid].refresh_token) == Ok::<
            RefreshClaimsView,
            VerificationError,
        >(claims.refresh)),
        refreshed(keys, before, access, refresh, now, after, response),
    ensures
        response == Err::<TokenPairView, ErrorKind>(ErrorKind::Unauthorized),
        !after.dom().contains(spec_presented(keys, access, refresh)->Ok_0.refresh.sid),
{
    let claims = spec_presented(keys, access, refresh)->Ok_0;
    let session_id = claims.refresh.sid;
    if claims.access.sid != claims.refresh.sid {
        let gone = seq![claims.access.sid, claims.refresh.sid];
        assert(gone[1] == session_id);
        assert(gone.to_set().contains(session_id));
    } else if before.dom().contains(session_id) {
        assert(row_is_bound(keys, session_id, before[session_id]));
    }
}

/// A refresh with the current refresh token of its session succeeds. Where the two tokens
/// decode and belong to one session, the session's row holds a token with the claims
/// presented, the refresh token has not expired, and the new pair is minted, the answer is
/// that pair; the session's row holds the new refresh token and the user it held; and every
/// other row is as it was.
pub proof fn lemma_current_refresh_token_is_rotated(
    keys: KeyView,
    before: Map<Seq<char>, SessionView>,
    access: Option<Seq<char>>,
    refresh: Option<Seq<char>>,
    now: int,
    pair: TokenPairView,
    after: Map<Seq<char>, SessionView>,
    response: Result<TokenPairView, ErrorKind>,
)
    requires
        spec_presented(keys, access, refresh) matches Ok(claims) && {
            &&& claims.access.sid == claims.refresh.sid
            &&& before.dom().contains(claims.refresh.sid)
            &&& keys.decode_refresh(before[claims.refresh.sid].refresh_token) == Ok::<
                RefreshClaimsView,
                VerificationError,
            >(claims.refresh)
            &&& claims.refresh.exp >= now
            &&& spec_mint_tokens(
                keys,
                claims.refresh.uid,
                claims.access.rle,
                claims.refresh.sid,
                now,
            ) == Some(pair)
        },
        refreshed(keys, before, access, refresh, now, after, response),
    ensures
        response == Ok::<TokenPairView, ErrorKind>(pair),
        ({
            let claims = spec_presented(keys, access, refresh)->Ok_0;
            let minted = spec_mint_claims(
                claims.refresh.uid,
                claims.access.rle,
                claims.refresh.sid,
                now,
            )->0;
            &&& after == before.insert(
                claims.refresh.sid,
                SessionView {
                    user_id: before[claims.refresh.sid].user_id,
                    refresh_token: pair.refresh_token,
                },
            )
            &&& keys.decode_access(pair.access_token) == Ok::<
                AccessClaimsView,
                VerificationError,
            >(minted.0)
            &&& keys.decode_refresh(pair.refresh_token) == Ok::<
                RefreshClaimsView,
                VerificationError,
            >(minted.1)
            &&& minted.0.uid == claims.refresh.uid && minted.0.sid == claims.refresh.sid
            &&& minted.0.rle == claims.access.rle
            &&& minted.0.iat == now && minted.0.exp == now + 900
            &&& minted.1.uid == claims.refresh.uid && minted.1.sid == claims.refresh.sid
            &&& minted.1.iat == now && minted.1.exp == now + 604800
        }),
{
}

/// A sign-in succeeds where the session id is free and the pair of tokens is minted: the
/// answer is the pair, and the table has exactly one row more, that of the new session with
/// the user and the refresh token of the pair, which names the session. Where the session
/// id is taken, or no pair is minted, the answer is an internal error and the table is as
/// it was.
pub proof fn lemma_sign_in_succeeds(
    keys: KeyView,
    before: Map<Seq<char>, SessionView>,
    user_id: Seq<char>,
    role: Role,
    session_id: Seq<char>,
    now: int,
)
    ensures
        ({
            let (after, response) = spec_sign_in(keys, before, user_id, role, session_id, now);
            let pair = spec_mint_tokens(keys, user_id, role, session_id, now);
            if pair is Some && !before.dom().contains(session_id) {
                &&& response == Ok::<TokenPairView, ErrorKind>(pair->0)
                &&& after == before.insert(
                    session_id,
                    SessionView { user_id, refresh_token: pair->0.refresh_token },
                )
                &&& keys.decode_refresh(pair->0.refresh_token) matches Ok(claims)
                    && claims.sid == session_id && claims.uid == user_id
            } else {
                &&& response == Err::<TokenPairView, ErrorKind>(ErrorKind::InternalServerError)
                &&& after == before
            }
        }),
{
}

} // verus!
