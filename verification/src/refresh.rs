//! Rotation: the refresh protocol as a machine that decides, one answer of the store at a
//! time, what is asked of the store next and what the caller is told in the end.

use vstd::prelude::*;

use crate::claims::{AccessClaimsView, RefreshClaimsView};
use crate::database::{SessionView, UserSessions};
use crate::errors::{ErrorKind, HttpError};
use crate::extractors::{
    header_view,
    present_tokens,
    spec_presented,
    AuthenticatedClaims,
    AuthenticatedView,
};
use crate::session::{
    ids_view,
    spec_delete,
    spec_outcome,
    spec_swap,
    SessionStore,
    StoreError,
    StoreOutcome,
};
use crate::signin::{
    mint_tokens,
    minted,
    response_view,
    spec_mint_claims,
    TokenPair,
    TokenPairView,
};
use crate::token::{is_past, KeyView, TokenCodec};

verus! {

/// Where a refresh stands.
#[derive(Debug)]
pub enum RefreshState {
    /// Nothing has happened yet.
    Start,
    /// The tokens were read and belong to one session, whose row has been asked for.
    AwaitingSession { claims: AuthenticatedClaims },
    /// The new tokens are minted, and the store has been asked to put the new refresh token
    /// in the place of the one that was presented.
    AwaitingSwap { tokens: TokenPair },
    /// Abuse was detected, and the store has been asked to delete what it concerns.
    Revoking,
    /// The caller has been answered.
    Finished,
}

/// What happened: the request came in, or the store answered.
#[derive(Debug)]
pub enum RefreshEvent {
    Presented { access: Option<String>, refresh: Option<String> },
    Fetched(Result<UserSessions, StoreError>),
    Swapped(Result<(), StoreError>),
    Deleted(Result<(), StoreError>),
}

/// What is to be done next: a question to the store, or the answer to the caller.
#[derive(Debug)]
pub enum RefreshAction {
    Fetch { session_id: String },
    Swap { session_id: String, expected: String, new_token: String },
    Delete { session_ids: Vec<String> },
    Respond(Result<TokenPair, HttpError>),
}

/// A state as plain values.
pub ghost enum RefreshStateView {
    Start,
    AwaitingSession { claims: AuthenticatedView },
    AwaitingSwap { tokens: TokenPairView },
    Revoking,
    Finished,
}

/// An event as plain values. Of a deletion only the fact is kept: whether it worked changes
/// nothing.
pub ghost enum RefreshEventView {
    Presented { access: Option<Seq<char>>, refresh: Option<Seq<char>> },
    Fetched(Result<SessionView, StoreOutcome>),
    Swapped(StoreOutcome),
    Deleted,
}

/// An action as plain values.
pub ghost enum RefreshActionView {
    Fetch { session_id: Seq<char> },
    Swap { session_id: Seq<char>, expected: Seq<char>, new_token: Seq<char> },
    Delete { session_ids: Seq<Seq<char>> },
    Respond(Result<TokenPairView, ErrorKind>),
}

impl View for RefreshState {
    type V = RefreshStateView;

    open spec fn view(&self) -> RefreshStateView {
        match self {
            RefreshState::Start => RefreshStateView::Start,
            RefreshState::AwaitingSession { claims } => RefreshStateView::AwaitingSession {
                claims: claims@,
            },
            RefreshState::AwaitingSwap { tokens } => RefreshStateView::AwaitingSwap {
                tokens: tokens@,
            },
            RefreshState::Revoking => RefreshStateView::Revoking,
            RefreshState::Finished => RefreshStateView::Finished,
        }
    }
}

/// How a store operation failed, without the words.
pub open spec fn spec_failure(error: StoreError) -> StoreOutcome {
    match error {
        StoreError::NotFound => StoreOutcome::NotFound,
        StoreError::Conflict => StoreOutcome::Conflict,
        StoreError::Unavailable { .. } => StoreOutcome::Unavailable,
    }
}

/// A header that was handed over as a plain value.
pub open spec fn owned_header_view(header: Option<String>) -> Option<Seq<char>> {
    match header {
        Some(text) => Some(text@),
        None => None,
    }
}

/// What a fetch gave, as plain values.
pub open spec fn fetched_view(fetched: Result<UserSessions, StoreError>) -> Result<
    SessionView,
    StoreOutcome,
> {
    match fetched {
        Ok(row) => Ok(row.content()),
        Err(e) => Err(spec_failure(e)),
    }
}

impl View for RefreshEvent {
    type V = RefreshEventView;

    open spec fn view(&self) -> RefreshEventView {
        match self {
            RefreshEvent::Presented { access, refresh } => RefreshEventView::Presented {
                access: owned_header_view(*access),
                refresh: owned_header_view(*refresh),
            },
            RefreshEvent::Fetched(fetched) => RefreshEventView::Fetched(fetched_view(*fetched)),
            RefreshEvent::Swapped(swapped) => RefreshEventView::Swapped(spec_outcome(*swapped)),
            RefreshEvent::Deleted(_) => RefreshEventView::Deleted,
        }
    }
}

impl View for RefreshAction {
    type V = RefreshActionView;

    open spec fn view(&self) -> RefreshActionView {
        match self {
            RefreshAction::Fetch { session_id } => RefreshActionView::Fetch {
                session_id: session_id@,
            },
            RefreshAction::Swap { session_id, expected, new_token } => RefreshActionView::Swap {
                session_id: session_id@,
                expected: expected@,
                new_token: new_token@,
            },
            RefreshAction::Delete { session_ids } => RefreshActionView::Delete {
                session_ids: ids_view(session_ids@),
            },
            RefreshAction::Respond(response) => RefreshActionView::Respond(
                response_view(*response),
            ),
        }
    }
}

/// The answer that ends a refresh with a rejection.
pub open spec fn spec_refuse(kind: ErrorKind) -> (RefreshStateView, RefreshActionView) {
    (RefreshStateView::Finished, RefreshActionView::Respond(Err(kind)))
}

/// The first step. Credentials that are missing or do not decode are invalid. Tokens of
/// two different sessions are unauthorized, after both sessions have been revoked.
/// Otherwise the row of the session is asked for. Expiry is not looked at here: that the
/// access token has expired is what a refresh is for, and the refresh token's expiry is
/// judged once it is known whether the token is the current one.
pub open spec fn spec_begin_refresh(
    keys: KeyView,
    access: Option<Seq<char>>,
    refresh: Option<Seq<char>>,
) -> (RefreshStateView, RefreshActionView) {
    match spec_presented(keys, access, refresh) {
        Err(kind) => spec_refuse(kind),
        Ok(claims) => if claims.access.sid != claims.refresh.sid {
            (
                RefreshStateView::Revoking,
                RefreshActionView::Delete {
                    session_ids: seq![claims.access.sid, claims.refresh.sid],
                },
            )
        } else {
            (
                RefreshStateView::AwaitingSession { claims },
                RefreshActionView::Fetch { session_id: claims.refresh.sid },
            )
        },
    }
}

/// What is decided once the store has answered the question for the session's row.
pub ghost enum Rotation {
    /// The refresh ends with this error, and the store is left alone.
    Refuse(ErrorKind),
    /// The presented refresh token is not the current one: it was rotated away before, and
    /// someone is using it again. The session is revoked.
    Revoke { session_id: Seq<char> },
    /// The presented refresh token is the current one. New tokens with these claims take
    /// its place.
    Rotate { access: AccessClaimsView, refresh: RefreshClaimsView, expected: Seq<char> },
}

/// The decision on the session's row. A session that is gone is unauthorized; a store that
/// fails otherwise, or a stored token that does not decode, is an internal error. A stored
/// token whose claims are not those presented means reuse. A refresh token that is current
/// and has expired is unauthorized. Otherwise new claims are minted at `now` for the same
/// user and session, with the role that the access token carried.
pub open spec fn spec_rotation(
    keys: KeyView,
    claims: AuthenticatedView,
    fetched: Result<SessionView, StoreOutcome>,
    now: int,
) -> Rotation {
    match fetched {
        Err(StoreOutcome::NotFound) => Rotation::Refuse(ErrorKind::Unauthorized),
        Err(_) => Rotation::Refuse(ErrorKind::InternalServerError),
        Ok(session) => match keys.decode_refresh(session.refresh_token) {
            Err(_) => Rotation::Refuse(ErrorKind::InternalServerError),
            Ok(current) => if current != claims.refresh {
                Rotation::Revoke { session_id: claims.refresh.sid }
            } else if claims.refresh.exp < now {
                Rotation::Refuse(ErrorKind::Unauthorized)
            } else {
                match spec_mint_claims(
                    claims.refresh.uid,
                    claims.access.rle,
                    claims.refresh.sid,
                    now,
                ) {
                    None => Rotation::Refuse(ErrorKind::InternalServerError),
                    Some((access, refresh)) => Rotation::Rotate {
                        access,
                        refresh,
                        expected: session.refresh_token,
                    },
                }
            },
        },
    }
}

/// The step that follows the decision on the session's row. Where new tokens are due and
/// signing gives both, the store is asked to swap the refresh token; where signing gives
/// either of them not, the refresh ends in an internal error with the store untouched.
pub open spec fn spec_rotate_step(
    keys: KeyView,
    claims: AuthenticatedView,
    fetched: Result<SessionView, StoreOutcome>,
    now: int,
    next: RefreshStateView,
    action: RefreshActionView,
) -> bool {
    match spec_rotation(keys, claims, fetched, now) {
        Rotation::Refuse(kind) => (next, action) == spec_refuse(kind),
        Rotation::Revoke { session_id } => next == RefreshStateView::Revoking && action
            == (RefreshActionView::Delete { session_ids: seq![session_id] }),
        Rotation::Rotate { access, refresh, expected } => match (
            keys.sealed_access(access),
            keys.sealed_refresh(refresh),
        ) {
            (Some(access_token), Some(refresh_token)) => {
                &&& next == (RefreshStateView::AwaitingSwap {
                    tokens: TokenPairView { access_token, refresh_token },
                })
                &&& action == (RefreshActionView::Swap {
                    session_id: refresh.sid,
                    expected,
                    new_token: refresh_token,
                })
            },
            _ => (next, action) == spec_refuse(ErrorKind::InternalServerError),
        },
    }
}

/// The answer once the store has spoken on the swap: the new tokens if it was done;
/// unauthorized if the session is gone; an internal error if another refresh was faster, or
/// the store failed.
pub open spec fn spec_conclude(tokens: TokenPairView, swapped: StoreOutcome) -> Result<
    TokenPairView,
    ErrorKind,
> {
    match swapped {
        StoreOutcome::Done => Ok(tokens),
        StoreOutcome::NotFound => Err(ErrorKind::Unauthorized),
        StoreOutcome::Conflict => Err(ErrorKind::InternalServerError),
        StoreOutcome::Unavailable => Err(ErrorKind::InternalServerError),
    }
}

/// One step of the machine: what state follows and what is done, given the state and what
/// happened. After a revocation the answer is unauthorized whether or not the deletion
/// worked. An event that does not belong to the state ends the refresh in an internal error.
pub open spec fn spec_refresh_step(
    keys: KeyView,
    state: RefreshStateView,
    event: RefreshEventView,
    now: int,
    next: RefreshStateView,
    action: RefreshActionView,
) -> bool {
    match (state, event) {
        (RefreshStateView::Start, RefreshEventView::Presented { access, refresh }) => (next, action)
            == spec_begin_refresh(keys, access, refresh),
        (
            RefreshStateView::AwaitingSession { claims },
            RefreshEventView::Fetched(fetched),
        ) => spec_rotate_step(keys, claims, fetched, now, next, action),
        (RefreshStateView::AwaitingSwap { tokens }, RefreshEventView::Swapped(swapped)) => next
            == RefreshStateView::Finished && action == RefreshActionView::Respond(
            spec_conclude(tokens, swapped),
        ),
        (RefreshStateView::Revoking, RefreshEventView::Deleted) => (next, action) == spec_refuse(
            ErrorKind::Unauthorized,
        ),
        _ => (next, action) == spec_refuse(ErrorKind::InternalServerError),
    }
}

fn refuse(error: HttpError) -> (r: (RefreshState, RefreshAction))
    ensures
        (r.0@, r.1@) == spec_refuse(error.kind()),
{
    (RefreshState::Finished, RefreshAction::Respond(Err(error)))
}

fn as_header(header: &Option<String>) -> (r: Option<&str>)
    ensures
        header_view(r) == owned_header_view(*header),
{
    match header {
        Some(text) => Some(text.as_str()),
        None => None,
    }
}

fn begin_refresh(codec: &TokenCodec, access: Option<&str>, refresh: Option<&str>) -> (r: (
    RefreshState,
    RefreshAction,
))
    ensures
        (r.0@, r.1@) == spec_begin_refresh(codec@, header_view(access), header_view(refresh)),
{
    let claims = match present_tokens(codec, access, refresh) {
        Ok(claims) => claims,
        Err(e) => { return refuse(e); },
    };
    if claims.access_token.sid != claims.refresh_token.sid {
        let mut session_ids: Vec<String> = Vec::new();
        session_ids.push(claims.access_token.sid.clone());
        session_ids.push(claims.refresh_token.sid.clone());
        assert(ids_view(session_ids@) =~= seq![claims@.access.sid, claims@.refresh.sid]);
        return (RefreshState::Revoking, RefreshAction::Delete { session_ids });
    }
    let session_id = claims.refresh_token.sid.clone();
    (RefreshState::AwaitingSession { claims }, RefreshAction::Fetch { session_id })
}

fn rotate(
    codec: &TokenCodec,
    claims: AuthenticatedClaims,
    fetched: Result<UserSessions, StoreError>,
    now: i64,
) -> (r: (RefreshState, RefreshAction))
    ensures
        spec_rotate_step(codec@, claims@, fetched_view(fetched), now as int, r.0@, r.1@),
{
    let session = match fetched {
        Ok(session) => session,
        Err(StoreError::NotFound) => { return refuse(HttpError::Unauthorized); },
        Err(StoreError::Conflict) => {
            return refuse(HttpError::internal("the session table answered with a conflict"));
        },
        Err(StoreError::Unavailable { cause }) => {
            return refuse(HttpError::InternalServerError { cause });
        },
    };
    let current = match codec.decode_refresh(session.user_session_refresh_token.as_str()) {
        Ok(current) => current,
        Err(_) => {
            return refuse(HttpError::internal("the stored refresh token cannot be verified"));
        },
    };
    if current != claims.refresh_token {
        let mut session_ids: Vec<String> = Vec::new();
        session_ids.push(claims.refresh_token.sid.clone());
        assert(ids_view(session_ids@) =~= seq![claims@.refresh.sid]);
        return (RefreshState::Revoking, RefreshAction::Delete { session_ids });
    }
    if is_past(claims.refresh_token.exp, now) {
        return refuse(HttpError::Unauthorized);
    }
    let tokens = match mint_tokens(
        codec,
        claims.refresh_token.uid.as_str(),
        claims.access_token.rle,
        claims.refresh_token.sid.as_str(),
        now,
    ) {
        Ok(tokens) => tokens,
        Err(e) => { return refuse(e); },
    };
    let action = RefreshAction::Swap {
        session_id: claims.refresh_token.sid,
        expected: session.user_session_refresh_token,
        new_token: tokens.refresh_token.clone(),
    };
    (RefreshState::AwaitingSwap { tokens }, action)
}

fn conclude(tokens: TokenPair, swapped: Result<(), StoreError>) -> (r: Result<TokenPair, HttpError>)
    ensures
        response_view(r) == spec_conclude(tokens@, spec_outcome(swapped)),
{
    match swapped {
        Ok(_) => Ok(tokens),
        Err(StoreError::NotFound) => Err(HttpError::Unauthorized),
        Err(StoreError::Conflict) => Err(
            HttpError::internal("the refresh token was rotated by another request"),
        ),
        Err(StoreError::Unavailable { cause }) => Err(HttpError::InternalServerError { cause }),
    }
}

/// One step of a refresh at `now`: takes the state and what happened, and gives the state
/// that follows and what is to be done. The caller starts with `Start` and `Presented`,
/// performs each action on the store, hands back the store's answer as the next event, and
/// stops at `Respond`.
pub fn refresh_step(codec: &TokenCodec, state: RefreshState, event: RefreshEvent, now: i64) -> (r: (
    RefreshState,
    RefreshAction,
))
    ensures
        spec_refresh_step(codec@, state@, event@, now as int, r.0@, r.1@),
{
    match (state, event) {
        (RefreshState::Start, RefreshEvent::Presented { access, refresh }) => begin_refresh(
            codec,
            as_header(&access),
            as_header(&refresh),
        ),
        (RefreshState::AwaitingSession { claims }, RefreshEvent::Fetched(fetched)) => rotate(
            codec,
            claims,
            fetched,
            now,
        ),
        (RefreshState::AwaitingSwap { tokens }, RefreshEvent::Swapped(swapped)) => (
            RefreshState::Finished,
            RefreshAction::Respond(conclude(tokens, swapped)),
        ),
        (RefreshState::Revoking, RefreshEvent::Deleted(_)) => refuse(HttpError::Unauthorized),
        _ => refuse(HttpError::internal("the refresh was handed an answer it did not ask for")),
    }
}

/// What a refresh at `now` makes of a table and of the two headers, from beginning to end.
///
/// Credentials that are missing or do not decode: invalid credentials, and the table stays.
/// Tokens of two sessions: unauthorized, and both sessions are gone. A session that is
/// gone: unauthorized, and the table stays. A stored token that does not decode: an
/// internal error. A stored token with other claims than the presented one: unauthorized,
/// and the session is gone. A current refresh token that has expired: unauthorized, and the
/// table stays. Otherwise the answer is the pair of tokens minted at `now`, and the new
/// refresh token stands in the session's row; where no pair is minted, because a timestamp
/// does not fit or signing gives nothing, the answer is an internal error and the table is
/// as it was.
pub open spec fn refreshed(
    keys: KeyView,
    before: Map<Seq<char>, SessionView>,
    access: Option<Seq<char>>,
    refresh: Option<Seq<char>>,
    now: int,
    after: Map<Seq<char>, SessionView>,
    response: Result<TokenPairView, ErrorKind>,
) -> bool {
    match spec_presented(keys, access, refresh) {
        Err(kind) => after == before && response == Err::<TokenPairView, ErrorKind>(kind),
        Ok(claims) => if claims.access.sid != claims.refresh.sid {
            &&& after == spec_delete(before, seq![claims.access.sid, claims.refresh.sid])
            &&& response == Err::<TokenPairView, ErrorKind>(ErrorKind::Unauthorized)
        } else {
            let session_id = claims.refresh.sid;
            match spec_rotation(keys, claims, spec_fetch(before, session_id), now) {
                Rotation::Refuse(kind) => after == before && response == Err::<
                    TokenPairView,
                    ErrorKind,
                >(kind),
                Rotation::Revoke { session_id } => after == before.remove(session_id) && response
                    == Err::<TokenPairView, ErrorKind>(ErrorKind::Unauthorized),
                Rotation::Rotate { access: new_access, refresh: new_refresh, expected } => match (
                    keys.sealed_access(new_access),
                    keys.sealed_refresh(new_refresh),
                ) {
                    (Some(access_token), Some(refresh_token)) => {
                        &&& response == Ok::<TokenPairView, ErrorKind>(
                            TokenPairView { access_token, refresh_token },
                        )
                        &&& after == before.insert(
                            session_id,
                            SessionView {
                                user_id: before[session_id].user_id,
                                refresh_token,
                            },
                        )
                    },
                    _ => after == before && response == Err::<TokenPairView, ErrorKind>(
                        ErrorKind::InternalServerError,
                    ),
                },
            }
        },
    }
}

/// How many steps a refresh has before it at most.
pub open spec fn spec_steps_left(state: RefreshStateView) -> nat {
    match state {
        RefreshStateView::Start => 3,
        RefreshStateView::AwaitingSession { .. } => 2,
        RefreshStateView::AwaitingSwap { .. } => 1,
        RefreshStateView::Revoking => 1,
        RefreshStateView::Finished => 0,
    }
}

/// What the row of a session is found to be in a table.
pub open spec fn spec_fetch(table: Map<Seq<char>, SessionView>, session_id: Seq<char>) -> Result<
    SessionView,
    StoreOutcome,
> {
    if table.dom().contains(session_id) {
        Ok(table[session_id])
    } else {
        Err(StoreOutcome::NotFound)
    }
}

/// What the store makes of a question in one step: the table afterwards, and its answer.
pub open spec fn spec_perform(table: Map<Seq<char>, SessionView>, action: RefreshActionView) -> (
    Map<Seq<char>, SessionView>,
    RefreshEventView,
) {
    match action {
        RefreshActionView::Fetch { session_id } => (
            table,
            RefreshEventView::Fetched(spec_fetch(table, session_id)),
        ),
        RefreshActionView::Swap { session_id, expected, new_token } => (
            spec_swap(table, session_id, expected, new_token).0,
            RefreshEventView::Swapped(spec_swap(table, session_id, expected, new_token).1),
        ),
        RefreshActionView::Delete { session_ids } => (
            spec_delete(table, session_ids),
            RefreshEventView::Deleted,
        ),
        RefreshActionView::Respond(_) => (table, RefreshEventView::Deleted),
    }
}

/// Has the store perform what the machine asks for, and hands back the store's answer. An
/// answer to the caller is no question to the store, and leaves it alone.
pub fn answer(store: &mut SessionStore, question: RefreshAction) -> (event: RefreshEvent)
    requires
        old(store).wf(),
    ensures
        final(store).wf(),
        (final(store)@, event@) == spec_perform(old(store)@, question@),
{
    match question {
        RefreshAction::Fetch { session_id } => RefreshEvent::Fetched(
            store.fetch(session_id.as_str()),
        ),
        RefreshAction::Swap { session_id, expected, new_token } => RefreshEvent::Swapped(
            store.swap_refresh_token(session_id.as_str(), expected.as_str(), new_token),
        ),
        RefreshAction::Delete { session_ids } => RefreshEvent::Deleted(
            store.delete(&session_ids),
        ),
        RefreshAction::Respond(_) => RefreshEvent::Deleted(Ok(())),
    }
}

/// What holds while a refresh runs against a store in which nothing else happens: where
/// the machine stands, what it is about to be told, and what the table has become, all as
/// the headers and the table at the beginning determine them.
pub open spec fn under_way(
    keys: KeyView,
    before: Map<Seq<char>, SessionView>,
    access: Option<Seq<char>>,
    refresh: Option<Seq<char>>,
    now: int,
    state: RefreshStateView,
    event: RefreshEventView,
    table: Map<Seq<char>, SessionView>,
) -> bool {
    match state {
        RefreshStateView::Start => table == before && event == (RefreshEventView::Presented {
            access,
            refresh,
        }),
        RefreshStateView::AwaitingSession { claims } => {
            &&& table == before
            &&& spec_presented(keys, access, refresh) == Ok::<AuthenticatedView, ErrorKind>(claims)
            &&& claims.access.sid == claims.refresh.sid
            &&& event == RefreshEventView::Fetched(spec_fetch(before, claims.refresh.sid))
        },
        RefreshStateView::AwaitingSwap { tokens } => {
            &&& spec_presented(keys, access, refresh) matches Ok(claims)
            &&& claims.access.sid == claims.refresh.sid
            &&& spec_rotation(keys, claims, spec_fetch(before, claims.refresh.sid), now) matches
                Rotation::Rotate { access: new_access, refresh: new_refresh, expected }
            &&& keys.signs_access(new_access, tokens.access_token)
            &&& keys.signs_refresh(new_refresh, tokens.refresh_token)
            &&& event == RefreshEventView::Swapped(StoreOutcome::Done)
            &&& table == before.insert(
                claims.refresh.sid,
                SessionView {
                    user_id: before[claims.refresh.sid].user_id,
                    refresh_token: tokens.refresh_token,
                },
            )
        },
        RefreshStateView::Revoking => {
            &&& event == RefreshEventView::Deleted
            &&& spec_presented(keys, access, refresh) matches Ok(claims)
            &&& if claims.access.sid != claims.refresh.sid {
                table == spec_delete(before, seq![claims.access.sid, claims.refresh.sid])
            } else {
                &&& spec_rotation(keys, claims, spec_fetch(before, claims.refresh.sid), now)
                    is Revoke
                &&& table == before.remove(claims.refresh.sid)
            }
        },
        RefreshStateView::Finished => false,
    }
}

/// Runs a refresh at `now` against the store: performs each action that the machine asks
/// for and hands the store's answer back, until the machine answers the caller. That is
/// after three steps at most: the tokens are read, the session's row is judged, and the
/// store has swapped or deleted.
pub fn refresh(
    codec: &TokenCodec,
    store: &mut SessionStore,
    access_header: Option<&str>,
    refresh_header: Option<&str>,
    now: i64,
) -> (r: Result<TokenPair, HttpError>)
    requires
        old(store).wf(),
    ensures
        final(store).wf(),
        refreshed(
            codec@,
            old(store)@,
            header_view(access_header),
            header_view(refresh_header),
            now as int,
            final(store)@,
            response_view(r),
        ),
{
    let mut state = RefreshState::Start;
    let mut event = RefreshEvent::Presented {
        access: match access_header {
            Some(text) => Some(text.to_owned()),
            None => None,
        },
        refresh: match refresh_header {
            Some(text) => Some(text.to_owned()),
            None => None,
        },
    };
    loop
        invariant
            store.wf(),
            under_way(
                codec@,
                old(store)@,
                header_view(access_header),
                header_view(refresh_header),
                now as int,
                state@,
                event@,
                store@,
            ),
        decreases spec_steps_left(state@),
    {
        let ghost table = store@;
        let (next, action) = refresh_step(codec, state, event, now);
        match action {
            RefreshAction::Respond(response) => {
                return response;
            },
            question => {
                proof {
                    if let RefreshActionView::Delete { session_ids } = question@ {
                        if session_ids.len() == 1 {
                            assert(session_ids.to_set() =~= set![session_ids[0]]);
                            assert(spec_delete(table, session_ids) =~= table.remove(
                                session_ids[0],
                            ));
                        }
                    }
                }
                event = answer(store, question);
            },
        }
        state = next;
    }
}

} // verus!
