//! Issuance: the pair of tokens that a sign-in gives out, and the session row that goes with
//! them.

use vstd::prelude::*;

use crate::claims::{
    expires_timestamp_from,
    spec_expires_timestamp,
    spec_timestamp,
    unix_timestamp_now,
    AccessClaimsView,
    AccessTokenClaims,
    RefreshClaimsView,
    RefreshTokenClaims,
};
use crate::constants::{
    ACCESS_TOKEN_VALID_TIME_LENGTH,
    ID_LENGTH,
    JWT_TOKEN_AUDIENCE_NAME,
    REFRESH_TOKEN_VALID_TIME_LENGTH,
};
use crate::database::{Role, SessionView, UserSessions};
use crate::errors::{ErrorKind, HttpError};
use crate::session::{spec_outcome, SessionStore, StoreError, StoreOutcome};
use crate::token::{KeyView, TokenCodec};

verus! {

/// The characters that a random identifier is made of: letters, digits, `_` and `-`.
pub open spec fn is_id_char(c: char) -> bool {
    ||| '0' <= c <= '9'
    ||| 'a' <= c <= 'z'
    ||| 'A' <= c <= 'Z'
    ||| c == '_'
    ||| c == '-'
}

/// A random identifier of `size` characters.
///
/// Calls `randoid::Generator::with_size` and `gen` on what it returns, which draws each
/// character from the crate's default alphabet, the 64 characters that are safe in a URL,
/// with the thread's random number generator. The contract claims the length and the
/// alphabet; which characters come is chance. Sizes above 64 are left out: the crate fills
/// a buffer of 64 bytes at a time and miscounts what is left when the size is no multiple
/// of it.
#[verifier::external_body]
fn random_id(size: usize) -> (r: String)
    requires
        size <= 64,
    ensures
        r@.len() == size,
        forall|i: int| 0 <= i < r@.len() ==> is_id_char(#[trigger] r@[i]),
{
    randoid::Generator::with_size(size).gen()
}

/// The longest identifier that can be drawn.
pub const MAX_ID_LENGTH: usize = 64;

/// A random identifier of the given length, from the alphabet of identifiers; none where
/// the length is above `MAX_ID_LENGTH`.
pub fn new_id(length: usize) -> (r: Option<String>)
    ensures
        match r {
            Some(id) => length <= MAX_ID_LENGTH && id@.len() == length && forall|i: int|
                0 <= i < id@.len() ==> is_id_char(#[trigger] id@[i]),
            None => length > MAX_ID_LENGTH,
        },
{
    if length <= MAX_ID_LENGTH {
        Some(random_id(length))
    } else {
        None
    }
}

/// A fresh session id.
pub fn new_session_id() -> (r: String)
    ensures
        r@.len() == ID_LENGTH,
        forall|i: int| 0 <= i < r@.len() ==> is_id_char(#[trigger] r@[i]),
{
    random_id(ID_LENGTH)
}

/// An access token and the refresh token that goes with it.
#[derive(Debug)]
pub struct TokenPair {
    pub access_token: String,
    pub refresh_token: String,
}

/// A pair of tokens as plain values.
pub ghost struct TokenPairView {
    pub access_token: Seq<char>,
    pub refresh_token: Seq<char>,
}

impl View for TokenPair {
    type V = TokenPairView;

    open spec fn view(&self) -> TokenPairView {
        TokenPairView { access_token: self.access_token@, refresh_token: self.refresh_token@ }
    }
}

/// What a request for tokens is answered with, as plain values: the pair, or the kind of
/// the error.
pub open spec fn response_view(response: Result<TokenPair, HttpError>) -> Result<
    TokenPairView,
    ErrorKind,
> {
    match response {
        Ok(pair) => Ok(pair@),
        Err(e) => Err(e.kind()),
    }
}

/// The claims of the two tokens minted at `now` for a user, a role and a session: both for
/// this backend, both issued at `now`, the access token good for a quarter of an hour and
/// the refresh token for seven days, both with the same user and session. There are none
/// where a timestamp does not fit.
pub open spec fn spec_mint_claims(
    user_id: Seq<char>,
    role: Role,
    session_id: Seq<char>,
    now: int,
) -> Option<(AccessClaimsView, RefreshClaimsView)> {
    match (
        spec_timestamp(now),
        spec_expires_timestamp(now, ACCESS_TOKEN_VALID_TIME_LENGTH as int),
        spec_expires_timestamp(now, REFRESH_TOKEN_VALID_TIME_LENGTH as int),
    ) {
        (Some(iat), Some(access_exp), Some(refresh_exp)) => Some(
            (
                AccessClaimsView {
                    aud: JWT_TOKEN_AUDIENCE_NAME@,
                    exp: access_exp,
                    iat,
                    uid: user_id,
                    sid: session_id,
                    rle: role,
                },
                RefreshClaimsView {
                    aud: JWT_TOKEN_AUDIENCE_NAME@,
                    exp: refresh_exp,
                    iat,
                    uid: user_id,
                    sid: session_id,
                },
            ),
        ),
        _ => None,
    }
}

/// The pair of tokens minted at `now` for a user, a role and a session: what signing the
/// two claims gives. There is none where a timestamp does not fit, or where either signing
/// gives nothing.
pub open spec fn spec_mint_tokens(
    keys: KeyView,
    user_id: Seq<char>,
    role: Role,
    session_id: Seq<char>,
    now: int,
) -> Option<TokenPairView> {
    match spec_mint_claims(user_id, role, session_id, now) {
        Some((access, refresh)) => match (
            keys.sealed_access(access),
            keys.sealed_refresh(refresh),
        ) {
            (Some(access_token), Some(refresh_token)) => Some(
                TokenPairView { access_token, refresh_token },
            ),
            _ => None,
        },
        None => None,
    }
}

/// `pair` is the pair of tokens minted at `now` for the user, the role and the session.
pub open spec fn minted(
    keys: KeyView,
    user_id: Seq<char>,
    role: Role,
    session_id: Seq<char>,
    now: int,
    pair: TokenPairView,
) -> bool {
    spec_mint_tokens(keys, user_id, role, session_id, now) == Some(pair)
}

/// Mints the pair of tokens for a user, a role and a session at `now`. It fails, with an
/// internal error, exactly where there is no such pair.
pub fn mint_tokens(codec: &TokenCodec, user_id: &str, role: Role, session_id: &str, now: i64) -> (r:
    Result<TokenPair, HttpError>)
    ensures
        match r {
            Ok(pair) => spec_mint_tokens(codec@, user_id@, role, session_id@, now as int) == Some(
                pair@,
            ),
            Err(e) => spec_mint_tokens(codec@, user_id@, role, session_id@, now as int) is None
                && e.kind() == ErrorKind::InternalServerError,
        },
{
    let access_exp = match expires_timestamp_from(now, ACCESS_TOKEN_VALID_TIME_LENGTH) {
        Ok(t) => t,
        Err(e) => { return Err(e); },
    };
    let access_claims = match AccessTokenClaims::issued_at(
        user_id.to_owned(),
        role,
        session_id.to_owned(),
        access_exp,
        now,
    ) {
        Ok(c) => c,
        Err(e) => { return Err(e); },
    };
    let refresh_exp = match expires_timestamp_from(now, REFRESH_TOKEN_VALID_TIME_LENGTH) {
        Ok(t) => t,
        Err(e) => { return Err(e); },
    };
    let refresh_claims = match RefreshTokenClaims::issued_at(
        user_id.to_owned(),
        session_id.to_owned(),
        refresh_exp,
        now,
    ) {
        Ok(c) => c,
        Err(e) => { return Err(e); },
    };
    let access_token = match codec.sign_access(&access_claims) {
        Ok(t) => t,
        Err(e) => { return Err(e); },
    };
    let refresh_token = match codec.sign_refresh(&refresh_claims) {
        Ok(t) => t,
        Err(e) => { return Err(e); },
    };
    Ok(TokenPair { access_token, refresh_token })
}

/// What a sign-in is about to do: the tokens it will give out once the row of the new
/// session is in the store.
#[derive(Debug)]
pub struct SignInPlan {
    pub tokens: TokenPair,
    pub session: UserSessions,
}

/// Prepares a sign-in: mints the tokens and makes up the row that has to be stored before
/// they go out.
pub fn begin_sign_in(
    codec: &TokenCodec,
    user_id: &str,
    role: Role,
    session_id: &str,
    now: i64,
) -> (r: Result<SignInPlan, HttpError>)
    ensures
        match r {
            Ok(plan) => spec_mint_tokens(codec@, user_id@, role, session_id@, now as int) == Some(
                plan.tokens@,
            ) && plan.session.id() == session_id@ && plan.session.content() == (SessionView {
                user_id: user_id@,
                refresh_token: plan.tokens@.refresh_token,
            }),
            Err(e) => spec_mint_tokens(codec@, user_id@, role, session_id@, now as int) is None
                && e.kind() == ErrorKind::InternalServerError,
        },
{
    match mint_tokens(codec, user_id, role, session_id, now) {
        Ok(tokens) => {
            let session = UserSessions {
                user_session_id: session_id.to_owned(),
                user_session_user_id: user_id.to_owned(),
                user_session_refresh_token: tokens.refresh_token.clone(),
            };
            Ok(SignInPlan { tokens, session })
        },
        Err(e) => Err(e),
    }
}

/// What a sign-in answers once the store has spoken: the tokens if the row went in, and an
/// internal error if it did not. No token leaves for a session that is not stored.
pub open spec fn spec_finish_sign_in(tokens: TokenPairView, created: StoreOutcome) -> Result<
    TokenPairView,
    ErrorKind,
> {
    if created == StoreOutcome::Done {
        Ok(tokens)
    } else {
        Err(ErrorKind::InternalServerError)
    }
}

/// Concludes a sign-in with what the store answered to the insertion of the row.
pub fn finish_sign_in(tokens: TokenPair, created: Result<(), StoreError>) -> (r: Result<
    TokenPair,
    HttpError,
>)
    ensures
        response_view(r) == spec_finish_sign_in(tokens@, spec_outcome(created)),
{
    match created {
        Ok(_) => Ok(tokens),
        Err(StoreError::NotFound) => Err(HttpError::internal("the session table is missing")),
        Err(StoreError::Conflict) => Err(HttpError::internal("the session id is taken")),
        Err(StoreError::Unavailable { cause }) => Err(HttpError::InternalServerError { cause }),
    }
}

/// What a sign-in under a session id at `now` makes of a table. Where the tokens are minted
/// and the session id is free, the answer is the pair of tokens, and the table has one row
/// more: that of the session, with the user and the refresh token of the pair. Otherwise the
/// answer is an internal error, and the table is as it was.
pub open spec fn spec_sign_in(
    keys: KeyView,
    table: Map<Seq<char>, SessionView>,
    user_id: Seq<char>,
    role: Role,
    session_id: Seq<char>,
    now: int,
) -> (Map<Seq<char>, SessionView>, Result<TokenPairView, ErrorKind>) {
    match spec_mint_tokens(keys, user_id, role, session_id, now) {
        Some(pair) => if table.dom().contains(session_id) {
            (table, Err(ErrorKind::InternalServerError))
        } else {
            (
                table.insert(
                    session_id,
                    SessionView { user_id, refresh_token: pair.refresh_token },
                ),
                Ok(pair),
            )
        },
        None => (table, Err(ErrorKind::InternalServerError)),
    }
}

/// Signs a user in under the given session id at `now`: mints the tokens, stores the row,
/// and only then hands the tokens out. Where anything fails the store stays as it was.
pub fn sign_in_with(
    codec: &TokenCodec,
    store: &mut SessionStore,
    user_id: &str,
    role: Role,
    session_id: &str,
    now: i64,
) -> (r: Result<TokenPair, HttpError>)
    requires
        old(store).wf(),
    ensures
        final(store).wf(),
        (final(store)@, response_view(r)) == spec_sign_in(
            codec@,
            old(store)@,
            user_id@,
            role,
            session_id@,
            now as int,
        ),
{
    let plan = match begin_sign_in(codec, user_id, role, session_id, now) {
        Ok(plan) => plan,
        Err(e) => { return Err(e); },
    };
    let SignInPlan { tokens, session } = plan;
    let created = store.create(
        session.user_session_id,
        session.user_session_user_id,
        session.user_session_refresh_token,
    );
    finish_sign_in(tokens, created)
}

/// The table and the answer are what a sign-in makes of the table before, under some
/// session id of 32 characters from the alphabet of identifiers and at some moment.
pub open spec fn signed_in(
    keys: KeyView,
    before: Map<Seq<char>, SessionView>,
    after: Map<Seq<char>, SessionView>,
    user_id: Seq<char>,
    role: Role,
    response: Result<TokenPairView, ErrorKind>,
) -> bool {
    exists|session_id: Seq<char>, now: int|
        {
            &&& session_id.len() == ID_LENGTH
            &&& forall|i: int| 0 <= i < session_id.len() ==> is_id_char(#[trigger] session_id[i])
            &&& (after, response) == #[trigger] spec_sign_in(
                keys,
                before,
                user_id,
                role,
                session_id,
                now,
            )
        }
}

/// Signs a user in under a fresh random session id, at the moment the clock shows.
pub fn sign_in(codec: &TokenCodec, store: &mut SessionStore, user_id: &str, role: Role) -> (r:
    Result<TokenPair, HttpError>)
    requires
        old(store).wf(),
    ensures
        final(store).wf(),
        signed_in(codec@, old(store)@, final(store)@, user_id@, role, response_view(r)),
        r matches Err(e) ==> e.kind() == ErrorKind::InternalServerError && final(store)@ == old(
            store,
        )@,
{
    let session_id = new_session_id();
    let now = unix_timestamp_now();
    let r = sign_in_with(codec, store, user_id, role, session_id.as_str(), now);
    assert((final(store)@, response_view(r)) == spec_sign_in(
        codec@,
        old(store)@,
        user_id@,
        role,
        session_id@,
        now as int,
    ));
    r
}

/// Tokens that are minted together are bound to one session and one user.
pub proof fn lemma_minted_together(user_id: Seq<char>, role: Role, session_id: Seq<char>, now: int)
    ensures
        spec_mint_claims(user_id, role, session_id, now) matches Some((access, refresh)) ==> {
            &&& access.sid == session_id && refresh.sid == session_id
            &&& access.uid == user_id && refresh.uid == user_id
            &&& access.rle == role
            &&& access.valid() && refresh.valid()
            &&& access.iat == now && refresh.iat == now
            &&& access.exp == now + 900
            &&& refresh.exp == now + 604800
        },
{
}

} // verus!
