//! The two kinds of claims that tokens carry, and the arithmetic of their timestamps.

use vstd::prelude::*;
use vstd::std_specs::cmp::PartialEqSpecImpl;

use crate::constants::JWT_TOKEN_AUDIENCE_NAME;
use crate::database::Role;
use crate::errors::HttpError;

verus! {

/// The current time in seconds since the Unix epoch.
///
/// Calls `time::OffsetDateTime::now_utc` and `unix_timestamp` on what it returns. The result
/// is whatever the machine's clock says, so nothing is claimed of it.
#[verifier::external_body]
pub(crate) fn unix_timestamp_now() -> i64 {
    time::OffsetDateTime::now_utc().unix_timestamp()
}

/// A timestamp as the claims hold it: the same number, where it is not negative and fits.
pub open spec fn spec_timestamp(seconds: int) -> Option<usize> {
    if 0 <= seconds <= usize::MAX {
        Some(seconds as usize)
    } else {
        None
    }
}

/// The moment at which a token minted at `now` stops being valid, `valid_minutes` later.
pub open spec fn spec_expires_timestamp(now: int, valid_minutes: int) -> Option<usize> {
    spec_timestamp(now + 60 * valid_minutes)
}

/// Converts a clock reading into the unsigned form that claims hold.
pub fn timestamp_from_clock(seconds: i64) -> (r: Result<usize, HttpError>)
    ensures
        match r {
            Ok(t) => spec_timestamp(seconds as int) == Some(t),
            Err(e) => spec_timestamp(seconds as int) is None && e is InternalServerError,
        },
{
    if seconds < 0 || seconds as u64 > usize::MAX as u64 {
        Err(HttpError::internal("cannot convert timestamp from type i64 to usize"))
    } else {
        Ok(seconds as usize)
    }
}

/// The expiry of a token minted at `now` and valid for `valid_minutes`.
pub fn expires_timestamp_from(now: i64, valid_minutes: u32) -> (r: Result<usize, HttpError>)
    ensures
        match r {
            Ok(t) => spec_expires_timestamp(now as int, valid_minutes as int) == Some(t),
            Err(e) => spec_expires_timestamp(now as int, valid_minutes as int) is None
                && e is InternalServerError,
        },
{
    let moment: i128 = now as i128 + 60 * (valid_minutes as i128);
    if moment < 0 || moment > usize::MAX as i128 {
        Err(HttpError::internal("cannot convert timestamp from type i64 to usize"))
    } else {
        Ok(moment as usize)
    }
}

/// The result is what the expiry of a token minted at `now` is.
pub open spec fn expiry_at(r: Result<usize, HttpError>, now: int, valid_minutes: int) -> bool {
    match r {
        Ok(t) => spec_expires_timestamp(now, valid_minutes) == Some(t),
        Err(e) => spec_expires_timestamp(now, valid_minutes) is None && e is InternalServerError,
    }
}

/// The expiry of a token minted now and valid for `valid_minutes`: what it is at the moment
/// that the clock shows.
pub fn get_expires_timestamp(valid_minutes: u32) -> (r: Result<usize, HttpError>)
    ensures
        exists|now: int| #[trigger] expiry_at(r, now, valid_minutes as int),
        r matches Err(e) ==> e is InternalServerError,
{
    let now = unix_timestamp_now();
    let r = expires_timestamp_from(now, valid_minutes);
    assert(expiry_at(r, now as int, valid_minutes as int));
    r
}

/// What an access token asserts: for whom it was minted, until when it holds, when it was
/// minted, the user, the login it belongs to, and the user's role.
#[derive(Debug)]
pub struct AccessTokenClaims {
    pub aud: String,
    pub exp: usize,
    pub iat: usize,
    pub uid: String,
    pub sid: String,
    pub rle: Role,
}

/// An access token's claims as plain values.
pub ghost struct AccessClaimsView {
    pub aud: Seq<char>,
    pub exp: usize,
    pub iat: usize,
    pub uid: Seq<char>,
    pub sid: Seq<char>,
    pub rle: Role,
}

impl View for AccessTokenClaims {
    type V = AccessClaimsView;

    open spec fn view(&self) -> AccessClaimsView {
        AccessClaimsView {
            aud: self.aud@,
            exp: self.exp,
            iat: self.iat,
            uid: self.uid@,
            sid: self.sid@,
            rle: self.rle,
        }
    }
}

impl AccessClaimsView {
    /// Claims are valid when they are addressed to this backend.
    pub open spec fn valid(self) -> bool {
        self.aud == JWT_TOKEN_AUDIENCE_NAME@
    }
}

impl AccessTokenClaims {
    /// The claims of an access token minted at `now`.
    pub open spec fn spec_issued_at(
        user_id: Seq<char>,
        user_role: Role,
        session_id: Seq<char>,
        expires_timestamp: usize,
        now: int,
    ) -> Option<AccessClaimsView> {
        match spec_timestamp(now) {
            Some(iat) => Some(
                AccessClaimsView {
                    aud: JWT_TOKEN_AUDIENCE_NAME@,
                    exp: expires_timestamp,
                    iat,
                    uid: user_id,
                    sid: session_id,
                    rle: user_role,
                },
            ),
            None => None,
        }
    }

    /// Access claims for the given user, role and session, minted at `now`.
    pub fn issued_at(
        user_id: String,
        user_role: Role,
        session_id: String,
        expires_timestamp: usize,
        now: i64,
    ) -> (r: Result<Self, HttpError>)
        ensures
            match r {
                Ok(c) => Self::spec_issued_at(
                    user_id@,
                    user_role,
                    session_id@,
                    expires_timestamp,
                    now as int,
                ) == Some(c@),
                Err(e) => spec_timestamp(now as int) is None && e is InternalServerError,
            },
    {
        match timestamp_from_clock(now) {
            Ok(iat) => Ok(
                AccessTokenClaims {
                    aud: JWT_TOKEN_AUDIENCE_NAME.to_string(),
                    exp: expires_timestamp,
                    iat,
                    uid: user_id,
                    sid: session_id,
                    rle: user_role,
                },
            ),
            Err(e) => Err(e),
        }
    }

    /// The result is what minting the claims at `now` gives.
    pub open spec fn minted_at(
        r: Result<Self, HttpError>,
        user_id: Seq<char>,
        user_role: Role,
        session_id: Seq<char>,
        expires_timestamp: usize,
        now: int,
    ) -> bool {
        match r {
            Ok(c) => Self::spec_issued_at(user_id, user_role, session_id, expires_timestamp, now)
                == Some(c@),
            Err(e) => spec_timestamp(now) is None && e is InternalServerError,
        }
    }

    /// Access claims for the given user, role and session, minted at the moment that the
    /// clock shows.
    pub fn new(
        user_id: String,
        user_role: Role,
        session_id: String,
        expires_timestamp: usize,
    ) -> (r: Result<Self, HttpError>)
        ensures
            exists|now: int| #[trigger]
                Self::minted_at(r, user_id@, user_role, session_id@, expires_timestamp, now),
            match r {
                Ok(c) => c@.valid() && c@.exp == expires_timestamp && c@.uid == user_id@ && c@.sid
                    == session_id@ && c@.rle == user_role,
                Err(e) => e is InternalServerError,
            },
    {
        let now = unix_timestamp_now();
        let r = Self::issued_at(user_id, user_role, session_id, expires_timestamp, now);
        assert(Self::minted_at(r, user_id@, user_role, session_id@, expires_timestamp, now as int));
        r
    }

    /// A copy of the claims.
    pub fn duplicate(&self) -> (r: Self)
        ensures
            r@ == self@,
    {
        AccessTokenClaims {
            aud: self.aud.clone(),
            exp: self.exp,
            iat: self.iat,
            uid: self.uid.clone(),
            sid: self.sid.clone(),
            rle: self.rle,
        }
    }
}

impl PartialEq for AccessTokenClaims {
    fn eq(&self, other: &Self) -> (r: bool) {
        self.aud == other.aud && self.exp == other.exp && self.iat == other.iat && self.uid
            == other.uid && self.sid == other.sid && self.rle == other.rle
    }
}

impl PartialEqSpecImpl for AccessTokenClaims {
    open spec fn obeys_eq_spec() -> bool {
        true
    }

    open spec fn eq_spec(&self, other: &Self) -> bool {
        self@ == other@
    }
}

/// What a refresh token asserts: the same as an access token, without the role.
#[derive(Debug)]
pub struct RefreshTokenClaims {
    pub aud: String,
    pub exp: usize,
    pub iat: usize,
    pub uid: String,
    pub sid: String,
}

/// A refresh token's claims as plain values.
pub ghost struct RefreshClaimsView {
    pub aud: Seq<char>,
    pub exp: usize,
    pub iat: usize,
    pub uid: Seq<char>,
    pub sid: Seq<char>,
}

impl View for RefreshTokenClaims {
    type V = RefreshClaimsView;

    open spec fn view(&self) -> RefreshClaimsView {
        RefreshClaimsView {
            aud: self.aud@,
            exp: self.exp,
            iat: self.iat,
            uid: self.uid@,
            sid: self.sid@,
        }
    }
}

impl RefreshClaimsView {
    /// Claims are valid when they are addressed to this backend.
    pub open spec fn valid(self) -> bool {
        self.aud == JWT_TOKEN_AUDIENCE_NAME@
    }
}

impl RefreshTokenClaims {
    /// The claims of a refresh token minted at `now`.
    pub open spec fn spec_issued_at(
        user_id: Seq<char>,
        session_id: Seq<char>,
        expires_timestamp: usize,
        now: int,
    ) -> Option<RefreshClaimsView> {
        match spec_timestamp(now) {
            Some(iat) => Some(
                RefreshClaimsView {
                    aud: JWT_TOKEN_AUDIENCE_NAME@,
                    exp: expires_timestamp,
                    iat,
                    uid: user_id,
                    sid: session_id,
                },
            ),
            None => None,
        }
    }

    /// Refresh claims for the given user and session, minted at `now`.
    pub fn issued_at(
        user_id: String,
        session_id: String,
        expires_timestamp: usize,
        now: i64,
    ) -> (r: Result<Self, HttpError>)
        ensures
            match r {
                Ok(c) => Self::spec_issued_at(user_id@, session_id@, expires_timestamp, now as int)
                    == Some(c@),
                Err(e) => spec_timestamp(now as int) is None && e is InternalServerError,
            },
    {
        match timestamp_from_clock(now) {
            Ok(iat) => Ok(
                RefreshTokenClaims {
                    aud: JWT_TOKEN_AUDIENCE_NAME.to_string(),
                    exp: expires_timestamp,
                    iat,
                    uid: user_id,
                    sid: session_id,
                },
            ),
            Err(e) => Err(e),
        }
    }

    /// The result is what minting the claims at `now` gives.
    pub open spec fn minted_at(
        r: Result<Self, HttpError>,
        user_id: Seq<char>,
        session_id: Seq<char>,
        expires_timestamp: usize,
        now: int,
    ) -> bool {
        match r {
            Ok(c) => Self::spec_issued_at(user_id, session_id, expires_timestamp, now) == Some(
                c@,
            ),
            Err(e) => spec_timestamp(now) is None && e is InternalServerError,
        }
    }

    /// Refresh claims for the given user and session, minted at the moment that the clock
    /// shows.
    pub fn new(user_id: String, session_id: String, expires_timestamp: usize) -> (r: Result<
        Self,
        HttpError,
    >)
        ensures
            exists|now: int| #[trigger]
                Self::minted_at(r, user_id@, session_id@, expires_timestamp, now),
            match r {
                Ok(c) => c@.valid() && c@.exp == expires_timestamp && c@.uid == user_id@ && c@.sid
                    == session_id@,
                Err(e) => e is InternalServerError,
            },
    {
        let now = unix_timestamp_now();
        let r = Self::issued_at(user_id, session_id, expires_timestamp, now);
        assert(Self::minted_at(r, user_id@, session_id@, expires_timestamp, now as int));
        r
    }

    /// A copy of the claims.
    pub fn duplicate(&self) -> (r: Self)
        ensures
            r@ == self@,
    {
        RefreshTokenClaims {
            aud: self.aud.clone(),
            exp: self.exp,
            iat: self.iat,
            uid: self.uid.clone(),
            sid: self.sid.clone(),
        }
    }
}

impl PartialEq for RefreshTokenClaims {
    fn eq(&self, other: &Self) -> (r: bool) {
        self.aud == other.aud && self.exp == other.exp && self.iat == other.iat && self.uid
            == other.uid && self.sid == other.sid
    }
}

impl PartialEqSpecImpl for RefreshTokenClaims {
    open spec fn obeys_eq_spec() -> bool {
        true
    }

    open spec fn eq_spec(&self, other: &Self) -> bool {
        self@ == other@
    }
}

} // verus!
