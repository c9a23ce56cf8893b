//! The members of a token's payload, and how the two kinds of claims are written to them
//! and read back.

use vstd::prelude::*;

use crate::claims::{AccessClaimsView, AccessTokenClaims, RefreshClaimsView, RefreshTokenClaims};
use crate::constants::JWT_TOKEN_AUDIENCE_NAME;
use crate::database::Role;

verus! {

/// The members of a payload that the claims are made of, each as it stands in the JSON
/// object: a text, a number, or absent (or of another type, which counts as absent).
#[derive(Debug)]
pub struct Payload {
    pub aud: Option<String>,
    pub exp: Option<u64>,
    pub iat: Option<u64>,
    pub uid: Option<String>,
    pub sid: Option<String>,
    pub rle: Option<String>,
}

/// A payload as plain values.
pub ghost struct PayloadView {
    pub aud: Option<Seq<char>>,
    pub exp: Option<u64>,
    pub iat: Option<u64>,
    pub uid: Option<Seq<char>>,
    pub sid: Option<Seq<char>>,
    pub rle: Option<Seq<char>>,
}

/// A text member as a plain value.
pub open spec fn text_view(member: Option<String>) -> Option<Seq<char>> {
    match member {
        Some(text) => Some(text@),
        None => None,
    }
}

impl View for Payload {
    type V = PayloadView;

    open spec fn view(&self) -> PayloadView {
        PayloadView {
            aud: text_view(self.aud),
            exp: self.exp,
            iat: self.iat,
            uid: text_view(self.uid),
            sid: text_view(self.sid),
            rle: text_view(self.rle),
        }
    }
}

/// The list that has one more member if there is one to add.
pub open spec fn with_member<T>(members: Seq<(Seq<char>, T)>, name: Seq<char>, member: Option<
    T,
>) -> Seq<(Seq<char>, T)> {
    match member {
        Some(value) => members.push((name, value)),
        None => members,
    }
}

impl PayloadView {
    /// The texts of the payload that are present, each under its name.
    pub open spec fn texts(self) -> Seq<(Seq<char>, Seq<char>)> {
        with_member(
            with_member(
                with_member(with_member(Seq::empty(), "aud"@, self.aud), "uid"@, self.uid),
                "sid"@,
                self.sid,
            ),
            "rle"@,
            self.rle,
        )
    }

    /// The numbers of the payload that are present, each under its name.
    pub open spec fn numbers(self) -> Seq<(Seq<char>, u64)> {
        with_member(with_member(Seq::empty(), "exp"@, self.exp), "iat"@, self.iat)
    }
}

fn add_text(members: &mut Vec<(String, String)>, name: &str, member: &Option<String>)
    ensures
        final(members).deep_view() == with_member(
            old(members).deep_view(),
            name@,
            text_view(*member),
        ),
{
    match member {
        Some(text) => {
            members.push((name.to_owned(), text.clone()));
            assert(members.deep_view() =~= old(members).deep_view().push((name@, text@)));
        },
        None => {},
    }
}

fn add_number(members: &mut Vec<(String, u64)>, name: &str, member: Option<u64>)
    ensures
        final(members).deep_view() == with_member(old(members).deep_view(), name@, member),
{
    match member {
        Some(number) => {
            members.push((name.to_owned(), number));
            assert(members.deep_view() =~= old(members).deep_view().push((name@, number)));
        },
        None => {},
    }
}

impl Payload {
    /// The texts of the payload that are present, each under its name.
    pub fn texts(&self) -> (r: Vec<(String, String)>)
        ensures
            r.deep_view() == self@.texts(),
    {
        let mut members: Vec<(String, String)> = Vec::new();
        assert(members.deep_view() =~= Seq::empty());
        add_text(&mut members, "aud", &self.aud);
        add_text(&mut members, "uid", &self.uid);
        add_text(&mut members, "sid", &self.sid);
        add_text(&mut members, "rle", &self.rle);
        members
    }

    /// The numbers of the payload that are present, each under its name.
    pub fn numbers(&self) -> (r: Vec<(String, u64)>)
        ensures
            r.deep_view() == self@.numbers(),
    {
        let mut members: Vec<(String, u64)> = Vec::new();
        assert(members.deep_view() =~= Seq::empty());
        add_number(&mut members, "exp", self.exp);
        add_number(&mut members, "iat", self.iat);
        members
    }
}

/// Why a payload does not hold the claims that were asked of it.
#[derive(Clone, Copy, Debug, PartialEq, Eq, Structural)]
pub enum PayloadError {
    /// A member is absent, of the wrong type, or out of range.
    Malformed,
    /// The payload is addressed to someone else.
    AudienceMismatch,
}

/// The payload that access claims are written as.
pub open spec fn spec_access_payload(claims: AccessClaimsView) -> PayloadView {
    PayloadView {
        aud: Some(claims.aud),
        exp: Some(claims.exp as u64),
        iat: Some(claims.iat as u64),
        uid: Some(claims.uid),
        sid: Some(claims.sid),
        rle: Some(claims.rle.spec_name()),
    }
}

/// The payload that refresh claims are written as.
pub open spec fn spec_refresh_payload(claims: RefreshClaimsView) -> PayloadView {
    PayloadView {
        aud: Some(claims.aud),
        exp: Some(claims.exp as u64),
        iat: Some(claims.iat as u64),
        uid: Some(claims.uid),
        sid: Some(claims.sid),
        rle: None,
    }
}

/// The refresh claims that a payload holds: all five members present, the numbers in range,
/// and the audience this backend's. A role, if the payload has one, is not looked at.
pub open spec fn spec_refresh_claims(payload: PayloadView) -> Result<
    RefreshClaimsView,
    PayloadError,
> {
    if payload.aud is None || payload.exp is None || payload.iat is None || payload.uid is None
        || payload.sid is None {
        Err(PayloadError::Malformed)
    } else if payload.exp->0 > usize::MAX || payload.iat->0 > usize::MAX {
        Err(PayloadError::Malformed)
    } else if payload.aud->0 != JWT_TOKEN_AUDIENCE_NAME@ {
        Err(PayloadError::AudienceMismatch)
    } else {
        Ok(
            RefreshClaimsView {
                aud: payload.aud->0,
                exp: payload.exp->0 as usize,
                iat: payload.iat->0 as usize,
                uid: payload.uid->0,
                sid: payload.sid->0,
            },
        )
    }
}

/// The access claims that a payload holds: what refresh claims ask, and the name of a role.
pub open spec fn spec_access_claims(payload: PayloadView) -> Result<
    AccessClaimsView,
    PayloadError,
> {
    if payload.rle is None || Role::spec_from_name(payload.rle->0) is None {
        Err(PayloadError::Malformed)
    } else {
        match spec_refresh_claims(payload) {
            Ok(c) => Ok(
                AccessClaimsView {
                    aud: c.aud,
                    exp: c.exp,
                    iat: c.iat,
                    uid: c.uid,
                    sid: c.sid,
                    rle: Role::spec_from_name(payload.rle->0)->0,
                },
            ),
            Err(e) => Err(e),
        }
    }
}

impl AccessTokenClaims {
    /// Writes the claims as a payload.
    pub fn to_payload(&self) -> (r: Payload)
        ensures
            r@ == spec_access_payload(self@),
    {
        Payload {
            aud: Some(self.aud.clone()),
            exp: Some(self.exp as u64),
            iat: Some(self.iat as u64),
            uid: Some(self.uid.clone()),
            sid: Some(self.sid.clone()),
            rle: Some(self.rle.name()),
        }
    }

    /// Reads the claims that a payload holds.
    pub fn from_payload(payload: Payload) -> (r: Result<AccessTokenClaims, PayloadError>)
        ensures
            match r {
                Ok(c) => spec_access_claims(payload@) == Ok::<AccessClaimsView, PayloadError>(c@),
                Err(e) => spec_access_claims(payload@) == Err::<AccessClaimsView, PayloadError>(e),
            },
    {
        let role = match &payload.rle {
            Some(name) => match Role::from_name(name.as_str()) {
                Some(role) => role,
                None => { return Err(PayloadError::Malformed); },
            },
            None => { return Err(PayloadError::Malformed); },
        };
        match RefreshTokenClaims::from_payload(payload) {
            Ok(c) => Ok(
                AccessTokenClaims {
                    aud: c.aud,
                    exp: c.exp,
                    iat: c.iat,
                    uid: c.uid,
                    sid: c.sid,
                    rle: role,
                },
            ),
            Err(e) => Err(e),
        }
    }
}

impl RefreshTokenClaims {
    /// Writes the claims as a payload.
    pub fn to_payload(&self) -> (r: Payload)
        ensures
            r@ == spec_refresh_payload(self@),
    {
        Payload {
            aud: Some(self.aud.clone()),
            exp: Some(self.exp as u64),
            iat: Some(self.iat as u64),
            uid: Some(self.uid.clone()),
            sid: Some(self.sid.clone()),
            rle: None,
        }
    }

    /// Reads the claims that a payload holds.
    pub fn from_payload(payload: Payload) -> (r: Result<RefreshTokenClaims, PayloadError>)
        ensures
            match r {
                Ok(c) => spec_refresh_claims(payload@) == Ok::<RefreshClaimsView, PayloadError>(
                    c@,
                ),
                Err(e) => spec_refresh_claims(payload@) == Err::<RefreshClaimsView, PayloadError>(
                    e,
                ),
            },
    {
        let Payload { aud, exp, iat, uid, sid, rle: _ } = payload;
        match (aud, exp, iat, uid, sid) {
            (Some(aud), Some(exp), Some(iat), Some(uid), Some(sid)) => {
                if exp > usize::MAX as u64 || iat > usize::MAX as u64 {
                    Err(PayloadError::Malformed)
                } else if aud != JWT_TOKEN_AUDIENCE_NAME.to_owned() {
                    Err(PayloadError::AudienceMismatch)
                } else {
                    Ok(RefreshTokenClaims { aud, exp: exp as usize, iat: iat as usize, uid, sid })
                }
            },
            _ => Err(PayloadError::Malformed),
        }
    }
}

/// Valid access claims are read back from their payload as they were written.
pub proof fn lemma_access_payload_round_trip(claims: AccessClaimsView)
    requires
        claims.valid(),
    ensures
        spec_access_claims(spec_access_payload(claims)) == Ok::<AccessClaimsView, PayloadError>(
            claims,
        ),
{
    Role::lemma_name_round_trip(claims.rle);
}

/// Valid refresh claims are read back from their payload as they were written.
pub proof fn lemma_refresh_payload_round_trip(claims: RefreshClaimsView)
    requires
        claims.valid(),
    ensures
        spec_refresh_claims(spec_refresh_payload(claims)) == Ok::<RefreshClaimsView, PayloadError>(
            claims,
        ),
{
}

/// Claims that were read from a payload are valid.
pub proof fn lemma_claims_read_are_valid(payload: PayloadView)
    ensures
        spec_access_claims(payload) matches Ok(c) ==> c.valid(),
        spec_refresh_claims(payload) matches Ok(c) ==> c.valid(),
{
}

} // verus!
