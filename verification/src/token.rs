//! The token codec: signing claims into compact tokens and checking tokens back into claims,
//! with the key material it works from.

use jsonwebtoken::{Algorithm, DecodingKey, EncodingKey, Header, Validation};
use serde_json::Value;
use vstd::prelude::*;

use crate::claims::{AccessClaimsView, AccessTokenClaims, RefreshClaimsView, RefreshTokenClaims};
use crate::constants::JWT_TOKEN_AUDIENCE_NAME;
use crate::errors::HttpError;
use crate::payload::{
    spec_access_claims,
    spec_access_payload,
    spec_refresh_claims,
    spec_refresh_payload,
    Payload,
    PayloadError,
    PayloadView,
};

verus! {

/// The error type of the `jsonwebtoken` crate. Nothing is known of what it holds.
#[verifier::external_type_specification]
#[verifier::external_body]
pub struct ExTokenError(jsonwebtoken::errors::Error);

/// The token that `jsonwebtoken::encode` makes, with the RS256 header and under an RSA
/// private key in PEM form, of the JSON object that has the given texts and numbers as its
/// members; `None` where the crate makes none, as it does of a key that is no RSA key.
pub uninterp spec fn signed_token(
    texts: Seq<(Seq<char>, Seq<char>)>,
    numbers: Seq<(Seq<char>, u64)>,
    private_pem: Seq<u8>,
) -> Option<Seq<char>>;

/// Signs a JSON object.
///
/// Calls `EncodingKey::from_rsa_pem` on the key and `jsonwebtoken::encode` with an RS256
/// header on a `serde_json::Map` that holds each text and each number under its name. The
/// crate parses the key, writes header and object as JSON, and signs with RSASSA-PKCS1-v1_5
/// over SHA-256, whose padding takes no randomness: whether a token comes back, and which,
/// depends on the members and the key alone, and the contract gives the outcome a name.
#[verifier::external_body]
fn encode_members(
    texts: &Vec<(String, String)>,
    numbers: &Vec<(String, u64)>,
    private_pem: &Vec<u8>,
) -> (r: Result<String, jsonwebtoken::errors::Error>)
    ensures
        r matches Ok(token) ==> signed_token(texts.deep_view(), numbers.deep_view(), private_pem@)
            == Some(token@),
        r is Err ==> signed_token(texts.deep_view(), numbers.deep_view(), private_pem@) is None,
{
    let key = EncodingKey::from_rsa_pem(private_pem)?;
    let mut object = serde_json::Map::new();
    object.extend(texts.iter().map(|(name, text)| (name.clone(), Value::from(text.clone()))));
    object.extend(numbers.iter().map(|(name, number)| (name.clone(), Value::from(*number))));
    jsonwebtoken::encode(&Header::new(Algorithm::RS256), &object, &key)
}

/// The members that `jsonwebtoken::decode` finds under the given names in the payload of a
/// token, under an RSA public key in PEM form, when it is asked for RS256 and not asked to
/// look at the clock: for each name of a text the JSON string that stands under it, for
/// each name of a number the unsigned integer, and nothing where the member is absent or
/// of another type. `None` where the crate refuses the token.
pub uninterp spec fn checked_members(
    token: Seq<char>,
    public_pem: Seq<u8>,
    texts: Seq<Seq<char>>,
    numbers: Seq<Seq<char>>,
) -> Option<(Seq<Option<Seq<char>>>, Seq<Option<u64>>)>;

/// Checks a token and hands out the members of its payload that are asked for.
///
/// Calls `DecodingKey::from_rsa_pem` on the key and `jsonwebtoken::decode` with the
/// default validation for RS256 whose expiry check is switched off, then looks each name up
/// in the JSON object with `serde_json::Value::get`, `as_str` and `as_u64`. The crate checks
/// the shape of the token, the algorithm of its header and its signature, and that the
/// payload has an `exp`; it looks at no audience, which is left to the caller. With the
/// expiry check off the outcome depends on the arguments alone, and the contract gives it a
/// name; it also says that there is one answer for each name. (The crate still reads the
/// clock, and gives up if the clock stands before 1970.)
#[verifier::external_body]
fn decode_members(
    token: &str,
    public_pem: &Vec<u8>,
    texts: &Vec<String>,
    numbers: &Vec<String>,
) -> (r: Result<(Vec<Option<String>>, Vec<Option<u64>>), jsonwebtoken::errors::Error>)
    ensures
        r matches Ok(found) ==> checked_members(
            token@,
            public_pem@,
            texts.deep_view(),
            numbers.deep_view(),
        ) == Some(found.deep_view()),
        r matches Ok(found) ==> found.0@.len() == texts@.len() && found.1@.len()
            == numbers@.len(),
        r is Err ==> checked_members(
            token@,
            public_pem@,
            texts.deep_view(),
            numbers.deep_view(),
        ) is None,
{
    let key = DecodingKey::from_rsa_pem(public_pem)?;
    let mut validation = Validation::new(Algorithm::RS256);
    validation.validate_exp = false;
    let object = jsonwebtoken::decode::<Value>(token, &key, &validation)?.claims;
    let text = |name| object.get(name).and_then(Value::as_str).map(String::from);
    let number = |name| object.get(name).and_then(Value::as_u64);
    Ok((texts.iter().map(text).collect(), numbers.iter().map(number).collect()))
}

/// The names of the texts of a payload.
pub open spec fn spec_text_names() -> Seq<Seq<char>> {
    seq!["aud"@, "uid"@, "sid"@, "rle"@]
}

/// The names of the numbers of a payload.
pub open spec fn spec_number_names() -> Seq<Seq<char>> {
    seq!["exp"@, "iat"@]
}

/// The payload of a token that the key accepts: its six members, looked up by their names.
pub open spec fn checked_payload(token: Seq<char>, public_pem: Seq<u8>) -> Option<PayloadView> {
    match checked_members(token, public_pem, spec_text_names(), spec_number_names()) {
        Some((texts, numbers)) => if texts.len() == 4 && numbers.len() == 2 {
            Some(
                PayloadView {
                    aud: texts[0],
                    exp: numbers[0],
                    iat: numbers[1],
                    uid: texts[1],
                    sid: texts[2],
                    rle: texts[3],
                },
            )
        } else {
            None
        },
        None => None,
    }
}

/// Checks a token and hands out its payload.
fn decode_payload(token: &str, public_pem: &Vec<u8>) -> (r: Option<Payload>)
    ensures
        match r {
            Some(payload) => checked_payload(token@, public_pem@) == Some(payload@),
            None => checked_payload(token@, public_pem@) is None,
        },
{
    let mut text_names: Vec<String> = Vec::new();
    text_names.push("aud".to_string());
    text_names.push("uid".to_string());
    text_names.push("sid".to_string());
    text_names.push("rle".to_string());
    let mut number_names: Vec<String> = Vec::new();
    number_names.push("exp".to_string());
    number_names.push("iat".to_string());
    assert(text_names.deep_view() =~= spec_text_names());
    assert(number_names.deep_view() =~= spec_number_names());
    match decode_members(token, public_pem, &text_names, &number_names) {
        Err(_) => None,
        Ok(found) => {
            let (mut texts, mut numbers) = found;
            let ghost found_texts = texts.deep_view();
            let ghost found_numbers = numbers.deep_view();
            let rle = texts.pop();
            let sid = texts.pop();
            let uid = texts.pop();
            let aud = texts.pop();
            let iat = numbers.pop();
            let exp = numbers.pop();
            match (aud, uid, sid, rle, exp, iat) {
                (Some(aud), Some(uid), Some(sid), Some(rle), Some(exp), Some(iat)) => {
                    let payload = Payload { aud, exp, iat, uid, sid, rle };
                    assert(payload@.aud == found_texts[0]);
                    assert(payload@.uid == found_texts[1]);
                    assert(payload@.sid == found_texts[2]);
                    assert(payload@.rle == found_texts[3]);
                    assert(payload@.exp == found_numbers[0]);
                    assert(payload@.iat == found_numbers[1]);
                    Some(payload)
                },
                _ => None,
            }
        },
    }
}

/// The words of an error of the `jsonwebtoken` crate: what its `Display` writes.
#[verifier::external_body]
fn token_error_text(error: &jsonwebtoken::errors::Error) -> String {
    error.to_string()
}

/// The key pairs that tokens are signed and checked with, each key as the bytes of its PEM
/// file: one pair for access tokens, one for refresh tokens. It is read once, when the process
/// starts, and never changed.
#[derive(Debug)]
pub struct KeyMaterial {
    pub access_private_pem: Vec<u8>,
    pub access_public_pem: Vec<u8>,
    pub refresh_private_pem: Vec<u8>,
    pub refresh_public_pem: Vec<u8>,
}

/// Key material as plain values.
pub ghost struct KeyView {
    pub access_private_pem: Seq<u8>,
    pub access_public_pem: Seq<u8>,
    pub refresh_private_pem: Seq<u8>,
    pub refresh_public_pem: Seq<u8>,
}

impl View for KeyMaterial {
    type V = KeyView;

    open spec fn view(&self) -> KeyView {
        KeyView {
            access_private_pem: self.access_private_pem@,
            access_public_pem: self.access_public_pem@,
            refresh_private_pem: self.refresh_private_pem@,
            refresh_public_pem: self.refresh_public_pem@,
        }
    }
}

/// Why a token was not accepted.
#[derive(Clone, Copy, Debug, PartialEq, Eq, Structural)]
pub enum VerificationError {
    /// The token has not the shape of a token, or its signature does not match.
    Undecodable,
    /// The signed payload lacks a member of the claims, or holds one of the wrong type.
    MalformedClaims,
    /// The signed payload is addressed to someone else.
    AudienceMismatch,
    /// The token was valid once and is past its expiry.
    Expired,
}

/// The error that stands for a payload that does not hold the claims.
pub open spec fn spec_payload_error(error: PayloadError) -> VerificationError {
    match error {
        PayloadError::Malformed => VerificationError::MalformedClaims,
        PayloadError::AudienceMismatch => VerificationError::AudienceMismatch,
    }
}

impl KeyView {
    /// What checking an access token gives, expiry aside: the claims of a token that is
    /// signed by the access key, addressed to this backend and well formed.
    pub open spec fn decode_access(self, token: Seq<char>) -> Result<
        AccessClaimsView,
        VerificationError,
    > {
        match checked_payload(token, self.access_public_pem) {
            None => Err(VerificationError::Undecodable),
            Some(payload) => match spec_access_claims(payload) {
                Ok(claims) => Ok(claims),
                Err(e) => Err(spec_payload_error(e)),
            },
        }
    }

    /// What checking a refresh token gives, expiry aside.
    pub open spec fn decode_refresh(self, token: Seq<char>) -> Result<
        RefreshClaimsView,
        VerificationError,
    > {
        match checked_payload(token, self.refresh_public_pem) {
            None => Err(VerificationError::Undecodable),
            Some(payload) => match spec_refresh_claims(payload) {
                Ok(claims) => Ok(claims),
                Err(e) => Err(spec_payload_error(e)),
            },
        }
    }

    /// What verifying an access token at `now` gives: its claims, unless it expired before.
    pub open spec fn verify_access(self, token: Seq<char>, now: int) -> Result<
        AccessClaimsView,
        VerificationError,
    > {
        match self.decode_access(token) {
            Ok(claims) => if claims.exp < now {
                Err(VerificationError::Expired)
            } else {
                Ok(claims)
            },
            Err(e) => Err(e),
        }
    }

    /// What verifying a refresh token at `now` gives: its claims, unless it expired before.
    pub open spec fn verify_refresh(self, token: Seq<char>, now: int) -> Result<
        RefreshClaimsView,
        VerificationError,
    > {
        match self.decode_refresh(token) {
            Ok(claims) => if claims.exp < now {
                Err(VerificationError::Expired)
            } else {
                Ok(claims)
            },
            Err(e) => Err(e),
        }
    }

    /// A token is fit to be given out for access claims if it is not empty and the public
    /// access key reads it back as those claims.
    pub open spec fn fits_access(self, claims: AccessClaimsView, token: Seq<char>) -> bool {
        token.len() > 0 && self.decode_access(token) == Ok::<AccessClaimsView, VerificationError>(
            claims,
        )
    }

    /// A token is fit to be given out for refresh claims if it is not empty and the public
    /// refresh key reads it back as those claims.
    pub open spec fn fits_refresh(self, claims: RefreshClaimsView, token: Seq<char>) -> bool {
        token.len() > 0 && self.decode_refresh(token) == Ok::<
            RefreshClaimsView,
            VerificationError,
        >(claims)
    }

    /// What signing access claims gives: the token that the private access key makes of
    /// their payload, where it makes one and the token is fit to be given out; and nothing
    /// otherwise. With keys that are a pair and claims for this backend there is a token.
    pub open spec fn sealed_access(self, claims: AccessClaimsView) -> Option<Seq<char>> {
        match signed_token(
            spec_access_payload(claims).texts(),
            spec_access_payload(claims).numbers(),
            self.access_private_pem,
        ) {
            Some(token) => if self.fits_access(claims, token) {
                Some(token)
            } else {
                None
            },
            None => None,
        }
    }

    /// What signing refresh claims gives.
    pub open spec fn sealed_refresh(self, claims: RefreshClaimsView) -> Option<Seq<char>> {
        match signed_token(
            spec_refresh_payload(claims).texts(),
            spec_refresh_payload(claims).numbers(),
            self.refresh_private_pem,
        ) {
            Some(token) => if self.fits_refresh(claims, token) {
                Some(token)
            } else {
                None
            },
            None => None,
        }
    }

    /// `token` is what signing the access claims gives.
    pub open spec fn signs_access(self, claims: AccessClaimsView, token: Seq<char>) -> bool {
        self.sealed_access(claims) == Some(token)
    }

    /// `token` is what signing the refresh claims gives.
    pub open spec fn signs_refresh(self, claims: RefreshClaimsView, token: Seq<char>) -> bool {
        self.sealed_refresh(claims) == Some(token)
    }
}

/// The access claims that the keys are tried on.
pub open spec fn spec_probe_access() -> AccessClaimsView {
    AccessClaimsView {
        aud: JWT_TOKEN_AUDIENCE_NAME@,
        exp: 0,
        iat: 0,
        uid: Seq::empty(),
        sid: Seq::empty(),
        rle: crate::database::Role::Student,
    }
}

/// The refresh claims that the keys are tried on.
pub open spec fn spec_probe_refresh() -> RefreshClaimsView {
    RefreshClaimsView {
        aud: JWT_TOKEN_AUDIENCE_NAME@,
        exp: 0,
        iat: 0,
        uid: Seq::empty(),
        sid: Seq::empty(),
    }
}

/// Whether a moment lies before `now`.
pub fn is_past(moment: usize, now: i64) -> (r: bool)
    ensures
        r == (moment < now),
{
    now > 0 && (moment as u64) < (now as u64)
}

/// Signs claims into tokens and checks tokens back into claims.
#[derive(Debug)]
pub struct TokenCodec {
    pub keys: KeyMaterial,
}

impl View for TokenCodec {
    type V = KeyView;

    open spec fn view(&self) -> KeyView {
        self.keys@
    }
}

impl TokenCodec {
    /// A codec that works with the given keys.
    pub fn new(keys: KeyMaterial) -> (r: TokenCodec)
        ensures
            r@ == keys@,
    {
        TokenCodec { keys }
    }

    /// Checks an access token, expiry aside.
    pub fn decode_access(&self, token: &str) -> (r: Result<AccessTokenClaims, VerificationError>)
        ensures
            match r {
                Ok(c) => self@.decode_access(token@) == Ok::<AccessClaimsView, VerificationError>(
                    c@,
                ),
                Err(e) => self@.decode_access(token@) == Err::<AccessClaimsView, VerificationError>(
                    e,
                ),
            },
    {
        match decode_payload(token, &self.keys.access_public_pem) {
            None => Err(VerificationError::Undecodable),
            Some(payload) => match AccessTokenClaims::from_payload(payload) {
                Ok(claims) => Ok(claims),
                Err(PayloadError::Malformed) => Err(VerificationError::MalformedClaims),
                Err(PayloadError::AudienceMismatch) => Err(VerificationError::AudienceMismatch),
            },
        }
    }

    /// Checks a refresh token, expiry aside.
    pub fn decode_refresh(&self, token: &str) -> (r: Result<
        RefreshTokenClaims,
        VerificationError,
    >)
        ensures
            match r {
                Ok(c) => self@.decode_refresh(token@) == Ok::<
                    RefreshClaimsView,
                    VerificationError,
                >(c@),
                Err(e) => self@.decode_refresh(token@) == Err::<
                    RefreshClaimsView,
                    VerificationError,
                >(e),
            },
    {
        match decode_payload(token, &self.keys.refresh_public_pem) {
            None => Err(VerificationError::Undecodable),
            Some(payload) => match RefreshTokenClaims::from_payload(payload) {
                Ok(claims) => Ok(claims),
                Err(PayloadError::Malformed) => Err(VerificationError::MalformedClaims),
                Err(PayloadError::AudienceMismatch) => Err(VerificationError::AudienceMismatch),
            },
        }
    }

    /// Verifies an access token at `now`: its signature, its audience, its shape, and that it
    /// has not expired. A token whose expiry is `now` itself is still good.
    pub fn verify_access(&self, token: &str, now: i64) -> (r: Result<
        AccessTokenClaims,
        VerificationError,
    >)
        ensures
            match r {
                Ok(c) => self@.verify_access(token@, now as int) == Ok::<
                    AccessClaimsView,
                    VerificationError,
                >(c@),
                Err(e) => self@.verify_access(token@, now as int) == Err::<
                    AccessClaimsView,
                    VerificationError,
                >(e),
            },
    {
        match self.decode_access(token) {
            Ok(claims) => if is_past(claims.exp, now) {
                Err(VerificationError::Expired)
            } else {
                Ok(claims)
            },
            Err(e) => Err(e),
        }
    }

    /// Verifies a refresh token at `now`, as `verify_access` does an access token.
    pub fn verify_refresh(&self, token: &str, now: i64) -> (r: Result<
        RefreshTokenClaims,
        VerificationError,
    >)
        ensures
            match r {
                Ok(c) => self@.verify_refresh(token@, now as int) == Ok::<
                    RefreshClaimsView,
                    VerificationError,
                >(c@),
                Err(e) => self@.verify_refresh(token@, now as int) == Err::<
                    RefreshClaimsView,
                    VerificationError,
                >(e),
            },
    {
        match self.decode_refresh(token) {
            Ok(claims) => if is_past(claims.exp, now) {
                Err(VerificationError::Expired)
            } else {
                Ok(claims)
            },
            Err(e) => Err(e),
        }
    }

    /// Hands a freshly signed access token on if it is not empty and the public key reads it
    /// back as the claims it was made from, and fails otherwise: a token that this codec
    /// would not accept itself is never given out.
    pub fn seal_access(&self, claims: &AccessTokenClaims, token: String) -> (r: Result<
        String,
        HttpError,
    >)
        ensures
            match r {
                Ok(t) => t@ == token@ && token@.len() > 0 && self@.decode_access(token@) == Ok::<
                    AccessClaimsView,
                    VerificationError,
                >(claims@),
                Err(e) => e is InternalServerError && (token@.len() == 0 || self@.decode_access(
                    token@,
                ) != Ok::<AccessClaimsView, VerificationError>(claims@)),
            },
    {
        if token.as_str().is_empty() {
            return Err(HttpError::internal("the signed access token is empty"));
        }
        match self.decode_access(token.as_str()) {
            Ok(read) => if read == *claims {
                Ok(token)
            } else {
                Err(HttpError::internal("the signed access token reads back as other claims"))
            },
            Err(_) => Err(HttpError::internal("the signed access token cannot be verified")),
        }
    }

    /// Hands a freshly signed refresh token on if it is not empty and the public key reads it
    /// back as the claims it was made from, and fails otherwise.
    pub fn seal_refresh(&self, claims: &RefreshTokenClaims, token: String) -> (r: Result<
        String,
        HttpError,
    >)
        ensures
            match r {
                Ok(t) => t@ == token@ && token@.len() > 0 && self@.decode_refresh(token@) == Ok::<
                    RefreshClaimsView,
                    VerificationError,
                >(claims@),
                Err(e) => e is InternalServerError && (token@.len() == 0 || self@.decode_refresh(
                    token@,
                ) != Ok::<RefreshClaimsView, VerificationError>(claims@)),
            },
    {
        if token.as_str().is_empty() {
            return Err(HttpError::internal("the signed refresh token is empty"));
        }
        match self.decode_refresh(token.as_str()) {
            Ok(read) => if read == *claims {
                Ok(token)
            } else {
                Err(HttpError::internal("the signed refresh token reads back as other claims"))
            },
            Err(_) => Err(HttpError::internal("the signed refresh token cannot be verified")),
        }
    }

    /// Signs access claims with the private access key. The token is a function of the
    /// claims and the keys, and this codec verifies it as those claims until they expire.
    /// Signing fails, with an internal error, exactly where the crate makes no token of the
    /// claims or makes one that this codec would not accept.
    pub fn sign_access(&self, claims: &AccessTokenClaims) -> (r: Result<String, HttpError>)
        ensures
            match r {
                Ok(token) => self@.sealed_access(claims@) == Some(token@),
                Err(e) => self@.sealed_access(claims@) is None && e is InternalServerError,
            },
    {
        let payload = claims.to_payload();
        match encode_members(&payload.texts(), &payload.numbers(), &self.keys.access_private_pem) {
            Ok(token) => self.seal_access(claims, token),
            Err(error) => Err(HttpError::InternalServerError { cause: token_error_text(&error) }),
        }
    }

    /// Tries both key pairs once, on claims made up for the purpose: signs them and reads
    /// them back. Material that is no RSA key, or a private and a public key that are no
    /// pair, shows here and not at the first sign-in.
    pub fn probe(&self) -> (r: Result<(), HttpError>)
        ensures
            match r {
                Ok(_) => self@.sealed_access(spec_probe_access()) is Some && self@.sealed_refresh(
                    spec_probe_refresh(),
                ) is Some,
                Err(e) => e is InternalServerError && (self@.sealed_access(spec_probe_access())
                    is None || self@.sealed_refresh(spec_probe_refresh()) is None),
            },
    {
        proof {
            reveal_strlit("");
        }
        let access = AccessTokenClaims {
            aud: JWT_TOKEN_AUDIENCE_NAME.to_string(),
            exp: 0,
            iat: 0,
            uid: String::new(),
            sid: String::new(),
            rle: crate::database::Role::Student,
        };
        let refresh = RefreshTokenClaims {
            aud: JWT_TOKEN_AUDIENCE_NAME.to_string(),
            exp: 0,
            iat: 0,
            uid: String::new(),
            sid: String::new(),
        };
        let access_token = match self.sign_access(&access) {
            Ok(token) => token,
            Err(e) => { return Err(e); },
        };
        let refresh_token = match self.sign_refresh(&refresh) {
            Ok(token) => token,
            Err(e) => { return Err(e); },
        };
        Ok(())
    }

    /// Signs refresh claims with the private refresh key, as `sign_access` does access
    /// claims with the other pair.
    pub fn sign_refresh(&self, claims: &RefreshTokenClaims) -> (r: Result<String, HttpError>)
        ensures
            match r {
                Ok(token) => self@.sealed_refresh(claims@) == Some(token@),
                Err(e) => self@.sealed_refresh(claims@) is None && e is InternalServerError,
            },
    {
        let payload = claims.to_payload();
        match encode_members(&payload.texts(), &payload.numbers(), &self.keys.refresh_private_pem) {
            Ok(token) => self.seal_refresh(claims, token),
            Err(error) => Err(HttpError::InternalServerError { cause: token_error_text(&error) }),
        }
    }
}

/// A token that was signed from access claims verifies as those claims at every moment up
/// to their expiry.
pub proof fn lemma_access_round_trip(
    keys: KeyView,
    claims: AccessClaimsView,
    token: Seq<char>,
    now: int,
)
    requires
        keys.signs_access(claims, token),
        now <= claims.exp,
    ensures
        keys.verify_access(token, now) == Ok::<AccessClaimsView, VerificationError>(claims),
{
}

/// A token that was signed from refresh claims verifies as those claims at every moment up
/// to their expiry.
pub proof fn lemma_refresh_round_trip(
    keys: KeyView,
    claims: RefreshClaimsView,
    token: Seq<char>,
    now: int,
)
    requires
        keys.signs_refresh(claims, token),
        now <= claims.exp,
    ensures
        keys.verify_refresh(token, now) == Ok::<RefreshClaimsView, VerificationError>(claims),
{
}

/// Signing is deterministic: the same claims under the same keys give the same token.
pub proof fn lemma_signing_is_deterministic(
    keys: KeyView,
    claims: RefreshClaimsView,
    first: Seq<char>,
    second: Seq<char>,
)
    requires
        keys.signs_refresh(claims, first),
        keys.signs_refresh(claims, second),
    ensures
        first == second,
{
}

/// The boundary of expiry: a token that decodes is refused one second after its expiry and
/// every second after that, and accepted at its expiry and every second before.
pub proof fn lemma_expiry_boundary(keys: KeyView, token: Seq<char>, now: int)
    ensures
        keys.decode_access(token) matches Ok(claims) ==> {
            &&& claims.exp <= now - 1 ==> keys.verify_access(token, now) == Err::<
                AccessClaimsView,
                VerificationError,
            >(VerificationError::Expired)
            &&& claims.exp >= now ==> keys.verify_access(token, now) == Ok::<
                AccessClaimsView,
                VerificationError,
            >(claims)
        },
        keys.decode_refresh(token) matches Ok(claims) ==> {
            &&& claims.exp <= now - 1 ==> keys.verify_refresh(token, now) == Err::<
                RefreshClaimsView,
                VerificationError,
            >(VerificationError::Expired)
            &&& claims.exp >= now ==> keys.verify_refresh(token, now) == Ok::<
                RefreshClaimsView,
                VerificationError,
            >(claims)
        },
{
}

} // verus!
