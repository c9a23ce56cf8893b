use ger::authenticator::{Authenticator, RoleGate};
use ger::claims::{AccessTokenClaims, RefreshTokenClaims};
use ger::credentials::{hash_password, verify_password};
use ger::database::Role;
use ger::errors::HttpError;
use ger::extractors::{
    authenticate, present_tokens, require_role, validate_tokens_at, validate_tokens_in_header,
    AuthenticatedAdminClaims, AuthenticatedUserClaims,
};
use ger::payload::{Payload, PayloadError};
use ger::refresh::{
    answer, refresh, refresh_step, RefreshAction, RefreshEvent, RefreshState,
};
use ger::requests::{user_found, AuthenticationHeaders, SigninRequestBody, UserQuery};
use ger::session::{SessionStore, StoreError};
use ger::signin::{
    begin_sign_in, finish_sign_in, mint_tokens, new_id, new_session_id, sign_in, sign_in_with,
    TokenPair,
};
use ger::token::{KeyMaterial, TokenCodec, VerificationError};

// Two RSA key pairs that were generated for these tests and are used nowhere else.
const ACCESS_PRIVATE_KEY: &str = "\
    MIIEvAIBADANBgkqhkiG9w0BAQEFAASCBKYwggSiAgEAAoIBAQCYReOPj4NFtWMDPFuGafPHdQJB\
    W0KcaVuK1np2DnsIqvoGreVlkcG2Ur7SVxWZIG94fRExltCbwKOh6tl0tmWpbHGuA6nOfWXo0Vrc\
    9LTzkHhhVqgom2tXOiowrwVZbrYczybiosSxAPX2ZbXUB6gGFHBqPFj4akf16U12014jwHt1Ml3F\
    pVsO260L5dubO5avEg3/x7lZTtE9Os7fDolVMSpSJqKvfk7rLvEqZ/PHEmimsQrBALy8QJDrYsaF\
    xOxIl+8E9KEa+waQY6aHLAC3a54Fwe2mDYdShh3CdT/zoWqbndzrfCYTrtk4+YKcEDNGwqGAsTg8\
    IxRXUhleqmeFAgMBAAECggEAByaFBJlLI0tcvmqnq5yvF2ctt273JkwmQdNHheKxMVuCCS1CT+4z\
    yAGDt3HicEHfKivJUmhQHHhD1tcl5f6osHeIsRC3+RvXXMLz/ts44hUfKgb9N4bw1/RBxe56FFSI\
    Fbs+irb1AJDYe/0TuESxxbNRAhQaY3PuNCSEADf1vDz7lTcppV38qFm92Zdxvyw4i0RqM2fBY2ev\
    zeFcdolj+17JLbH7UbdrbH+xfBWRMi78UFvD5D53zXf85LnK/oQXRkLiZ2lnfp31wOcvVW40Tc4R\
    H588zqqYo3JcMC9Q1CLQgYLjcNguXz6m7mWSsQkX/pyQnPEu1Ud87X0M7oyDgQKBgQDVvSmNZvjj\
    mNSArIzcEdNwEHkpBsBCSI0P/LQpF4n6Cl4AE7nuVUSsYfS6ecMrrSmFsfagxjkGUBcPXCMl4XE3\
    6EH6OCdP6Eh0YEFPLN+qcpEM8nb/Ha/5M05fKOJk50mPL2BpcLdQ7zjAETyBXXxjE2C8g/7iSlIk\
    9gykRPs5QQKBgQC2YYCRxWU3lsT7w9n9MqXwV7pBCAGI2oOuklL2JNzmaAAUnhLH7QaW8Eh7K1Yb\
    g6nf5CBV7nBddklV6V0D0EhosNhVhNJmM0ia2cCUcSu1jlD8U3B+0vLDO0roRYP260P22Lims6go\
    VT85OAAgmI8nBzTffxBFBQvv7DDq4ZS5RQKBgATS0wg85asFPO52dmtU/6eMx580ZsxYJM7SjiJL\
    RLLe3wYza8PEKtuVDlfS/aOTsdcxj/ZK4uiQkCSpmKV3M/3mAO8rqz9zZ4cw0Oh/g8Ct+zYGlsbl\
    HZ6LGN6u5oUObyuLDyrx/0EVVPuIqAvnVzJJMqquc+cZdEcfQmPGpsDBAoGAKGEiBCQ+KraY2l0c\
    cHC8SKBDvo41OMWYjhgbgh/bQLAaBHaTFeymntiIU6zenazi+Y0ak6v8+NRtnDXUwDlnLraozxZf\
    Nv13v8EiYDtGQCZIS/V1XL77vLnt9cseUpb4LzkAePgh7PwiyVpavNzKJQv1at5JDd72K6KRmg9j\
    zDkCgYAxwwOoOVjOg4Q8LYzHpn+GIcSIrds74X4e9OyVQ++0zwaRMHnfM2gTMdT3XqF8VXw3ZTJm\
    0Lx7hQBYeYRo1aQDzlBppOuFOZsPpoxCzOXBQfuiUvCc71BNtZrIrHMckoc/o6UI9P5Tt53jDE9s\
    ZrXBL35g0dHLRQ7HBeeFA09+uw==\
";

const ACCESS_PUBLIC_KEY: &str = "\
    MIIBIjANBgkqhkiG9w0BAQEFAAOCAQ8AMIIBCgKCAQEAmEXjj4+DRbVjAzxbhmnzx3UCQVtCnGlb\
    itZ6dg57CKr6Bq3lZZHBtlK+0lcVmSBveH0RMZbQm8CjoerZdLZlqWxxrgOpzn1l6NFa3PS085B4\
    YVaoKJtrVzoqMK8FWW62HM8m4qLEsQD19mW11AeoBhRwajxY+GpH9elNdtNeI8B7dTJdxaVbDtut\
    C+XbmzuWrxIN/8e5WU7RPTrO3w6JVTEqUiair35O6y7xKmfzxxJoprEKwQC8vECQ62LGhcTsSJfv\
    BPShGvsGkGOmhywAt2ueBcHtpg2HUoYdwnU/86Fqm53c63wmE67ZOPmCnBAzRsKhgLE4PCMUV1IZ\
    XqpnhQIDAQAB\
";

const REFRESH_PRIVATE_KEY: &str = "\
    MIIEvQIBADANBgkqhkiG9w0BAQEFAASCBKcwggSjAgEAAoIBAQDDjYIYE44hnYgJTKdWudbm8MRA\
    dgamiaQs+DRmsZFCNfqIZfoNGJXnYJq5ys68qB6RJljm0zZ9WOOYTkWUkjaHbL/GDwql7ZXI/BZb\
    s7eXhkP7asjYVt5AngMtkRWHATCk14iVWm0ljh3K6OelwmE+qx18yMlqFN4DtjMuCNaTcTj/td3Y\
    8hKimoZbRdEoqcL0X0lHyYJJ3liqUCmp9hX2+GNrySpuCHI0VTTFAeaTyjUukbO3lAdn7YNnhDOi\
    3fxX1XbLgiED9kt2IzZAYiP7aMhFAMopJaOY1trDXr6sbXorqVRW46lpQz9rzCsHI+jnBvVwxWBG\
    7KkiyVQhfyX5AgMBAAECggEAJ7jHl3znZtAhOSRbLGxo6PW4o5Bl5u+4C9NqD38brruYtZqjSYQ4\
    NOzkWP+HcX5j4R+NOOvn2lvTNVWW4Cg4D9eo98IH628AeTgtkXiGvy5sgjYtcHZqxGzkX93j5c25\
    1A4c5hudZp7A0f3vyfWbO7fV8Eo30YbGFzJsIHp2nbGr1Ax6vABv11NYMwDmRdkVnLWIYQUD50+a\
    5jZR3Bdwa7sFI318kZUm/WymhhrjIGQZ+/+PqBPdFrC5SfYZMGqdrspzZYL83FkNlbxwgLDnqWhj\
    AnJeIg5pd5uOtGDSugXT1bpBazkWLS8m7122x3b79NBPqtb/DKYvWP+aW+1BpQKBgQDkR1Ppdz0k\
    pfBX3x7W6tHQoOnA3PAHwweCaPcRujcIpb5NPnGyDBB27pf7B9FsYolqmEkp+r9sBA0QcE9HOXYx\
    /d7yQ5C5bBSJ056lVQjwnWYAal0RFCwO9NdxLggX/dCMs7D1HuHYmay4Q9MaXBst/0H5DbiD7XWL\
    TBTzOnQa9QKBgQDbTM5+xg6uVEtO0asA3Jfi1IzQfLT9isHaPolCbYRcTsfthhoeiqzaC6zQOfop\
    UEWsaGYSrfNZMXfEzUlfQ9tkYkv5WgceRVn2T5w6tPd0j9mv1+HhAXb9xKBdbRkrYm0HA+JUwgJb\
    JjR+bNk7Lt9qQv+JvLQ9UiETMO4IthcEdQKBgDZr6s1V5/W8ube5MZj7EloygofAJFk1XazxaTWI\
    t2YQXXX81Q4lYid4ajMmgf7c3vXSqF6hsNEHhjXNEJliUZNJesU25mHOKndRRBkWVLNIUvD2aomP\
    zZEjPdl1p+hQUk+45w8I9b61pD+pq8I1AyXMHOZLJxoMmmFDGhuCa/uhAoGBALSPoNWwrRXMQdU7\
    vNiQyF3zM53VkA/R15qiMtGG6pw2IVboO0k6VOeTBU7M7bRma3dw3dozb1HY8QwRGoBdlp4ocPV1\
    srax00iCc9fCeJx4dHvb/BcO5bI72u4Rjc+y0qIcCJZQxy/VXRNa++FGzpznXQ9DWAPFQ4ZRmyuB\
    AaKhAoGAVGDbnhjDeAIYezcwaU0FrEs3VAQgzOrfkpEv/35lnwoAcwJt+wPho5AvCKCBDERZMBrX\
    lEkypgqgBX/lXKY2drqTrQ128jvjl93bhDyneGKgaE3cc366+g8ZRQjBulEpoa8ZxipKK1E0AYyA\
    jrnL1tymY1VHr17ELlRXPANw1uA=\
";

const REFRESH_PUBLIC_KEY: &str = "\
    MIIBIjANBgkqhkiG9w0BAQEFAAOCAQ8AMIIBCgKCAQEAw42CGBOOIZ2ICUynVrnW5vDEQHYGpomk\
    LPg0ZrGRQjX6iGX6DRiV52CaucrOvKgekSZY5tM2fVjjmE5FlJI2h2y/xg8Kpe2VyPwWW7O3l4ZD\
    +2rI2FbeQJ4DLZEVhwEwpNeIlVptJY4dyujnpcJhPqsdfMjJahTeA7YzLgjWk3E4/7Xd2PISopqG\
    W0XRKKnC9F9JR8mCSd5YqlApqfYV9vhja8kqbghyNFU0xQHmk8o1LpGzt5QHZ+2DZ4Qzot38V9V2\
    y4IhA/ZLdiM2QGIj+2jIRQDKKSWjmNbaw16+rG16K6lUVuOpaUM/a8wrByPo5wb1cMVgRuypIslU\
    IX8l+QIDAQAB\
";

const T: i64 = 1_700_000_000;

fn pem(label: &str, body: &str) -> Vec<u8> {
    let mut text = format!("-----BEGIN {}-----\n", label);
    let mut rest = body;
    while !rest.is_empty() {
        let cut = rest.len().min(64);
        text.push_str(&rest[..cut]);
        text.push('\n');
        rest = &rest[cut..];
    }
    text.push_str(&format!("-----END {}-----\n", label));
    text.into_bytes()
}

fn keys() -> KeyMaterial {
    KeyMaterial {
        access_private_pem: pem("PRIVATE KEY", ACCESS_PRIVATE_KEY),
        access_public_pem: pem("PUBLIC KEY", ACCESS_PUBLIC_KEY),
        refresh_private_pem: pem("PRIVATE KEY", REFRESH_PRIVATE_KEY),
        refresh_public_pem: pem("PUBLIC KEY", REFRESH_PUBLIC_KEY),
    }
}

fn codec() -> TokenCodec {
    TokenCodec::new(keys())
}

fn access_claims(exp: usize) -> AccessTokenClaims {
    AccessTokenClaims::issued_at("u1".to_string(), Role::Student, "s1".to_string(), exp, T).unwrap()
}

fn refresh_claims(exp: usize) -> RefreshTokenClaims {
    RefreshTokenClaims::issued_at("u1".to_string(), "s1".to_string(), exp, T).unwrap()
}

fn signed_by_hand(object: serde_json::Value, private_key: &str) -> String {
    let key = jsonwebtoken::EncodingKey::from_rsa_pem(&pem("PRIVATE KEY", private_key)).unwrap();
    let header = jsonwebtoken::Header::new(jsonwebtoken::Algorithm::RS256);
    jsonwebtoken::encode(&header, &object, &key).unwrap()
}

fn object(members: Vec<(&str, serde_json::Value)>) -> serde_json::Value {
    let mut map = serde_json::Map::new();
    for (name, value) in members {
        map.insert(name.to_string(), value);
    }
    serde_json::Value::Object(map)
}

fn session_row(store: &SessionStore, session_id: &str) -> Option<(String, String)> {
    match store.fetch(session_id) {
        Ok(row) => Some((row.user_session_user_id, row.user_session_refresh_token)),
        Err(_) => None,
    }
}

// ---- the token codec -------------------------------------------------------------------

#[test]
fn access_token_round_trip() {
    let codec = codec();
    let claims = access_claims(T as usize + 900);
    let token = codec.sign_access(&claims).unwrap();
    assert_eq!(token.split('.').count(), 3);
    let read = codec.verify_access(&token, T).unwrap();
    assert_eq!(read, claims);
    assert_eq!(read.aud, "ger.com");
    assert_eq!(read.exp, 1_700_000_900);
    assert_eq!(read.iat, 1_700_000_000);
    assert_eq!(read.uid, "u1");
    assert_eq!(read.sid, "s1");
    assert_eq!(read.rle, Role::Student);
}

#[test]
fn refresh_token_round_trip() {
    let codec = codec();
    let claims = refresh_claims(T as usize + 604_800);
    let token = codec.sign_refresh(&claims).unwrap();
    let read = codec.verify_refresh(&token, T + 604_800).unwrap();
    assert_eq!(read, claims);
    assert_eq!(read.exp, 1_700_604_800);
}

#[test]
fn round_trip_for_every_role() {
    let codec = codec();
    for role in [Role::Admin, Role::Student, Role::Professor] {
        let claims =
            AccessTokenClaims::issued_at("u".to_string(), role, "s".to_string(), 2_000_000_000, T)
                .unwrap();
        let token = codec.sign_access(&claims).unwrap();
        assert_eq!(codec.decode_access(&token).unwrap().rle, role);
    }
}

#[test]
fn round_trip_keeps_unusual_text() {
    let codec = codec();
    let claims = RefreshTokenClaims::issued_at(
        "user \"quoted\" \\ \u{e9}\u{4e2d}\n".to_string(),
        "".to_string(),
        0,
        0,
    )
    .unwrap();
    let token = codec.sign_refresh(&claims).unwrap();
    assert_eq!(codec.decode_refresh(&token).unwrap(), claims);
}

#[test]
fn payload_of_a_token_has_exactly_the_claims() {
    let codec = codec();
    let access = codec.sign_access(&access_claims(1_700_000_900)).unwrap();
    let refresh = codec.sign_refresh(&refresh_claims(1_700_604_800)).unwrap();
    let key = |body: &str| jsonwebtoken::DecodingKey::from_rsa_pem(&pem("PUBLIC KEY", body)).unwrap();
    let mut validation = jsonwebtoken::Validation::new(jsonwebtoken::Algorithm::RS256);
    validation.set_audience(&["ger.com"]);
    validation.validate_exp = false;
    let read = jsonwebtoken::decode::<serde_json::Value>(&access, &key(ACCESS_PUBLIC_KEY), &validation)
        .unwrap();
    assert_eq!(read.header.alg, jsonwebtoken::Algorithm::RS256);
    assert_eq!(
        read.claims,
        object(vec![
            ("aud", "ger.com".into()),
            ("exp", 1_700_000_900u64.into()),
            ("iat", 1_700_000_000u64.into()),
            ("uid", "u1".into()),
            ("sid", "s1".into()),
            ("rle", "student".into()),
        ])
    );
    let read =
        jsonwebtoken::decode::<serde_json::Value>(&refresh, &key(REFRESH_PUBLIC_KEY), &validation)
            .unwrap();
    assert_eq!(
        read.claims,
        object(vec![
            ("aud", "ger.com".into()),
            ("exp", 1_700_604_800u64.into()),
            ("iat", 1_700_000_000u64.into()),
            ("uid", "u1".into()),
            ("sid", "s1".into()),
        ])
    );
}

#[test]
fn token_one_second_past_expiry_is_rejected() {
    let codec = codec();
    let now = T + 5_000;
    let token = codec.sign_access(&access_claims(now as usize - 1)).unwrap();
    assert_eq!(codec.verify_access(&token, now), Err(VerificationError::Expired));
    let token = codec.sign_refresh(&refresh_claims(now as usize - 1)).unwrap();
    assert_eq!(codec.verify_refresh(&token, now), Err(VerificationError::Expired));
}

#[test]
fn token_one_second_before_expiry_is_accepted() {
    let codec = codec();
    let now = T + 5_000;
    let claims = access_claims(now as usize + 1);
    let token = codec.sign_access(&claims).unwrap();
    assert_eq!(codec.verify_access(&token, now), Ok(claims));
    let claims = refresh_claims(now as usize + 1);
    let token = codec.sign_refresh(&claims).unwrap();
    assert_eq!(codec.verify_refresh(&token, now), Ok(claims));
}

#[test]
fn token_at_its_expiry_is_accepted() {
    let codec = codec();
    let claims = access_claims(T as usize + 900);
    let token = codec.sign_access(&claims).unwrap();
    assert_eq!(codec.verify_access(&token, T + 900), Ok(claims));
    assert_eq!(codec.verify_access(&token, T + 901), Err(VerificationError::Expired));
}

#[test]
fn long_expired_token_still_decodes() {
    let codec = codec();
    let claims = access_claims(10);
    let token = codec.sign_access(&claims).unwrap();
    assert_eq!(codec.decode_access(&token), Ok(claims));
    assert_eq!(codec.verify_access(&token, T), Err(VerificationError::Expired));
}

#[test]
fn verification_before_1970_accepts() {
    let codec = codec();
    let claims = access_claims(0);
    let token = codec.sign_access(&claims).unwrap();
    assert_eq!(codec.verify_access(&token, -5), Ok(claims));
}

#[test]
fn tampered_token_is_undecodable() {
    let codec = codec();
    let token = codec.sign_access(&access_claims(1_700_000_900)).unwrap();
    let mut parts: Vec<String> = token.split('.').map(|p| p.to_string()).collect();
    let forged = signed_by_hand(
        object(vec![
            ("aud", "ger.com".into()),
            ("exp", 1_700_000_900u64.into()),
            ("iat", 1_700_000_000u64.into()),
            ("uid", "u1".into()),
            ("sid", "s1".into()),
            ("rle", "admin".into()),
        ]),
        REFRESH_PRIVATE_KEY,
    );
    parts[1] = forged.split('.').nth(1).unwrap().to_string();
    let tampered = parts.join(".");
    assert_eq!(codec.decode_access(&tampered), Err(VerificationError::Undecodable));
    assert_eq!(codec.verify_access(&tampered, T), Err(VerificationError::Undecodable));
}

#[test]
fn token_of_the_other_key_is_undecodable() {
    let codec = codec();
    let access = codec.sign_access(&access_claims(1_700_000_900)).unwrap();
    let refresh = codec.sign_refresh(&refresh_claims(1_700_604_800)).unwrap();
    assert_eq!(codec.decode_refresh(&access), Err(VerificationError::Undecodable));
    assert_eq!(codec.decode_access(&refresh), Err(VerificationError::Undecodable));
}

#[test]
fn text_that_is_no_token_is_undecodable() {
    let codec = codec();
    for text in ["", "a", "a.b", "a.b.c", "a.b.c.d", "not a token at all"] {
        assert_eq!(codec.decode_access(text), Err(VerificationError::Undecodable));
        assert_eq!(codec.verify_refresh(text, T), Err(VerificationError::Undecodable));
    }
}

#[test]
fn token_for_another_audience_is_rejected() {
    let codec = codec();
    let token = signed_by_hand(
        object(vec![
            ("aud", "elsewhere.com".into()),
            ("exp", 1_700_000_900u64.into()),
            ("iat", 1_700_000_000u64.into()),
            ("uid", "u1".into()),
            ("sid", "s1".into()),
        ]),
        REFRESH_PRIVATE_KEY,
    );
    assert_eq!(codec.decode_refresh(&token), Err(VerificationError::AudienceMismatch));
    assert_eq!(codec.verify_refresh(&token, T), Err(VerificationError::AudienceMismatch));
    let token = signed_by_hand(
        object(vec![
            ("aud", vec!["ger.com", "elsewhere.com"].into()),
            ("exp", 1_700_000_900u64.into()),
            ("iat", 1_700_000_000u64.into()),
            ("uid", "u1".into()),
            ("sid", "s1".into()),
        ]),
        REFRESH_PRIVATE_KEY,
    );
    assert_eq!(codec.decode_refresh(&token), Err(VerificationError::MalformedClaims));
    let mut store = SessionStore::new();
    let pair = sign_in_with(&codec, &mut store, "u1", Role::Student, "s1", T).unwrap();
    let foreign = signed_by_hand(
        object(vec![
            ("aud", "elsewhere.com".into()),
            ("exp", 1_700_000_900u64.into()),
            ("iat", 1_700_000_000u64.into()),
            ("uid", "u1".into()),
            ("sid", "s1".into()),
            ("rle", "admin".into()),
        ]),
        ACCESS_PRIVATE_KEY,
    );
    let r = authenticate(&codec, &mut store, Some(&foreign), Some(&pair.refresh_token), T);
    assert!(matches!(r, Err(HttpError::InvalidAuthenticationCredentials)));
}

#[test]
fn signed_payload_without_a_claim_is_malformed() {
    let codec = codec();
    let without_role = signed_by_hand(
        object(vec![
            ("aud", "ger.com".into()),
            ("exp", 1_700_000_900u64.into()),
            ("iat", 1_700_000_000u64.into()),
            ("uid", "u1".into()),
            ("sid", "s1".into()),
        ]),
        ACCESS_PRIVATE_KEY,
    );
    assert_eq!(codec.decode_access(&without_role), Err(VerificationError::MalformedClaims));
    let unknown_role = signed_by_hand(
        object(vec![
            ("aud", "ger.com".into()),
            ("exp", 1_700_000_900u64.into()),
            ("iat", 1_700_000_000u64.into()),
            ("uid", "u1".into()),
            ("sid", "s1".into()),
            ("rle", "Student".into()),
        ]),
        ACCESS_PRIVATE_KEY,
    );
    assert_eq!(codec.decode_access(&unknown_role), Err(VerificationError::MalformedClaims));
    let without_audience = signed_by_hand(
        object(vec![
            ("exp", 1_700_000_900u64.into()),
            ("iat", 1_700_000_000u64.into()),
            ("uid", "u1".into()),
            ("sid", "s1".into()),
        ]),
        REFRESH_PRIVATE_KEY,
    );
    assert_eq!(codec.decode_refresh(&without_audience), Err(VerificationError::MalformedClaims));
    let number_as_text = signed_by_hand(
        object(vec![
            ("aud", "ger.com".into()),
            ("exp", 1_700_000_900u64.into()),
            ("iat", "1700000000".into()),
            ("uid", "u1".into()),
            ("sid", "s1".into()),
        ]),
        REFRESH_PRIVATE_KEY,
    );
    assert_eq!(codec.decode_refresh(&number_as_text), Err(VerificationError::MalformedClaims));
}

#[test]
fn signed_payload_without_an_expiry_is_undecodable() {
    let codec = codec();
    let token = signed_by_hand(
        object(vec![
            ("aud", "ger.com".into()),
            ("iat", 1_700_000_000u64.into()),
            ("uid", "u1".into()),
            ("sid", "s1".into()),
        ]),
        REFRESH_PRIVATE_KEY,
    );
    assert_eq!(codec.decode_refresh(&token), Err(VerificationError::Undecodable));
    let token = signed_by_hand(
        object(vec![
            ("aud", "ger.com".into()),
            ("exp", serde_json::Value::from(1_700_000_900.5f64)),
            ("iat", 1_700_000_000u64.into()),
            ("uid", "u1".into()),
            ("sid", "s1".into()),
        ]),
        REFRESH_PRIVATE_KEY,
    );
    assert_eq!(codec.decode_refresh(&token), Err(VerificationError::MalformedClaims));
}

#[test]
fn extra_members_of_a_payload_are_passed_over() {
    let codec = codec();
    let token = signed_by_hand(
        object(vec![
            ("aud", "ger.com".into()),
            ("exp", 1_700_000_900u64.into()),
            ("iat", 1_700_000_000u64.into()),
            ("uid", "u1".into()),
            ("sid", "s1".into()),
            ("rle", "professor".into()),
            ("nickname", "prof".into()),
        ]),
        REFRESH_PRIVATE_KEY,
    );
    assert_eq!(codec.decode_refresh(&token), Ok(refresh_claims(1_700_000_900)));
}

#[test]
fn payload_for_another_audience_holds_no_claims() {
    let payload = |aud: &str| Payload {
        aud: Some(aud.to_string()),
        exp: Some(2),
        iat: Some(1),
        uid: Some("u".to_string()),
        sid: Some("s".to_string()),
        rle: Some("admin".to_string()),
    };
    assert_eq!(
        RefreshTokenClaims::from_payload(payload("elsewhere.com")),
        Err(PayloadError::AudienceMismatch)
    );
    assert_eq!(
        AccessTokenClaims::from_payload(payload("elsewhere.com")),
        Err(PayloadError::AudienceMismatch)
    );
    let read = AccessTokenClaims::from_payload(payload("ger.com")).unwrap();
    assert_eq!(read.rle, Role::Admin);
    assert_eq!((read.exp, read.iat), (2, 1));
    let mut partial = payload("ger.com");
    partial.sid = None;
    assert_eq!(RefreshTokenClaims::from_payload(partial), Err(PayloadError::Malformed));
}

#[test]
fn claims_are_written_as_their_payload() {
    let payload = access_claims(7).to_payload();
    assert_eq!(payload.aud.as_deref(), Some("ger.com"));
    assert_eq!(payload.exp, Some(7));
    assert_eq!(payload.iat, Some(1_700_000_000));
    assert_eq!(payload.uid.as_deref(), Some("u1"));
    assert_eq!(payload.sid.as_deref(), Some("s1"));
    assert_eq!(payload.rle.as_deref(), Some("student"));
    assert_eq!(
        payload.texts(),
        vec![
            ("aud".to_string(), "ger.com".to_string()),
            ("uid".to_string(), "u1".to_string()),
            ("sid".to_string(), "s1".to_string()),
            ("rle".to_string(), "student".to_string()),
        ]
    );
    assert_eq!(payload.numbers(), vec![("exp".to_string(), 7), ("iat".to_string(), 1_700_000_000)]);
    let payload = refresh_claims(7).to_payload();
    assert_eq!(payload.rle, None);
    assert_eq!(payload.texts().len(), 3);
}

#[test]
fn signing_is_deterministic() {
    let codec = codec();
    let claims = refresh_claims(1_700_604_800);
    assert_eq!(codec.sign_refresh(&claims).unwrap(), codec.sign_refresh(&claims).unwrap());
    let other = refresh_claims(1_700_604_801);
    assert_ne!(codec.sign_refresh(&claims).unwrap(), codec.sign_refresh(&other).unwrap());
}

#[test]
fn claims_for_another_audience_are_not_signed() {
    let codec = codec();
    let mut claims = access_claims(1_700_000_900);
    claims.aud = "elsewhere.com".to_string();
    assert!(matches!(codec.sign_access(&claims), Err(HttpError::InternalServerError { .. })));
}

#[test]
fn signing_with_a_broken_key_fails() {
    let mut material = keys();
    material.access_private_pem = b"no key".to_vec();
    let codec = TokenCodec::new(material);
    match codec.sign_access(&access_claims(1_700_000_900)) {
        Err(HttpError::InternalServerError { cause }) => assert!(!cause.is_empty()),
        other => panic!("{:?}", other),
    }
}

#[test]
fn signing_with_keys_that_are_no_pair_fails() {
    let mut material = keys();
    material.access_public_pem = pem("PUBLIC KEY", REFRESH_PUBLIC_KEY);
    let codec = TokenCodec::new(material);
    assert!(matches!(
        codec.sign_access(&access_claims(1_700_000_900)),
        Err(HttpError::InternalServerError { .. })
    ));
}

#[test]
fn sealing_checks_the_token_against_the_claims() {
    let codec = codec();
    let claims = access_claims(1_700_000_900);
    let token = codec.sign_access(&claims).unwrap();
    assert_eq!(codec.seal_access(&claims, token.clone()).unwrap(), token);
    let other = access_claims(1_700_000_901);
    assert!(matches!(
        codec.seal_access(&other, token),
        Err(HttpError::InternalServerError { .. })
    ));
    assert!(matches!(
        codec.seal_access(&claims, String::new()),
        Err(HttpError::InternalServerError { .. })
    ));
    let claims = refresh_claims(1_700_604_800);
    let token = codec.sign_refresh(&claims).unwrap();
    assert_eq!(codec.seal_refresh(&claims, token.clone()).unwrap(), token);
    assert!(matches!(
        codec.seal_refresh(&claims, "a.b.c".to_string()),
        Err(HttpError::InternalServerError { .. })
    ));
}

#[test]
fn keys_are_probed() {
    assert!(codec().probe().is_ok());
    let mut material = keys();
    material.refresh_public_pem = pem("PUBLIC KEY", ACCESS_PUBLIC_KEY);
    assert!(matches!(
        TokenCodec::new(material).probe(),
        Err(HttpError::InternalServerError { .. })
    ));
    let mut material = keys();
    material.refresh_private_pem = Vec::new();
    assert!(matches!(
        TokenCodec::new(material).probe(),
        Err(HttpError::InternalServerError { .. })
    ));
}

// ---- sign-in ---------------------------------------------------------------------------

#[test]
fn sign_in_gives_tokens_that_verify_at_once() {
    let codec = codec();
    let mut store = SessionStore::new();
    let pair = sign_in_with(&codec, &mut store, "u1", Role::Student, "s1", T).unwrap();
    let access = codec.decode_access(&pair.access_token).unwrap();
    assert_eq!(access, access_claims(T as usize + 900));
    let refresh = codec.decode_refresh(&pair.refresh_token).unwrap();
    assert_eq!(refresh, refresh_claims(T as usize + 604_800));
    assert_eq!(
        session_row(&store, "s1"),
        Some(("u1".to_string(), pair.refresh_token.clone()))
    );
    assert_eq!(store.len(), 1);
    let claims =
        authenticate(&codec, &mut store, Some(&pair.access_token), Some(&pair.refresh_token), T)
            .unwrap();
    assert_eq!(claims.access_token, access);
    assert_eq!(claims.refresh_token, refresh);
    assert_eq!(store.len(), 1);
}

#[test]
fn sign_in_under_a_taken_session_id_gives_no_tokens() {
    let codec = codec();
    let mut store = SessionStore::new();
    let first = sign_in_with(&codec, &mut store, "u1", Role::Student, "s1", T).unwrap();
    let second = sign_in_with(&codec, &mut store, "u2", Role::Admin, "s1", T + 1);
    assert!(matches!(second, Err(HttpError::InternalServerError { .. })));
    assert_eq!(session_row(&store, "s1"), Some(("u1".to_string(), first.refresh_token)));
    assert_eq!(store.len(), 1);
}

#[test]
fn sign_in_at_a_moment_before_1970_fails() {
    let codec = codec();
    let mut store = SessionStore::new();
    let r = sign_in_with(&codec, &mut store, "u1", Role::Student, "s1", -1);
    assert!(matches!(r, Err(HttpError::InternalServerError { .. })));
    assert_eq!(store.len(), 0);
    assert!(matches!(
        mint_tokens(&codec, "u1", Role::Student, "s1", -1_000),
        Err(HttpError::InternalServerError { .. })
    ));
}

#[test]
fn sign_in_with_the_clock_stores_a_fresh_session() {
    let codec = codec();
    let mut store = SessionStore::new();
    let pair = sign_in(&codec, &mut store, "u9", Role::Professor).unwrap();
    let access = codec.decode_access(&pair.access_token).unwrap();
    let refresh = codec.decode_refresh(&pair.refresh_token).unwrap();
    assert_eq!(access.sid.chars().count(), 32);
    assert_eq!(access.sid, refresh.sid);
    assert_eq!(access.uid, "u9");
    assert_eq!(refresh.uid, "u9");
    assert_eq!(access.rle, Role::Professor);
    assert_eq!(access.iat, refresh.iat);
    assert_eq!(access.exp, access.iat + 900);
    assert_eq!(refresh.exp, refresh.iat + 604_800);
    assert_eq!(session_row(&store, &access.sid), Some(("u9".to_string(), pair.refresh_token)));
    let verdict = validate_tokens_in_header(&codec, Some(&pair.access_token), None);
    assert!(matches!(verdict.outcome, Err(HttpError::InvalidAuthenticationCredentials)));
}

#[test]
fn sign_in_in_two_halves() {
    let codec = codec();
    let plan = begin_sign_in(&codec, "u1", Role::Admin, "s7", T).unwrap();
    assert_eq!(plan.session.user_session_id, "s7");
    assert_eq!(plan.session.user_session_user_id, "u1");
    assert_eq!(plan.session.user_session_refresh_token, plan.tokens.refresh_token);
    let access = plan.tokens.access_token.clone();
    let tokens = finish_sign_in(plan.tokens, Ok(())).unwrap();
    assert_eq!(tokens.access_token, access);
    for failure in [
        StoreError::Conflict,
        StoreError::NotFound,
        StoreError::Unavailable { cause: "connection reset".to_string() },
    ] {
        let pair = TokenPair { access_token: "a".to_string(), refresh_token: "r".to_string() };
        match finish_sign_in(pair, Err(failure)) {
            Err(HttpError::InternalServerError { cause }) => assert!(!cause.is_empty()),
            other => panic!("{:?}", other),
        }
    }
    match finish_sign_in(
        TokenPair { access_token: "a".to_string(), refresh_token: "r".to_string() },
        Err(StoreError::Unavailable { cause: "connection reset".to_string() }),
    ) {
        Err(HttpError::InternalServerError { cause }) => assert_eq!(cause, "connection reset"),
        other => panic!("{:?}", other),
    }
}

#[test]
fn identifiers_are_drawn_up_to_64_characters() {
    for length in [0, 1, 10, 32, 48, 64] {
        let id = new_id(length).unwrap();
        assert_eq!(id.len(), length);
        assert!(id.chars().all(|c| c.is_ascii_alphanumeric() || c == '_' || c == '-'));
    }
    assert_eq!(new_id(65), None);
    assert_eq!(new_id(usize::MAX), None);
    assert_ne!(new_id(10), new_id(10));
}

#[test]
fn sign_in_succeeds_where_the_session_id_is_free() {
    let codec = codec();
    let mut store = SessionStore::new();
    for (n, session) in ["a", "b", "c", "d"].into_iter().enumerate() {
        let pair = sign_in_with(&codec, &mut store, "u1", Role::Student, session, T + n as i64);
        assert!(pair.is_ok());
        assert_eq!(store.len(), n + 1);
    }
    assert!(sign_in_with(&codec, &mut store, "u1", Role::Student, "b", T).is_err());
    assert_eq!(store.len(), 4);
    let minted = mint_tokens(&codec, "u1", Role::Student, "e", T).unwrap();
    let signed = sign_in_with(&codec, &mut store, "u1", Role::Student, "e", T).unwrap();
    assert_eq!(minted.access_token, signed.access_token);
    assert_eq!(minted.refresh_token, signed.refresh_token);
}

#[test]
fn session_ids_are_32_url_safe_characters() {
    let first = new_session_id();
    let second = new_session_id();
    assert_eq!(first.len(), 32);
    assert!(first.chars().all(|c| c.is_ascii_alphanumeric() || c == '_' || c == '-'));
    assert_ne!(first, second);
}

#[test]
fn signin() {
    let codec = codec();
    let mut store = SessionStore::new();
    let pepper = "pepper";

    let username = "simple_user_signin";
    let password = "aryastark";
    let user = UserQuery {
        user_id: "0123456789abcdefghijklmnopqrstuv".to_string(),
        user_password: hash_password(password, pepper).unwrap(),
        user_role: Role::Admin,
    };
    let body = |username: &str, password: &str| SigninRequestBody {
        username: username.to_string(),
        password: password.to_string(),
    };

    // empty username
    let rejection = body("", password).validate().unwrap_err();
    assert_eq!(rejection.match_status_code(), 400);

    // empty password
    let rejection = body(username, "").validate().unwrap_err();
    assert_eq!(rejection.match_status_code(), 400);

    // user not found
    assert!(body("who_is_this_eh", "who_is_this_eh").validate().is_ok());
    let rejection = user_found(None).unwrap_err();
    assert!(matches!(rejection, HttpError::UserNotFound));
    assert_eq!(rejection.match_status_code(), 404);
    let user = user_found(Some(user)).unwrap();

    // wrong password
    let attempt = body(username, "who_dis_uh?");
    assert!(attempt.validate().is_ok());
    let rejection = verify_password(&attempt.password, &user.user_password, pepper).unwrap_err();
    assert!(matches!(rejection, HttpError::IncorrectPassword));
    assert_eq!(rejection.match_status_code(), 400);

    // successful
    let attempt = body(username, password);
    assert!(attempt.validate().is_ok());
    assert!(verify_password(&attempt.password, &user.user_password, pepper).is_ok());
    let tokens = sign_in(&codec, &mut store, &user.user_id, user.user_role).unwrap();
    assert_ne!(tokens.access_token, "", "checking that the headers gets created");
    assert_ne!(tokens.refresh_token, "", "checking that the headers gets created");
    let session_id = codec.decode_refresh(&tokens.refresh_token).unwrap().sid;
    let row = store.fetch(&session_id).unwrap();
    assert_eq!(row.user_session_user_id, user.user_id);
    assert_eq!(tokens.refresh_token, row.user_session_refresh_token.as_str());
}

// ---- request verification --------------------------------------------------------------

#[test]
fn missing_or_empty_header_is_invalid_credentials() {
    let codec = codec();
    let mut store = SessionStore::new();
    let pair = sign_in_with(&codec, &mut store, "u1", Role::Student, "s1", T).unwrap();
    let access = Some(pair.access_token.as_str());
    let refresh = Some(pair.refresh_token.as_str());
    for (a, r) in [(None, refresh), (access, None), (None, None), (Some(""), refresh), (access, Some(""))]
    {
        let verdict = validate_tokens_at(&codec, a, r, T);
        assert!(matches!(verdict.outcome, Err(HttpError::InvalidAuthenticationCredentials)));
        assert!(verdict.revoke.is_empty());
        assert!(matches!(
            present_tokens(&codec, a, r),
            Err(HttpError::InvalidAuthenticationCredentials)
        ));
    }
    assert_eq!(store.len(), 1);
}

#[test]
fn undecodable_token_is_invalid_credentials() {
    let codec = codec();
    let mut store = SessionStore::new();
    let pair = sign_in_with(&codec, &mut store, "u1", Role::Student, "s1", T).unwrap();
    let r = authenticate(&codec, &mut store, Some("junk"), Some(&pair.refresh_token), T);
    assert!(matches!(r, Err(HttpError::InvalidAuthenticationCredentials)));
    let r = authenticate(&codec, &mut store, Some(&pair.access_token), Some(&pair.access_token), T);
    assert!(matches!(r, Err(HttpError::InvalidAuthenticationCredentials)));
    assert_eq!(store.len(), 1);
}

#[test]
fn tokens_of_two_sessions_are_unauthorized_and_both_sessions_go() {
    let codec = codec();
    let mut store = SessionStore::new();
    let first = sign_in_with(&codec, &mut store, "u1", Role::Student, "s1", T).unwrap();
    let second = sign_in_with(&codec, &mut store, "u1", Role::Student, "s2", T).unwrap();
    let _third = sign_in_with(&codec, &mut store, "u3", Role::Admin, "s3", T).unwrap();
    let verdict =
        validate_tokens_at(&codec, Some(&first.access_token), Some(&second.refresh_token), T);
    assert!(matches!(verdict.outcome, Err(HttpError::Unauthorized)));
    assert_eq!(verdict.revoke, vec!["s1".to_string(), "s2".to_string()]);
    assert_eq!(store.len(), 3);
    let r = authenticate(
        &codec,
        &mut store,
        Some(&first.access_token),
        Some(&second.refresh_token),
        T,
    );
    assert!(matches!(r, Err(HttpError::Unauthorized)));
    assert!(!store.contains("s1"));
    assert!(!store.contains("s2"));
    assert!(store.contains("s3"));
}

#[test]
fn expired_token_is_unauthorized() {
    let codec = codec();
    let mut store = SessionStore::new();
    let pair = sign_in_with(&codec, &mut store, "u1", Role::Student, "s1", T).unwrap();
    let access = Some(pair.access_token.as_str());
    let refresh = Some(pair.refresh_token.as_str());
    assert!(authenticate(&codec, &mut store, access, refresh, T + 900).is_ok());
    let r = authenticate(&codec, &mut store, access, refresh, T + 901);
    assert!(matches!(r, Err(HttpError::Unauthorized)));
    assert!(store.contains("s1"));
    let long_lived = codec.sign_access(&access_claims(T as usize + 1_000_000)).unwrap();
    assert!(authenticate(&codec, &mut store, Some(&long_lived), refresh, T + 604_800).is_ok());
    let r = authenticate(&codec, &mut store, Some(&long_lived), refresh, T + 604_801);
    assert!(matches!(r, Err(HttpError::Unauthorized)));
    assert!(store.contains("s1"));
}

#[test]
fn headers_of_a_request_are_validated() {
    let codec = codec();
    let mut store = SessionStore::new();
    let pair = sign_in_with(&codec, &mut store, "u1", Role::Student, "s1", T).unwrap();
    let headers = AuthenticationHeaders {
        x_access_token: pair.access_token,
        x_refresh_token: pair.refresh_token,
    };
    assert_eq!(headers.validate(&codec, T).outcome.unwrap().access_token.uid, "u1");
    assert!(matches!(headers.validate(&codec, T + 901).outcome, Err(HttpError::Unauthorized)));
}

// ---- the role gate ---------------------------------------------------------------------

#[test]
fn wrong_role_is_forbidden_not_unauthorized() {
    let codec = codec();
    let mut store = SessionStore::new();
    let pair = sign_in_with(&codec, &mut store, "u1", Role::Student, "s1", T).unwrap();
    let access = Some(pair.access_token.as_str());
    let refresh = Some(pair.refresh_token.as_str());
    let outcome = authenticate(&codec, &mut store, access, refresh, T);
    assert!(matches!(require_role(outcome, Role::Admin), Err(HttpError::Forbidden)));
    let outcome = authenticate(&codec, &mut store, access, refresh, T);
    assert!(matches!(require_role(outcome, Role::Professor), Err(HttpError::Forbidden)));
    let outcome = authenticate(&codec, &mut store, access, refresh, T);
    assert_eq!(require_role(outcome, Role::Student).unwrap().access_token.rle, Role::Student);
    let outcome = authenticate(&codec, &mut store, access, refresh, T);
    assert!(matches!(AuthenticatedAdminClaims::from_outcome(outcome), Err(HttpError::Forbidden)));
    let outcome = authenticate(&codec, &mut store, access, refresh, T);
    assert_eq!(AuthenticatedUserClaims::from_outcome(outcome).unwrap().0.access_token.uid, "u1");
    assert!(store.contains("s1"));
}

#[test]
fn role_gate_leaves_rejections_as_they_are() {
    let codec = codec();
    let mut store = SessionStore::new();
    let pair = sign_in_with(&codec, &mut store, "u1", Role::Admin, "s1", T).unwrap();
    let access = Some(pair.access_token.as_str());
    let refresh = Some(pair.refresh_token.as_str());
    let gate = RoleGate { required: Role::Admin };
    let outcome = authenticate(&codec, &mut store, access, refresh, T + 901);
    assert!(matches!(gate.decide(outcome), Err(HttpError::Unauthorized)));
    let outcome = authenticate(&codec, &mut store, access, None, T);
    assert!(matches!(gate.decide(outcome), Err(HttpError::InvalidAuthenticationCredentials)));
    let outcome = authenticate(&codec, &mut store, access, refresh, T);
    assert_eq!(
        AuthenticatedAdminClaims::from_outcome(outcome).unwrap().0.access_token.rle,
        Role::Admin
    );
    assert!(matches!(
        AuthenticatedUserClaims::from_outcome(Err(HttpError::Unauthorized)),
        Err(HttpError::Unauthorized)
    ));
}

// ---- rotation --------------------------------------------------------------------------

#[test]
fn refresh_rotates_the_tokens() {
    let codec = codec();
    let mut store = SessionStore::new();
    let old = sign_in_with(&codec, &mut store, "u1", Role::Professor, "s1", T).unwrap();
    let now = T + 1_000;
    let new =
        refresh(&codec, &mut store, Some(&old.access_token), Some(&old.refresh_token), now).unwrap();
    let access = codec.decode_access(&new.access_token).unwrap();
    let refresh_read = codec.decode_refresh(&new.refresh_token).unwrap();
    assert_eq!(
        access,
        AccessTokenClaims::issued_at(
            "u1".to_string(),
            Role::Professor,
            "s1".to_string(),
            now as usize + 900,
            now
        )
        .unwrap()
    );
    assert_eq!(
        refresh_read,
        RefreshTokenClaims::issued_at("u1".to_string(), "s1".to_string(), now as usize + 604_800, now)
            .unwrap()
    );
    assert_ne!(new.refresh_token, old.refresh_token);
    assert_eq!(session_row(&store, "s1"), Some(("u1".to_string(), new.refresh_token.clone())));
    assert_eq!(store.len(), 1);
    assert!(authenticate(&codec, &mut store, Some(&new.access_token), Some(&new.refresh_token), now)
        .is_ok());
}

#[test]
fn refresh_with_an_expired_access_token_works() {
    let codec = codec();
    let mut store = SessionStore::new();
    let old = sign_in_with(&codec, &mut store, "u1", Role::Student, "s1", T).unwrap();
    let now = T + 604_800;
    assert!(refresh(&codec, &mut store, Some(&old.access_token), Some(&old.refresh_token), now)
        .is_ok());
}

#[test]
fn refresh_with_an_expired_refresh_token_is_unauthorized() {
    let codec = codec();
    let mut store = SessionStore::new();
    let old = sign_in_with(&codec, &mut store, "u1", Role::Student, "s1", T).unwrap();
    let now = T + 604_801;
    let r = refresh(&codec, &mut store, Some(&old.access_token), Some(&old.refresh_token), now);
    assert!(matches!(r, Err(HttpError::Unauthorized)));
    assert_eq!(session_row(&store, "s1"), Some(("u1".to_string(), old.refresh_token)));
}

#[test]
fn refresh_without_credentials_is_invalid_credentials() {
    let codec = codec();
    let mut store = SessionStore::new();
    let old = sign_in_with(&codec, &mut store, "u1", Role::Student, "s1", T).unwrap();
    let access = Some(old.access_token.as_str());
    let refresh_header = Some(old.refresh_token.as_str());
    for (a, r) in [
        (Some(""), refresh_header),
        (access, Some("")),
        (None, refresh_header),
        (access, None),
        (Some("junk"), refresh_header),
        (access, Some("junk")),
    ] {
        let response = refresh(&codec, &mut store, a, r, T + 1);
        assert!(matches!(response, Err(HttpError::InvalidAuthenticationCredentials)));
    }
    assert_eq!(session_row(&store, "s1"), Some(("u1".to_string(), old.refresh_token.clone())));
}

#[test]
fn refresh_across_two_sessions_deletes_both() {
    let codec = codec();
    let mut store = SessionStore::new();
    let first = sign_in_with(&codec, &mut store, "u1", Role::Student, "s1", T).unwrap();
    let second = sign_in_with(&codec, &mut store, "u1", Role::Student, "s2", T).unwrap();
    let _third = sign_in_with(&codec, &mut store, "u3", Role::Student, "s3", T).unwrap();
    let r = refresh(
        &codec,
        &mut store,
        Some(&first.access_token),
        Some(&second.refresh_token),
        T + 1,
    );
    assert!(matches!(r, Err(HttpError::Unauthorized)));
    assert!(!store.contains("s1"));
    assert!(!store.contains("s2"));
    assert!(store.contains("s3"));
    assert_eq!(store.len(), 1);
}

#[test]
fn refresh_twice_with_the_same_token_succeeds_once() {
    let codec = codec();
    let mut store = SessionStore::new();
    let _other = sign_in_with(&codec, &mut store, "u2", Role::Student, "s2", T).unwrap();
    let old = sign_in_with(&codec, &mut store, "u1", Role::Student, "s1", T).unwrap();
    let access = Some(old.access_token.as_str());
    let stale = Some(old.refresh_token.as_str());
    let new = refresh(&codec, &mut store, access, stale, T + 10).unwrap();
    let again = refresh(&codec, &mut store, access, stale, T + 20);
    assert!(matches!(again, Err(HttpError::Unauthorized)));
    assert!(!store.contains("s1"));
    assert!(store.contains("s2"));
    let late = refresh(&codec, &mut store, Some(&new.access_token), Some(&new.refresh_token), T + 30);
    assert!(matches!(late, Err(HttpError::Unauthorized)));
    assert!(!store.contains("s1"));
}

#[test]
fn stale_token_that_has_expired_still_revokes_the_session() {
    let codec = codec();
    let mut store = SessionStore::new();
    let old = sign_in_with(&codec, &mut store, "u1", Role::Student, "s1", T).unwrap();
    let access = Some(old.access_token.as_str());
    let stale = Some(old.refresh_token.as_str());
    refresh(&codec, &mut store, access, stale, T + 10).unwrap();
    let again = refresh(&codec, &mut store, access, stale, T + 700_000);
    assert!(matches!(again, Err(HttpError::Unauthorized)));
    assert!(!store.contains("s1"));
}

#[test]
fn stale_token_with_the_new_access_token_revokes_the_session() {
    let codec = codec();
    let mut store = SessionStore::new();
    let old = sign_in_with(&codec, &mut store, "u1", Role::Student, "s1", T).unwrap();
    let new = refresh(
        &codec,
        &mut store,
        Some(&old.access_token),
        Some(&old.refresh_token),
        T + 10,
    )
    .unwrap();
    let again =
        refresh(&codec, &mut store, Some(&new.access_token), Some(&old.refresh_token), T + 20);
    assert!(matches!(again, Err(HttpError::Unauthorized)));
    assert!(!store.contains("s1"));
}

#[test]
fn refresh_in_the_second_of_the_sign_in_rotates_nothing() {
    let codec = codec();
    let mut store = SessionStore::new();
    let old = sign_in_with(&codec, &mut store, "u1", Role::Student, "s1", T).unwrap();
    let access = Some(old.access_token.as_str());
    let current = Some(old.refresh_token.as_str());
    let new = refresh(&codec, &mut store, access, current, T).unwrap();
    assert_eq!(new.refresh_token, old.refresh_token);
    assert_eq!(new.access_token, old.access_token);
    assert!(refresh(&codec, &mut store, access, current, T).is_ok());
    assert!(store.contains("s1"));
}

#[test]
fn refresh_of_a_session_that_is_gone_is_unauthorized() {
    let codec = codec();
    let mut store = SessionStore::new();
    let old = sign_in_with(&codec, &mut store, "u1", Role::Student, "s1", T).unwrap();
    store.delete(&vec!["s1".to_string()]).unwrap();
    let r = refresh(&codec, &mut store, Some(&old.access_token), Some(&old.refresh_token), T + 1);
    assert!(matches!(r, Err(HttpError::Unauthorized)));
    assert_eq!(store.len(), 0);
}

#[test]
fn refresh_against_a_stored_token_that_does_not_decode_is_an_internal_error() {
    let codec = codec();
    let mut store = SessionStore::new();
    let old = sign_in_with(&codec, &mut store, "u1", Role::Student, "s1", T).unwrap();
    store.replace_refresh_token("s1", "scribble".to_string()).unwrap();
    let r = refresh(&codec, &mut store, Some(&old.access_token), Some(&old.refresh_token), T + 1);
    assert!(matches!(r, Err(HttpError::InternalServerError { .. })));
    assert_eq!(session_row(&store, "s1"), Some(("u1".to_string(), "scribble".to_string())));
}

#[test]
fn refresh_keeps_the_role_of_the_access_token() {
    let codec = codec();
    let mut store = SessionStore::new();
    for (session, role) in [("a", Role::Admin), ("b", Role::Student), ("c", Role::Professor)] {
        let old = sign_in_with(&codec, &mut store, "u1", role, session, T).unwrap();
        let new = refresh(
            &codec,
            &mut store,
            Some(&old.access_token),
            Some(&old.refresh_token),
            T + 5,
        )
        .unwrap();
        assert_eq!(codec.decode_access(&new.access_token).unwrap().rle, role);
    }
}

fn presented(pair: &TokenPair) -> RefreshEvent {
    RefreshEvent::Presented {
        access: Some(pair.access_token.clone()),
        refresh: Some(pair.refresh_token.clone()),
    }
}

fn fetch_for(store: &SessionStore, action: RefreshAction) -> RefreshEvent {
    match action {
        RefreshAction::Fetch { session_id } => RefreshEvent::Fetched(store.fetch(&session_id)),
        other => panic!("{:?}", other),
    }
}

fn swap_for(store: &mut SessionStore, action: RefreshAction) -> RefreshEvent {
    match action {
        RefreshAction::Swap { session_id, expected, new_token } => {
            RefreshEvent::Swapped(store.swap_refresh_token(&session_id, &expected, new_token))
        }
        other => panic!("{:?}", other),
    }
}

#[test]
fn of_two_concurrent_refreshes_one_succeeds() {
    let codec = codec();
    let mut store = SessionStore::new();
    let old = sign_in_with(&codec, &mut store, "u1", Role::Student, "s1", T).unwrap();

    let (first, action) = refresh_step(&codec, RefreshState::Start, presented(&old), T + 10);
    let first_fetched = fetch_for(&store, action);
    let (second, action) = refresh_step(&codec, RefreshState::Start, presented(&old), T + 11);
    let second_fetched = fetch_for(&store, action);

    let (first, first_action) = refresh_step(&codec, first, first_fetched, T + 10);
    let (second, second_action) = refresh_step(&codec, second, second_fetched, T + 11);

    let second_swapped = swap_for(&mut store, second_action);
    let first_swapped = swap_for(&mut store, first_action);
    assert!(matches!(second_swapped, RefreshEvent::Swapped(Ok(()))));
    assert!(matches!(first_swapped, RefreshEvent::Swapped(Err(StoreError::Conflict))));

    let (state, answer) = refresh_step(&codec, second, second_swapped, T + 11);
    assert!(matches!(state, RefreshState::Finished));
    let winner = match answer {
        RefreshAction::Respond(Ok(pair)) => pair,
        other => panic!("{:?}", other),
    };
    let (state, answer) = refresh_step(&codec, first, first_swapped, T + 10);
    assert!(matches!(state, RefreshState::Finished));
    assert!(matches!(answer, RefreshAction::Respond(Err(HttpError::InternalServerError { .. }))));
    assert_eq!(session_row(&store, "s1"), Some(("u1".to_string(), winner.refresh_token.clone())));
    assert_eq!(codec.decode_refresh(&winner.refresh_token).unwrap().iat, T as usize + 11);
}

#[test]
fn refresh_step_by_step() {
    let codec = codec();
    let mut store = SessionStore::new();
    let old = sign_in_with(&codec, &mut store, "u1", Role::Student, "s1", T).unwrap();

    let (state, action) = refresh_step(&codec, RefreshState::Start, presented(&old), T + 10);
    assert!(matches!(state, RefreshState::AwaitingSession { .. }));
    match &action {
        RefreshAction::Fetch { session_id } => assert_eq!(session_id, "s1"),
        other => panic!("{:?}", other),
    }
    let fetched = fetch_for(&store, action);
    let (state, action) = refresh_step(&codec, state, fetched, T + 10);
    let minted = match &state {
        RefreshState::AwaitingSwap { tokens } => tokens.refresh_token.clone(),
        other => panic!("{:?}", other),
    };
    match &action {
        RefreshAction::Swap { session_id, expected, new_token } => {
            assert_eq!(session_id, "s1");
            assert_eq!(expected, &old.refresh_token);
            assert_eq!(new_token, &minted);
        }
        other => panic!("{:?}", other),
    }
    let swapped = swap_for(&mut store, action);
    let (state, action) = refresh_step(&codec, state, swapped, T + 10);
    assert!(matches!(state, RefreshState::Finished));
    match action {
        RefreshAction::Respond(Ok(pair)) => assert_eq!(pair.refresh_token, minted),
        other => panic!("{:?}", other),
    }
}

#[test]
fn refresh_step_answers_the_store_s_failures() {
    let codec = codec();
    let mut store = SessionStore::new();
    let old = sign_in_with(&codec, &mut store, "u1", Role::Student, "s1", T).unwrap();
    let awaiting = || refresh_step(&codec, RefreshState::Start, presented(&old), T + 10).0;

    let (state, action) =
        refresh_step(&codec, awaiting(), RefreshEvent::Fetched(Err(StoreError::NotFound)), T + 10);
    assert!(matches!(state, RefreshState::Finished));
    assert!(matches!(action, RefreshAction::Respond(Err(HttpError::Unauthorized))));

    let down = || StoreError::Unavailable { cause: "pool timed out".to_string() };
    let (_, action) = refresh_step(&codec, awaiting(), RefreshEvent::Fetched(Err(down())), T + 10);
    match action {
        RefreshAction::Respond(Err(HttpError::InternalServerError { cause })) => {
            assert_eq!(cause, "pool timed out")
        }
        other => panic!("{:?}", other),
    }
    let (_, action) =
        refresh_step(&codec, awaiting(), RefreshEvent::Fetched(Err(StoreError::Conflict)), T + 10);
    assert!(matches!(action, RefreshAction::Respond(Err(HttpError::InternalServerError { .. }))));

    let pair = || TokenPair { access_token: "a".to_string(), refresh_token: "r".to_string() };
    let swapping = || RefreshState::AwaitingSwap { tokens: pair() };
    let (_, action) =
        refresh_step(&codec, swapping(), RefreshEvent::Swapped(Err(StoreError::NotFound)), T);
    assert!(matches!(action, RefreshAction::Respond(Err(HttpError::Unauthorized))));
    let (_, action) = refresh_step(&codec, swapping(), RefreshEvent::Swapped(Err(down())), T);
    assert!(matches!(action, RefreshAction::Respond(Err(HttpError::InternalServerError { .. }))));
    let (_, action) =
        refresh_step(&codec, swapping(), RefreshEvent::Swapped(Err(StoreError::Conflict)), T);
    assert!(matches!(action, RefreshAction::Respond(Err(HttpError::InternalServerError { .. }))));

    for deleted in [Ok(()), Err(down())] {
        let (state, action) =
            refresh_step(&codec, RefreshState::Revoking, RefreshEvent::Deleted(deleted), T);
        assert!(matches!(state, RefreshState::Finished));
        assert!(matches!(action, RefreshAction::Respond(Err(HttpError::Unauthorized))));
    }

    let (state, action) =
        refresh_step(&codec, RefreshState::Start, RefreshEvent::Swapped(Ok(())), T);
    assert!(matches!(state, RefreshState::Finished));
    assert!(matches!(action, RefreshAction::Respond(Err(HttpError::InternalServerError { .. }))));
    let (_, action) = refresh_step(&codec, RefreshState::Finished, presented(&old), T);
    assert!(matches!(action, RefreshAction::Respond(Err(HttpError::InternalServerError { .. }))));
}

#[test]
fn refresh_step_asks_to_revoke() {
    let codec = codec();
    let mut store = SessionStore::new();
    let first = sign_in_with(&codec, &mut store, "u1", Role::Student, "s1", T).unwrap();
    let second = sign_in_with(&codec, &mut store, "u1", Role::Student, "s2", T).unwrap();
    let crossed = RefreshEvent::Presented {
        access: Some(first.access_token.clone()),
        refresh: Some(second.refresh_token.clone()),
    };
    let (state, action) = refresh_step(&codec, RefreshState::Start, crossed, T + 1);
    assert!(matches!(state, RefreshState::Revoking));
    match action {
        RefreshAction::Delete { session_ids } => {
            assert_eq!(session_ids, vec!["s1".to_string(), "s2".to_string()])
        }
        other => panic!("{:?}", other),
    }

    let rotated = refresh(
        &codec,
        &mut store,
        Some(&first.access_token),
        Some(&first.refresh_token),
        T + 5,
    )
    .unwrap();
    assert_ne!(rotated.refresh_token, first.refresh_token);
    let (state, action) = refresh_step(&codec, RefreshState::Start, presented(&first), T + 6);
    let fetched = fetch_for(&store, action);
    let (state, action) = refresh_step(&codec, state, fetched, T + 6);
    assert!(matches!(state, RefreshState::Revoking));
    match action {
        RefreshAction::Delete { session_ids } => assert_eq!(session_ids, vec!["s1".to_string()]),
        other => panic!("{:?}", other),
    }
}

#[test]
fn store_answers_the_machine() {
    let mut store = SessionStore::new();
    store.create("s1".to_string(), "u1".to_string(), "t1".to_string()).unwrap();
    let fetched = answer(&mut store, RefreshAction::Fetch { session_id: "s1".to_string() });
    match fetched {
        RefreshEvent::Fetched(Ok(row)) => assert_eq!(row.user_session_refresh_token, "t1"),
        other => panic!("{:?}", other),
    }
    let missing = answer(&mut store, RefreshAction::Fetch { session_id: "s2".to_string() });
    assert!(matches!(missing, RefreshEvent::Fetched(Err(StoreError::NotFound))));
    let swap = |expected: &str, new_token: &str| RefreshAction::Swap {
        session_id: "s1".to_string(),
        expected: expected.to_string(),
        new_token: new_token.to_string(),
    };
    assert!(matches!(answer(&mut store, swap("t1", "t2")), RefreshEvent::Swapped(Ok(()))));
    assert!(matches!(
        answer(&mut store, swap("t1", "t3")),
        RefreshEvent::Swapped(Err(StoreError::Conflict))
    ));
    assert_eq!(session_row(&store, "s1"), Some(("u1".to_string(), "t2".to_string())));
    let left_alone = answer(&mut store, RefreshAction::Respond(Err(HttpError::Unauthorized)));
    assert!(matches!(left_alone, RefreshEvent::Deleted(Ok(()))));
    assert_eq!(store.len(), 1);
    let deleted = answer(
        &mut store,
        RefreshAction::Delete { session_ids: vec!["s1".to_string(), "s9".to_string()] },
    );
    assert!(matches!(deleted, RefreshEvent::Deleted(Ok(()))));
    assert_eq!(store.len(), 0);
}

// ---- the authenticator -----------------------------------------------------------------

#[test]
fn authenticator_runs_the_whole_protocol() {
    let mut authenticator = Authenticator::new(keys());
    let old = authenticator.sign_in_at("u1", Role::Admin, "s1", T).unwrap();
    let access = Some(old.access_token.as_str());
    let refresh_header = Some(old.refresh_token.as_str());
    assert_eq!(authenticator.verify_at(access, refresh_header, T + 1).unwrap().access_token.uid, "u1");
    assert!(authenticator.verify_role_at(access, refresh_header, Role::Admin, T + 1).is_ok());
    assert!(matches!(
        authenticator.verify_role_at(access, refresh_header, Role::Student, T + 1),
        Err(HttpError::Forbidden)
    ));
    let new = authenticator.refresh_at(access, refresh_header, T + 1_000).unwrap();
    assert!(authenticator
        .verify_at(Some(&new.access_token), Some(&new.refresh_token), T + 1_000)
        .is_ok());
    assert!(matches!(
        authenticator.refresh_at(access, refresh_header, T + 1_001),
        Err(HttpError::Unauthorized)
    ));
    assert_eq!(authenticator.store.len(), 0);
    let pair = authenticator.sign_in("u2", Role::Student).unwrap();
    assert_eq!(authenticator.store.len(), 1);
    assert_eq!(authenticator.codec.decode_access(&pair.access_token).unwrap().uid, "u2");
    let claims =
        authenticator.verify(Some(&pair.access_token), Some(&pair.refresh_token)).unwrap();
    assert_eq!(claims.refresh_token.uid, "u2");
    let new = authenticator.refresh(Some(&pair.access_token), Some(&pair.refresh_token)).unwrap();
    assert_eq!(authenticator.codec.decode_refresh(&new.refresh_token).unwrap().uid, "u2");
    assert_eq!(authenticator.store.len(), 1);
    assert!(matches!(
        authenticator.verify(Some(&pair.access_token), Some("")),
        Err(HttpError::InvalidAuthenticationCredentials)
    ));
    assert!(matches!(
        authenticator.refresh(None, Some(&pair.refresh_token)),
        Err(HttpError::InvalidAuthenticationCredentials)
    ));
}
