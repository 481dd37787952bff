use chat::auth::{select_token, verify_token, BearerHeader, Rejection, VerifyToken};
use chat::json::Json;
use chat::jwt::{claims, identity, JwtDecodingKey, JwtEncodingKey, UserCliams, VerificationError};
use chat::notify::config::{AuthConfig, NotifyConfig, ServerConfig};
use chat::notify::state::NotifyState;
use chat::server::user::{
    hash_password, signin, signin_answer, verify_password, CreateUser, SigninInput,
};
use chat::types::{RowID, Timestamp, User};

/// The public halves of two Ed25519 key pairs. The private half of the first
/// is the seed 1, 2, .. 32; the second pair is there to be the wrong key.
const PUBLIC: [u8; 32] = [
    121, 181, 86, 46, 143, 230, 84, 249, 64, 120, 177, 18, 232, 169, 139, 167, 144, 31, 133, 58,
    230, 149, 190, 215, 224, 227, 145, 11, 173, 4, 150, 100,
];
const OTHER_PUBLIC: [u8; 32] = [
    218, 41, 233, 91, 2, 224, 15, 250, 21, 100, 87, 117, 251, 29, 43, 162, 34, 161, 148, 51, 149,
    238, 160, 107, 148, 226, 192, 87, 183, 190, 105, 208,
];

fn base64(bytes: &[u8]) -> String {
    let table: Vec<char> =
        "ABCDEFGHIJKLMNOPQRSTUVWXYZabcdefghijklmnopqrstuvwxyz0123456789+/".chars().collect();
    let mut out = String::new();
    for chunk in bytes.chunks(3) {
        let b = [chunk[0], *chunk.get(1).unwrap_or(&0), *chunk.get(2).unwrap_or(&0)];
        out.push(table[(b[0] >> 2) as usize]);
        out.push(table[(((b[0] & 3) << 4) | (b[1] >> 4)) as usize]);
        out.push(if chunk.len() > 1 { table[(((b[1] & 15) << 2) | (b[2] >> 6)) as usize] } else { '=' });
        out.push(if chunk.len() > 2 { table[(b[2] & 63) as usize] } else { '=' });
    }
    out
}

fn pem(label: &str, prefix: &[u8], key: &[u8]) -> String {
    let der: Vec<u8> = prefix.iter().chain(key.iter()).copied().collect();
    format!("-----BEGIN {label}-----\n{}\n-----END {label}-----\n", base64(&der))
}

fn private_pem() -> String {
    let seed: Vec<u8> = (1..=32).collect();
    pem("PRIVATE KEY", &[48, 46, 2, 1, 0, 48, 5, 6, 3, 43, 101, 112, 4, 34, 4, 32], &seed)
}

fn public_pem(key: &[u8]) -> String {
    pem("PUBLIC KEY", &[48, 42, 48, 5, 6, 3, 43, 101, 112, 3, 33, 0], key)
}

fn keys() -> (JwtEncodingKey, JwtDecodingKey) {
    (
        JwtEncodingKey::load(private_pem().as_bytes()).unwrap(),
        JwtDecodingKey::load(public_pem(&PUBLIC).as_bytes()).unwrap(),
    )
}

fn now() -> u64 {
    std::time::SystemTime::now()
        .duration_since(std::time::UNIX_EPOCH)
        .unwrap()
        .as_secs()
}

fn token_with(iss: &str, aud: &str, exp: u64, uid: Option<i64>) -> String {
    let mut doc = serde_json::Map::new();
    doc.insert("iss".to_string(), serde_json::Value::from(iss));
    doc.insert("aud".to_string(), serde_json::Value::from(aud));
    doc.insert("exp".to_string(), serde_json::Value::from(exp));
    if let Some(uid) = uid {
        doc.insert("uid".to_string(), serde_json::Value::from(uid));
    }
    doc.insert("ws_id".to_string(), serde_json::Value::from(2));
    jsonwebtoken::encode(
        &jsonwebtoken::Header::new(jsonwebtoken::Algorithm::EdDSA),
        &serde_json::Value::Object(doc),
        &jsonwebtoken::EncodingKey::from_ed_pem(private_pem().as_bytes()).unwrap(),
    )
    .unwrap()
}

fn outcome(dk: &JwtDecodingKey, header: Option<&str>, query: Option<&str>) -> Result<UserCliams, Rejection> {
    verify_token(dk, BearerHeader::read(header), query.map(|q| q.to_string()))
}

#[test]
fn sign_and_verify() {
    let ek = JwtEncodingKey::load(private_pem().as_bytes()).unwrap();
    let dk = JwtDecodingKey::load(public_pem(&PUBLIC).as_bytes()).unwrap();
    let token = ek.sign(&Default::default()).unwrap();
    let user = dk.verify(&token).unwrap();
    assert_eq!(user.uid, RowID::default());
}

/// What a request with these headers and this URI gets: the library decides
/// as the middleware of a server would, from the `Authorization` header and
/// the `access_token` parameter of the query.
fn status(dk: &JwtDecodingKey, headers: &[(&str, String)], uri: &str) -> u16 {
    let header = headers.iter().find(|(name, _)| *name == "Authorization").map(|(_, v)| v.as_str());
    let query = uri.split_once('?').map(|(_, q)| q).unwrap_or("");
    let token = query
        .split('&')
        .find_map(|pair| pair.strip_prefix("access_token="))
        .unwrap_or("")
        .to_string();
    match verify_token(dk, BearerHeader::read(header), Some(token)) {
        Ok(_) => 200,
        Err(rejection) => rejection.status(),
    }
}

#[test]
fn t_verify_token() {
    let (ek, dk) = keys();

    // good token
    let token = ek.sign(&Default::default()).unwrap();
    assert_eq!(status(&dk, &[("Authorization", format!("Bearer {token}"))], "/"), 200);

    // good token in query
    assert_eq!(status(&dk, &[], &format!("/?access_token={token}")), 200);

    // bad token
    assert_eq!(status(&dk, &[("Authorization", "Bearer nothing".to_string())], "/"), 403);

    // bad token in query
    assert_eq!(status(&dk, &[], "/?access_token=nothing"), 403);

    // missing token
    assert_eq!(status(&dk, &[], "/"), 401);
}

#[test]
fn verify_token_should_work() {
    let (ek, dk) = keys();
    let token = ek.sign(&Default::default()).unwrap();

    // good token
    assert_eq!(status(&dk, &[("Authorization", format!("Bearer {token}"))], "/"), 200);

    // bad token
    assert_eq!(status(&dk, &[("Authorization", "Bearer nothing".to_string())], "/"), 403);

    // missing token
    assert_eq!(status(&dk, &[], "/"), 401);
}

#[test]
fn a_token_names_the_user_it_was_signed_for() {
    let (ek, dk) = keys();
    let user = UserCliams { uid: 42, ws_id: 7 };
    let token = ek.sign(&user).unwrap();
    assert_eq!(token.matches('.').count(), 2);
    assert_eq!(dk.verify(&token), Ok(user));
    let far = ek.sign_at(&user, 4_000_000_000).unwrap();
    assert_eq!(dk.verify(&far), Ok(user));
}

#[test]
fn an_expired_token_is_invalid_and_no_token_is_missing() {
    let (ek, dk) = keys();
    let user = UserCliams { uid: 42, ws_id: 7 };
    let expired = ek.sign_at(&user, 1_000_000).unwrap();
    assert_eq!(dk.verify(&expired), Err(VerificationError));
    let bearer = format!("Bearer {expired}");
    let invalid = outcome(&dk, Some(&bearer), None).unwrap_err();
    assert_eq!(invalid, Rejection::InvalidToken);
    assert_eq!(invalid.status(), 403);
    assert_eq!(invalid.reason(), "invalid token");
    let missing = outcome(&dk, None, None).unwrap_err();
    assert_eq!(missing, Rejection::MissingToken);
    assert_eq!(missing.status(), 401);
    assert_eq!(missing.reason(), "missing token");
    assert_ne!(invalid.status(), missing.status());
    assert_eq!(outcome(&dk, None, Some("")).unwrap_err(), Rejection::MissingToken);
}

#[test]
fn a_token_signed_with_another_key_is_invalid() {
    let (ek, _) = keys();
    let other = JwtDecodingKey::load(public_pem(&OTHER_PUBLIC).as_bytes()).unwrap();
    let token = ek.sign(&UserCliams { uid: 1, ws_id: 1 }).unwrap();
    assert_eq!(other.verify(&token), Err(VerificationError));
    let mut forged = token.clone();
    forged.push('A');
    let (_, dk) = keys();
    assert_eq!(dk.verify(&forged), Err(VerificationError));
}

#[test]
fn issuer_audience_and_identity_are_all_asked_for() {
    let (_, dk) = keys();
    let exp = now() + 3600;
    let good = token_with("chat", "chat_web", exp, Some(5));
    assert_eq!(dk.verify(&good), Ok(UserCliams { uid: 5, ws_id: 2 }));
    assert!(dk.verify(&token_with("other", "chat_web", exp, Some(5))).is_err());
    assert!(dk.verify(&token_with("chat", "other", exp, Some(5))).is_err());
    assert!(dk.verify(&token_with("chat", "chat_web", exp, None)).is_err());
    assert!(dk.verify(&token_with("chat", "chat_web", now() - 3600, Some(5))).is_err());
}

#[test]
fn sign_refuses_a_clock_at_the_end_of_time() {
    let (ek, _) = keys();
    let user = UserCliams::default();
    assert!(ek.sign_at(&user, u64::MAX).is_err());
    assert!(ek.sign_at(&user, u64::MAX - 604800 + 1).is_err());
}

#[test]
fn keys_are_read_from_pem_only() {
    assert!(JwtDecodingKey::load(b"not a key").is_err());
    assert!(JwtEncodingKey::load(b"not a key").is_err());
    assert!(JwtDecodingKey::load(private_pem().as_bytes()).is_err());
    assert!(JwtEncodingKey::load(public_pem(&PUBLIC).as_bytes()).is_err());
}

#[test]
fn identity_reads_the_claims() {
    let field = |k: &str, v: Json| (k.to_string(), v);
    let text = |s: &str| Json::Text(s.to_string());
    let doc = Json::Object(vec![
        field("aud", text("chat_web")),
        field("exp", Json::Int(10)),
        field("iss", text("chat")),
        field("uid", Json::Int(3)),
        field("ws_id", Json::Int(4)),
    ]);
    assert_eq!(identity(&doc), Ok(UserCliams { uid: 3, ws_id: 4 }));
    let no_exp = Json::Object(vec![
        field("aud", text("chat_web")),
        field("iss", text("chat")),
        field("uid", Json::Int(3)),
        field("ws_id", Json::Int(4)),
    ]);
    assert_eq!(identity(&no_exp), Err(VerificationError));
    let listed_audience = Json::Object(vec![
        field("aud", Json::List(vec![text("chat_web")])),
        field("exp", Json::Int(10)),
        field("iss", text("chat")),
        field("uid", Json::Int(3)),
        field("ws_id", Json::Int(4)),
    ]);
    assert_eq!(identity(&listed_audience), Err(VerificationError));
    assert_eq!(identity(&Json::Null), Err(VerificationError));
    let made = claims(&UserCliams { uid: 8, ws_id: 9 }, 77);
    assert_eq!(identity(&made), Ok(UserCliams { uid: 8, ws_id: 9 }));
    match made {
        Json::Object(fields) => {
            let keys: Vec<&str> = fields.iter().map(|(k, _)| k.as_str()).collect();
            assert_eq!(keys, vec!["aud", "exp", "iss", "uid", "ws_id"]);
            assert!(matches!(fields[1].1, Json::Int(77)));
        }
        other => panic!("unexpected: {:?}", other),
    }
    match claims(&UserCliams::default(), u64::MAX) {
        Json::Object(fields) => assert!(matches!(fields[1].1, Json::UInt(u64::MAX))),
        other => panic!("unexpected: {:?}", other),
    }
}

#[test]
fn the_header_comes_before_the_query() {
    assert_eq!(
        select_token(BearerHeader::read(Some("Bearer abc")), Some("xyz".to_string())),
        Ok("abc".to_string())
    );
    assert_eq!(
        select_token(BearerHeader::read(Some("bearer   abc")), None),
        Ok("abc".to_string())
    );
    assert_eq!(select_token(BearerHeader::read(None), Some("xyz".to_string())), Ok("xyz".to_string()));
    assert_eq!(
        select_token(BearerHeader::read(Some("Basic abc")), Some("xyz".to_string())),
        Err(Rejection::UnreadableHeader)
    );
    assert_eq!(Rejection::UnreadableHeader.status(), 401);
    assert_eq!(Rejection::UnreadableHeader.reason(), "cannot parse token from header");
    assert_eq!(select_token(BearerHeader::read(Some("Bearer ")), None), Err(Rejection::MissingToken));
    assert_eq!(select_token(BearerHeader::read(Some("Bearer")), None), Err(Rejection::UnreadableHeader));
    assert_eq!(
        select_token(BearerHeader::Token(String::new()), Some("xyz".to_string())),
        Err(Rejection::MissingToken)
    );
    assert!(matches!(BearerHeader::read(Some("Bearer t\u{e9}")), BearerHeader::Unreadable));
}

#[test]
fn the_notification_server_verifies_with_its_key() {
    let config = NotifyConfig {
        server: ServerConfig { host: "0.0.0.0".to_string(), port: 6687, db_url: String::new() },
        auth: AuthConfig { pk: public_pem(&PUBLIC) },
    };
    let state = NotifyState::try_new(config).unwrap();
    assert_eq!(state.config.server.port, 6687);
    assert!(!state.users.is_registered(1));
    let (ek, _) = keys();
    let user = UserCliams { uid: 11, ws_id: 1 };
    let token = ek.sign(&user).unwrap();
    assert_eq!(VerifyToken::verify(&state, &token), Ok(user));
    assert!(VerifyToken::verify(&state, "nothing").is_err());
    let bad = NotifyConfig {
        server: ServerConfig { host: String::new(), port: 0, db_url: String::new() },
        auth: AuthConfig { pk: "nothing".to_string() },
    };
    assert!(NotifyState::try_new(bad).is_err());
}

#[test]
fn t_argon2_hash() {
    let password = "123456laskjdlasjl";
    let hash = hash_password(password).unwrap();
    assert!(verify_password(password, &hash).unwrap());
}

#[test]
fn passwords_are_checked_against_their_hash() {
    let hash = hash_password("hunter2").unwrap();
    assert_ne!(hash, "hunter2");
    assert_ne!(hash, hash_password("hunter2").unwrap());
    assert!(!verify_password("hunter3", &hash).unwrap());
    let err = verify_password("hunter2", "no hash").unwrap_err();
    assert_eq!(err.status(), 500);
    assert!(err.message().starts_with("password hash error: "));
    assert!(err.message().len() > "password hash error: ".len());
}

#[test]
fn signing_in_needs_the_account_and_the_password() {
    let account = || User {
        id: 1,
        fullname: "Alice".to_string(),
        email: "a@a.com".to_string(),
        password_hash: hash_password("123").unwrap(),
        ws_id: 3,
        created_at: Timestamp { secs: 0, nanos: 0 },
    };
    let input = |password: &str| SigninInput { email: "a@a.com".to_string(), password: password.to_string() };
    assert!(signin(None, &input("123")).unwrap().is_none());
    assert!(signin(Some(account()), &input("124")).unwrap().is_none());
    let user = signin(Some(account()), &input("123")).unwrap().unwrap();
    assert_eq!(user.id, 1);
    assert_eq!(user.ws_id, 3);
    assert_eq!(user.fullname, "Alice");
    assert_eq!(user.password_hash, "");
    assert_eq!(UserCliams::of_user(&user), UserCliams { uid: 1, ws_id: 3 });
    let mut broken = account();
    broken.password_hash = "no hash".to_string();
    assert!(signin(Some(broken), &input("123")).is_err());
    assert_eq!(signin_answer(Some(account())).unwrap().id, 1);
    let refused = signin_answer(None).unwrap_err();
    assert_eq!(refused.status(), 403);
    assert_eq!(refused.message(), "invalid email or password");
}

#[test]
fn signing_up_needs_a_free_address() {
    let input = CreateUser {
        fullname: "test".to_string(),
        email: "b@a.com".to_string(),
        password: "123456".to_string(),
    };
    assert!(input.check_free(false).is_ok());
    let taken = input.check_free(true).unwrap_err();
    assert_eq!(taken.status(), 409);
    assert_eq!(taken.message(), "user");
}

#[test]
fn bearer_values_are_read_by_scheme_and_characters() {
    let token = |value: &str| match BearerHeader::read(Some(value)) {
        BearerHeader::Token(t) => Some(t),
        BearerHeader::Unreadable => None,
        BearerHeader::Missing => panic!("a value is not a missing header"),
    };
    assert_eq!(token("Bearer abc"), Some("abc".to_string()));
    assert_eq!(token("BEARER abc"), Some("abc".to_string()));
    assert_eq!(token("bEaReR abc"), Some("abc".to_string()));
    assert_eq!(token("Bearer    abc"), Some("abc".to_string()));
    assert_eq!(token("Bearer \t \tabc"), Some("abc".to_string()));
    assert_eq!(token("Bearer abc "), Some("abc ".to_string()));
    assert_eq!(token("Bearer a b\tc~!"), Some("a b\tc~!".to_string()));
    assert_eq!(token("Bearer "), Some(String::new()));
    assert_eq!(token("Bearer   "), Some(String::new()));
    assert_eq!(token("Bearer"), None);
    assert_eq!(token("Beare"), None);
    assert_eq!(token(""), None);
    assert_eq!(token("Bearerabc"), None);
    assert_eq!(token("Bearer\tabc"), None);
    assert_eq!(token(" Bearer abc"), None);
    assert_eq!(token("Basic abc"), None);
    assert_eq!(token("Bearex abc"), None);
    assert_eq!(token("Bearer a\u{7f}"), None);
    assert_eq!(token("Bearer a\nb"), None);
    assert_eq!(token("Bearer a\u{0}b"), None);
    assert_eq!(token("Bearer t\u{e9}"), None);
    assert_eq!(token("Bearer \u{2003}abc"), None);
    assert!(matches!(BearerHeader::read(None), BearerHeader::Missing));
}

#[test]
fn a_token_is_good_for_a_week_and_a_minute() {
    let (ek, dk) = keys();
    let user = UserCliams { uid: 42, ws_id: 7 };
    let signed = 1_700_000_000;
    let token = ek.sign_at(&user, signed).unwrap();
    assert_eq!(token, ek.sign_at(&user, signed).unwrap());
    assert_ne!(token, ek.sign_at(&user, signed + 1).unwrap());
    assert_eq!(dk.verify_at(&token, signed), Ok(user));
    assert_eq!(dk.verify_at(&token, 0), Ok(user));
    assert_eq!(dk.verify_at(&token, signed + 604800), Ok(user));
    assert_eq!(dk.verify_at(&token, signed + 604800 + 60), Ok(user));
    assert_eq!(dk.verify_at(&token, signed + 604800 + 61), Err(VerificationError));
    assert_eq!(dk.verify_at(&token, u64::MAX), Err(VerificationError));
    assert_eq!(dk.verify_at("nothing", signed), Err(VerificationError));
    let other = JwtDecodingKey::load(public_pem(&OTHER_PUBLIC).as_bytes()).unwrap();
    assert_eq!(other.verify_at(&token, signed), Err(VerificationError));
    let no_expiry = {
        let mut doc = serde_json::Map::new();
        doc.insert("iss".to_string(), serde_json::Value::from("chat"));
        doc.insert("aud".to_string(), serde_json::Value::from("chat_web"));
        doc.insert("uid".to_string(), serde_json::Value::from(1));
        doc.insert("ws_id".to_string(), serde_json::Value::from(2));
        jsonwebtoken::encode(
            &jsonwebtoken::Header::new(jsonwebtoken::Algorithm::EdDSA),
            &serde_json::Value::Object(doc),
            &jsonwebtoken::EncodingKey::from_ed_pem(private_pem().as_bytes()).unwrap(),
        )
        .unwrap()
    };
    assert_eq!(dk.verify_at(&no_expiry, 0), Err(VerificationError));
    let listed = token_with("chat", "chat_web", signed, Some(5));
    assert_eq!(dk.verify_at(&listed, signed + 60), Ok(UserCliams { uid: 5, ws_id: 2 }));
    assert_eq!(dk.verify_at(&listed, signed + 61), Err(VerificationError));
}
