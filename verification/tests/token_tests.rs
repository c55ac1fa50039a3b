use todo_leptos::auth::AuthError;
use todo_leptos::token::{
    claims_for, claims_to_json, create_token, is_valid_token, Claims, TOKEN_LIFETIME_SECS,
};

const SECRET: &[u8] = b"test-secret";

fn now() -> i64 {
    std::time::SystemTime::now().duration_since(std::time::UNIX_EPOCH).unwrap().as_secs() as i64
}

fn serde_payload(exp: u64, iat: u64, user_id: i32, user_name: &str) -> String {
    let mut m = serde_json::Map::new();
    m.insert("exp".to_string(), serde_json::Value::from(exp));
    m.insert("iat".to_string(), serde_json::Value::from(iat));
    m.insert("user_id".to_string(), serde_json::Value::from(user_id));
    m.insert("user_name".to_string(), serde_json::Value::from(user_name));
    serde_json::Value::Object(m).to_string()
}

#[test]
fn claims_expire_seven_days_after_issue() {
    let c = claims_for(7, "bob".to_string(), 1_000);
    assert_eq!(c.iat, 1_000);
    assert_eq!(c.exp, 605_800);
    assert_eq!(c.exp - c.iat, TOKEN_LIFETIME_SECS as usize);
    assert_eq!(c.user_id, 7);
    assert_eq!(c.user_name, "bob");
}

#[test]
fn claims_payload_text() {
    let c = Claims { exp: 605_800, iat: 1_000, user_id: -3, user_name: "a\"b".to_string() };
    assert_eq!(claims_to_json(&c), "{\"exp\":605800,\"iat\":1000,\"user_id\":-3,\"user_name\":\"a\\\"b\"}");
}

#[test]
fn claims_payload_agrees_with_serde_json() {
    for (uid, name) in [(1, "bob"), (-5, "Иван"), (i32::MAX, "tab\there"), (i32::MIN, "")] {
        let c = claims_for(uid, name.to_string(), 1_700_000_000);
        assert_eq!(claims_to_json(&c), serde_payload(1_700_604_800, 1_700_000_000, uid, name));
    }
}

#[test]
fn issued_token_reads_back() {
    let t = now();
    let token = create_token(42, "alice".to_string(), t, SECRET).unwrap();
    assert_eq!(token.matches('.').count(), 2);
    assert!(!token.contains("alice"));
    let payload = is_valid_token(&token, SECRET).unwrap();
    assert_eq!(payload, serde_payload((t + TOKEN_LIFETIME_SECS) as u64, t as u64, 42, "alice"));
}

#[test]
fn issued_token_is_a_standard_jwt() {
    let token = create_token(9, "carol".to_string(), now(), SECRET).unwrap();
    let data = jsonwebtoken::decode::<serde_json::Value>(
        &token,
        &jsonwebtoken::DecodingKey::from_secret(SECRET),
        &jsonwebtoken::Validation::new(jsonwebtoken::Algorithm::HS256),
    )
    .unwrap();
    assert_eq!(data.claims["user_id"], 9);
    assert_eq!(data.claims["user_name"], "carol");
    let exp = data.claims["exp"].as_u64().unwrap();
    let iat = data.claims["iat"].as_u64().unwrap();
    assert_eq!(exp - iat, 604_800);
}

#[test]
fn token_under_another_secret_is_refused() {
    let token = create_token(1, "bob".to_string(), now(), SECRET).unwrap();
    assert_eq!(is_valid_token(&token, b"other-secret"), None);
}

#[test]
fn expired_token_is_refused() {
    let token = create_token(1, "bob".to_string(), 1_000, SECRET).unwrap();
    assert_eq!(is_valid_token(&token, SECRET), None);
}

#[test]
fn text_without_two_dots_is_refused() {
    assert_eq!(is_valid_token("not-a-token", SECRET), None);
    assert_eq!(is_valid_token("one.dot", SECRET), None);
}

#[test]
fn malformed_token_is_refused() {
    assert_eq!(is_valid_token("", SECRET), None);
    assert_eq!(is_valid_token("a.b.c", SECRET), None);
    assert_eq!(is_valid_token("not a token", SECRET), None);
}

#[test]
fn token_encoding_error_variant_exists() {
    let e = AuthError::TokenEncoding("x".to_string());
    assert_eq!(e.message(), "x");
}

#[test]
fn claims_before_the_epoch_wrap_the_issue_time() {
    let c = claims_for(1, "b".to_string(), -5);
    assert_eq!(c.iat, (-5i64) as usize);
    assert_eq!(c.exp, 604_795);
}
