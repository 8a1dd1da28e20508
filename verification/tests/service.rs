use jwt_service::cache::{CacheError, Config as CacheConfig, RedisConfig, RedisInstance};
use jwt_service::front::{unsigned_to_signed, JWT};
use jwt_service::token::{
    get_info_from_token, issue_jwt_token, issue_jwt_token_at, revoke_token, validate_token_at,
    Config, JWTConfig, TokenError,
};

fn config(secret: &str) -> JWTConfig {
    JWTConfig { secret: secret.to_owned() }
}

#[test]
fn trusted_email_gets_trusted_marker() {
    let cfg = config("s3cret");
    let token = issue_jwt_token_at("a@colond.com", "pw", &cfg, 1_000_000);
    let claims = validate_token_at(&token, &cfg, 1_000_000).unwrap();
    assert_eq!(claims.sub, ":D");
    assert_eq!(claims.email, "a@colond.com");
    assert_eq!(claims.iss, "ColonD");
}

#[test]
fn other_email_gets_guest_marker() {
    let cfg = config("s3cret");
    let token = issue_jwt_token_at("a@example.com", "pw", &cfg, 1_000_000);
    let claims = validate_token_at(&token, &cfg, 1_000_000).unwrap();
    assert_eq!(claims.sub, "guest");
    assert_eq!(claims.email, "a@example.com");
}

#[test]
fn fresh_token_validates_with_thirty_second_window() {
    let cfg = config("another secret");
    let token = issue_jwt_token("someone@example.com", "pw", &cfg);
    let claims = get_info_from_token(&token, &cfg).unwrap();
    assert_eq!(claims.exp - claims.iat, 30);
    assert_eq!(claims.email, "someone@example.com");
    assert_eq!(claims.iss, "ColonD");
}

#[test]
fn validates_up_to_second_thirty_and_fails_at_thirty_one() {
    let cfg = config("s3cret");
    let iat: u64 = 5_000;
    let trusted = issue_jwt_token_at("a@colond.com", "pw", &cfg, iat);
    let guest = issue_jwt_token_at("a@example.com", "pw", &cfg, iat);
    assert!(validate_token_at(&trusted, &cfg, iat + 30).is_ok());
    assert!(validate_token_at(&guest, &cfg, iat + 30).is_ok());
    assert_eq!(validate_token_at(&trusted, &cfg, iat + 31), Err(TokenError::ExpiredSignature));
    assert_eq!(validate_token_at(&guest, &cfg, iat + 31), Err(TokenError::ExpiredSignature));
}

#[test]
fn round_trip_preserves_email_and_issuer() {
    let cfg = config("round trip secret");
    for email in ["x@colond.com", "", "üser@例え.jp", "plain"] {
        let token = issue_jwt_token_at(email, "any password", &cfg, 77);
        let claims = validate_token_at(&token, &cfg, 100).unwrap();
        assert_eq!(claims.email, email);
        assert_eq!(claims.iss, "ColonD");
        assert_eq!(claims.iat, 77);
        assert_eq!(claims.exp, 107);
    }
}

#[test]
fn wrong_secret_fails_validation() {
    let issue_cfg = config("the real secret");
    let other_cfg = config("a different secret");
    let token = issue_jwt_token_at("a@colond.com", "pw", &issue_cfg, 1_000);
    assert_eq!(validate_token_at(&token, &other_cfg, 1_000), Err(TokenError::Malformed));
}

#[test]
fn malformed_tokens_fail_validation() {
    let cfg = config("s3cret");
    assert_eq!(validate_token_at("", &cfg, 0), Err(TokenError::Malformed));
    assert_eq!(validate_token_at("not a token", &cfg, 0), Err(TokenError::Malformed));
    assert_eq!(validate_token_at("a.b.c", &cfg, 0), Err(TokenError::Malformed));
}

fn foreign_token(claims: &serde_json::Map<String, serde_json::Value>, secret: &str) -> String {
    let key = jsonwebtoken::EncodingKey::from_secret(secret.as_bytes());
    jsonwebtoken::encode(&jsonwebtoken::Header::default(), claims, &key).unwrap()
}

#[test]
fn foreign_issuer_is_rejected_as_issuer_mismatch() {
    let cfg = config("s3cret");
    let mut claims = serde_json::Map::new();
    claims.insert("sub".to_owned(), serde_json::Value::from("guest"));
    claims.insert("iat".to_owned(), serde_json::Value::from(1_000u64));
    claims.insert("exp".to_owned(), serde_json::Value::from(1_030u64));
    claims.insert("email".to_owned(), serde_json::Value::from("a@example.com"));
    claims.insert("iss".to_owned(), serde_json::Value::from("SomebodyElse"));
    let token = foreign_token(&claims, "s3cret");
    assert_eq!(validate_token_at(&token, &cfg, 1_000), Err(TokenError::IssuerMismatch));
}

#[test]
fn token_missing_a_claim_is_malformed() {
    let cfg = config("s3cret");
    let mut claims = serde_json::Map::new();
    claims.insert("sub".to_owned(), serde_json::Value::from("guest"));
    claims.insert("iat".to_owned(), serde_json::Value::from(1_000u64));
    claims.insert("exp".to_owned(), serde_json::Value::from(1_030u64));
    claims.insert("iss".to_owned(), serde_json::Value::from("ColonD"));
    let token = foreign_token(&claims, "s3cret");
    assert_eq!(validate_token_at(&token, &cfg, 1_000), Err(TokenError::Malformed));
}

#[test]
fn token_carrying_an_audience_is_rejected() {
    let cfg = config("s3cret");
    let mut claims = serde_json::Map::new();
    claims.insert("sub".to_owned(), serde_json::Value::from("guest"));
    claims.insert("iat".to_owned(), serde_json::Value::from(1_000u64));
    claims.insert("exp".to_owned(), serde_json::Value::from(1_030u64));
    claims.insert("email".to_owned(), serde_json::Value::from("a@example.com"));
    claims.insert("iss".to_owned(), serde_json::Value::from("ColonD"));
    claims.insert("aud".to_owned(), serde_json::Value::from("someone"));
    let token = foreign_token(&claims, "s3cret");
    assert_eq!(validate_token_at(&token, &cfg, 1_000), Err(TokenError::Malformed));
}

#[test]
fn token_with_non_numeric_timestamp_is_malformed() {
    let cfg = config("s3cret");
    let mut claims = serde_json::Map::new();
    claims.insert("sub".to_owned(), serde_json::Value::from("guest"));
    claims.insert("iat".to_owned(), serde_json::Value::from("yesterday"));
    claims.insert("exp".to_owned(), serde_json::Value::from(1_030u64));
    claims.insert("email".to_owned(), serde_json::Value::from("a@example.com"));
    claims.insert("iss".to_owned(), serde_json::Value::from("ColonD"));
    let token = foreign_token(&claims, "s3cret");
    assert_eq!(validate_token_at(&token, &cfg, 1_000), Err(TokenError::Malformed));
}

#[test]
fn issued_token_is_standard_wire_format() {
    let cfg = config("interop secret");
    let token = issue_jwt_token_at("a@colond.com", "pw", &cfg, 9_000);
    assert_eq!(token.matches('.').count(), 2);
    let mut validation = jsonwebtoken::Validation::new(jsonwebtoken::Algorithm::HS256);
    validation.validate_exp = false;
    validation.validate_aud = false;
    let key = jsonwebtoken::DecodingKey::from_secret("interop secret".as_bytes());
    let data = jsonwebtoken::decode::<serde_json::Map<String, serde_json::Value>>(
        &token,
        &key,
        &validation,
    )
    .unwrap();
    assert_eq!(data.claims.get("sub").unwrap().as_str().unwrap(), ":D");
    assert_eq!(data.claims.get("iat").unwrap().as_u64().unwrap(), 9_000);
    assert_eq!(data.claims.get("exp").unwrap().as_u64().unwrap(), 9_030);
    assert_eq!(data.claims.get("email").unwrap().as_str().unwrap(), "a@colond.com");
    assert_eq!(data.claims.get("iss").unwrap().as_str().unwrap(), "ColonD");
}

#[test]
fn revoke_reports_success_for_any_string() {
    assert!(revoke_token(""));
    assert!(revoke_token("not a token"));
    assert!(revoke_token("aaa.bbb.ccc"));
}

#[test]
fn revoked_token_still_validates() {
    let cfg = config("s3cret");
    let token = issue_jwt_token_at("a@colond.com", "pw", &cfg, 2_000);
    assert!(revoke_token(&token));
    let claims = validate_token_at(&token, &cfg, 2_010).unwrap();
    assert_eq!(claims.email, "a@colond.com");
}

#[test]
fn get_token_info_without_any_token_rejects() {
    let service = JWT::new(config("s3cret"));
    let rejection = service.get_token_info(None, None).err().unwrap();
    assert_eq!(rejection.message, "No token provided");
}

#[test]
fn revoke_without_any_token_rejects() {
    let service = JWT::new(config("s3cret"));
    let rejection = service.revoke_token(None, None).err().unwrap();
    assert_eq!(rejection.message, "No token provided");
    let ok = service.revoke_token(None, Some("Bearer whatever")).unwrap();
    assert!(ok.success);
}

#[test]
fn exchange_token_issues_a_valid_token() {
    let service = JWT::new(config("s3cret"));
    let resp = service.exchange_token("a@colond.com", "pw");
    let info = service.get_token_info(Some(&resp.token), None).unwrap();
    assert_eq!(info.sub, ":D");
    assert_eq!(info.email, "a@colond.com");
    assert_eq!(info.iss, "ColonD");
    assert_eq!(info.exp - info.iat, 30);
}

#[test]
fn bearer_prefix_is_stripped_and_the_stripped_value_used() {
    let service = JWT::new(config("s3cret"));
    let resp = service.exchange_token("a@example.com", "pw");
    let with_prefix = format!("Bearer {}", resp.token);
    let info = service.get_token_info(None, Some(&with_prefix)).unwrap();
    assert_eq!(info.sub, "guest");
    let info2 = service.get_token_info(None, Some(&resp.token)).unwrap();
    assert_eq!(info2.email, "a@example.com");
}

#[test]
fn invalid_metadata_token_rejects_with_generic_message() {
    let service = JWT::new(config("s3cret"));
    let rejection = service.get_token_info(None, Some("Bearer junk")).err().unwrap();
    assert_eq!(rejection.message, "Get token info error");
}

#[test]
fn body_token_is_preferred_over_metadata() {
    let service = JWT::new(config("s3cret"));
    let resp = service.exchange_token("a@colond.com", "pw");
    let info = service.get_token_info(Some(&resp.token), Some("Bearer junk")).unwrap();
    assert_eq!(info.sub, ":D");
}

#[test]
fn timestamp_conversion_is_lossless_for_small_values() {
    assert_eq!(unsigned_to_signed(0), 0);
    assert_eq!(unsigned_to_signed(12_345), 12_345);
    assert_eq!(unsigned_to_signed(i64::MAX as u64), i64::MAX);
    assert_eq!(unsigned_to_signed(i64::MAX as u64 + 1), i64::MIN);
}

fn cache_config() -> CacheConfig {
    CacheConfig {
        redis: RedisConfig {
            host: "127.0.0.1".to_owned(),
            port: 6379,
            db: 0,
            password: None,
        },
    }
}

#[test]
fn cache_get_of_absent_key_is_missing() {
    let mut store = RedisInstance::new(cache_config());
    assert_eq!(store.get("absent"), Err(CacheError::Missing));
    assert_eq!(store.get(""), Err(CacheError::Missing));
}

#[test]
fn cache_set_then_get_returns_the_value() {
    let mut store = RedisInstance::new(cache_config());
    store.set("alpha", "one").unwrap();
    store.set("beta", "two").unwrap();
    assert_eq!(store.get("alpha").unwrap(), "one");
    assert_eq!(store.get("beta").unwrap(), "two");
    assert_eq!(store.get("gamma"), Err(CacheError::Missing));
}

#[test]
fn cache_overwrite_shadows_the_older_value() {
    let mut store = RedisInstance::new(cache_config());
    store.set("alpha", "one").unwrap();
    store.set("alpha", "newer").unwrap();
    assert_eq!(store.get("alpha").unwrap(), "newer");
    assert_eq!(store.config.redis.port, 6379);
}

#[test]
fn full_config_threads_into_the_engine() {
    let cfg = Config { jwt: JWTConfig { secret: "threaded".to_owned() } };
    let token = issue_jwt_token_at("a@colond.com", "pw", &cfg.jwt, 42);
    let claims = validate_token_at(&token, &cfg.jwt, 50).unwrap();
    assert_eq!(claims.sub, ":D");
    assert_eq!(claims.iat, 42);
}
