use base64::engine::general_purpose::STANDARD;
use base64::Engine;
use blog_api::config::{DbConfig, DbConfigError};
use blog_api::db::{DbError, QueryError};
use blog_api::endpoint_error::EndpointError;
use blog_api::endpoints::auth::{Authentication, AuthenticationError, BasicAuth};
use blog_api::env::Env;
use blog_api::models::user::User;
use hmac::{Hmac, Mac};
use jwt::{Header, RegisteredClaims, Token, VerifyWithKey};
use sha2::Sha256;

fn user(id: i32, email: &str) -> User {
    User {
        id: id,
        name: "n".to_owned(),
        username: "u".to_owned(),
        email: email.to_owned(),
        hashed_password: None,
    }
}

fn text(value: &str) -> toml::Value {
    toml::Value::String(value.to_owned())
}

fn section() -> toml::Table {
    let mut table = toml::Table::new();
    table.insert("database".to_owned(), text("blog"));
    table.insert("username".to_owned(), text("me"));
    table.insert("password".to_owned(), text("pw"));
    table
}

#[test]
fn encoded_credentials_decode_to_themselves() {
    let pairs = [
        ("alice", "secret"),
        ("a@b.com", "pw1"),
        ("", ""),
        ("user with spaces", "p@ss w0rd!"),
        ("jos\u{e9}", "\u{1f511}"),
    ];
    for (user, password) in pairs {
        let payload = STANDARD.encode(format!("{}:{}", user, password));
        assert_eq!(
            BasicAuth::from_str(&payload),
            Ok(BasicAuth { user: user.to_owned(), password: password.to_owned() })
        );
        let header = format!("Basic {}", payload);
        assert_eq!(
            Authentication::from_request(Some(&header)).unwrap(),
            Authentication::Basic(BasicAuth {
                user: user.to_owned(),
                password: password.to_owned()
            })
        );
    }
}

#[test]
fn credentials_in_another_base64_alphabet_are_refused() {
    let payload = base64::engine::general_purpose::URL_SAFE.encode("a?:b>~~");
    assert!(payload.contains('_') || payload.contains('-'));
    assert!(BasicAuth::from_str(&payload).is_err());
    let unpadded = base64::engine::general_purpose::STANDARD_NO_PAD.encode("ab:c");
    assert_eq!(unpadded, "YWI6Yw");
    assert!(BasicAuth::from_str(&unpadded).is_err());
    assert_eq!(
        BasicAuth::from_str("YWI6Yw=="),
        Ok(BasicAuth { user: "ab".to_owned(), password: "c".to_owned() })
    );
}

#[test]
fn issued_value_is_a_token_for_the_email() {
    let value = user(3, "a@b.com").new_token(17, b"top-secret").unwrap().value;
    let key: Hmac<Sha256> = Hmac::new_from_slice(b"top-secret").unwrap();
    let token: Token<Header, RegisteredClaims, _> = value.as_str().verify_with_key(&key).unwrap();
    assert_eq!(token.claims().subject, Some("a@b.com".to_owned()));
    assert_eq!(token.claims().json_web_token_id, Some("17".to_owned()));
    assert_eq!(token.claims().issuer, None);
    assert_eq!(token.claims().expiration, None);
    assert_eq!(token.header().algorithm, jwt::AlgorithmType::Hs256);
    let other: Hmac<Sha256> = Hmac::new_from_slice(b"other-secret").unwrap();
    let refused: Result<Token<Header, RegisteredClaims, _>, jwt::Error> =
        value.as_str().verify_with_key(&other);
    assert!(refused.is_err());
}

#[test]
fn error_bodies_are_json_objects_with_a_status() {
    let cases = [
        (EndpointError::Db(DbError::Db(QueryError::NotFound)), "not_found"),
        (EndpointError::Auth(AuthenticationError::Unauthorized), "not_authorized"),
        (EndpointError::Db(DbError::PoolTimeout("t".to_owned())), "an internal error has occured"),
        (
            EndpointError::Db(DbError::Db(QueryError::Other("secret detail".to_owned()))),
            "an internal error has occured",
        ),
    ];
    for (err, status) in cases {
        let body = err.respond().body.unwrap();
        let parsed: serde_json::Value = serde_json::from_str(&body).unwrap();
        let object = parsed.as_object().unwrap();
        assert_eq!(object.len(), 1);
        assert_eq!(parsed.get("status").and_then(|s| s.as_str()), Some(status));
        assert!(!body.contains("secret detail"));
    }
}

#[test]
fn settings_are_read_from_a_section() {
    assert_eq!(
        DbConfig::from_section(&section()),
        Ok(DbConfig::new("postgres", "utf8", "blog", "me", "pw", "localhost", 5432))
    );
    let mut full = section();
    full.insert("adapter".to_owned(), text("mysql"));
    full.insert("encoding".to_owned(), text("latin1"));
    full.insert("host".to_owned(), text("db"));
    full.insert("port".to_owned(), toml::Value::Integer(3306));
    full.insert("unknown".to_owned(), toml::Value::Boolean(true));
    assert_eq!(
        DbConfig::from_section(&full),
        Ok(DbConfig::new("mysql", "latin1", "blog", "me", "pw", "db", 3306))
    );
}

#[test]
fn section_with_a_value_of_the_wrong_kind_is_refused() {
    let mut table = section();
    table.insert("username".to_owned(), toml::Value::Integer(7));
    assert_eq!(
        DbConfig::from_section(&table),
        Err(DbConfigError::Parsing("invalid username: must me a string".to_owned()))
    );
    let mut table = section();
    table.insert("password".to_owned(), toml::Value::Table(toml::Table::new()));
    assert_eq!(
        DbConfig::from_section(&table),
        Err(DbConfigError::Parsing("invalid password: must me a string".to_owned()))
    );
    let mut table = section();
    table.insert("port".to_owned(), toml::Value::Float(5432.0));
    assert_eq!(
        DbConfig::from_section(&table),
        Err(DbConfigError::Parsing("invalid port: must be an integer".to_owned()))
    );
    assert_eq!(
        DbConfig::from_section(&toml::Table::new()),
        Err(DbConfigError::Parsing("'database' key does not exist.".to_owned()))
    );
}

#[test]
fn settings_are_read_from_the_section_of_the_environment() {
    let mut staging = section();
    staging.insert("database".to_owned(), text("blog_staging"));
    let mut document = toml::Table::new();
    document.insert("test".to_owned(), toml::Value::Table(section()));
    document.insert("staging".to_owned(), toml::Value::Table(staging));
    document.insert("production".to_owned(), toml::Value::Array(Vec::new()));
    assert_eq!(
        DbConfig::from_document(&document, &Env::Test),
        Ok(DbConfig::new("postgres", "utf8", "blog", "me", "pw", "localhost", 5432))
    );
    assert_eq!(
        DbConfig::from_document(&document, &Env::Staging),
        Ok(DbConfig::new("postgres", "utf8", "blog_staging", "me", "pw", "localhost", 5432))
    );
    assert_eq!(
        DbConfig::from_document(&document, &Env::Production),
        Err(DbConfigError::Parsing(
            "configuration section for env 'production' does not have the correct format"
                .to_owned()
        ))
    );
    assert_eq!(
        DbConfig::from_document(&document, &Env::Development),
        Err(DbConfigError::Parsing("no configuration found for env 'development'".to_owned()))
    );
}
