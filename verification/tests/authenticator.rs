use blog_api::config::DbConfig;
use blog_api::db::Db;
use blog_api::endpoint_error::EndpointError;
use blog_api::endpoints::auth::{
    authenticate_by_email_password, Authentication, AuthenticationError, BasicAuth, Lookup,
    TokenAuth,
};
use blog_api::models::user::{AuthenticatedUser, User};
use blog_api::password::hash_password;

const SECRET: &[u8] = b"top-secret";

fn user(id: i32, email: &str, hashed_password: Option<String>) -> User {
    User {
        id: id,
        name: "Alice A.".to_owned(),
        username: "alice".to_owned(),
        email: email.to_owned(),
        hashed_password: hashed_password,
    }
}

fn store() -> Db {
    let mut db = Db::new(DbConfig::new("postgres", "utf8", "blog", "blog", "blog", "db", 5432));
    db.load_user(user(1, "a@b.com", Some(hash_password("pw1", 4).unwrap()))).unwrap();
    db.load_user(user(2, "nopw@b.com", None)).unwrap();
    db.load_user(user(3, "broken@b.com", Some("not a digest".to_owned()))).unwrap();
    db
}

fn basic(user: &str, password: &str) -> Authentication {
    Authentication::Basic(BasicAuth { user: user.to_owned(), password: password.to_owned() })
}

fn bearer(token: &str) -> Authentication {
    Authentication::Token(TokenAuth { token: token.to_owned() })
}

#[test]
fn correct_password_authenticates() {
    let db = store();
    let found = authenticate_by_email_password(&db, "a@b.com", "pw1").unwrap();
    assert_eq!(found, db.find_user(1).unwrap());
}

#[test]
fn wrong_password_and_unknown_user_give_the_same_error() {
    let db = store();
    let wrong = authenticate_by_email_password(&db, "a@b.com", "wrong").unwrap_err();
    let unknown = authenticate_by_email_password(&db, "nobody@b.com", "pw1").unwrap_err();
    assert!(matches!(wrong, EndpointError::Auth(AuthenticationError::Unauthorized)));
    assert!(matches!(unknown, EndpointError::Auth(AuthenticationError::Unauthorized)));
    assert_eq!(wrong.to_string(), unknown.to_string());
    assert_eq!(wrong.respond(), unknown.respond());
}

#[test]
fn user_without_password_is_unauthorized() {
    let db = store();
    assert!(matches!(
        authenticate_by_email_password(&db, "nopw@b.com", ""),
        Err(EndpointError::Auth(AuthenticationError::Unauthorized))
    ));
    assert!(matches!(
        authenticate_by_email_password(&db, "nopw@b.com", "pw1"),
        Err(EndpointError::Auth(AuthenticationError::Unauthorized))
    ));
}

#[test]
fn corrupt_digest_is_an_encryption_error() {
    let db = store();
    assert!(matches!(
        authenticate_by_email_password(&db, "broken@b.com", "pw1"),
        Err(EndpointError::Auth(AuthenticationError::Encryption(_)))
    ));
}

#[test]
fn email_is_matched_exactly() {
    let db = store();
    assert!(matches!(
        authenticate_by_email_password(&db, "A@B.COM", "pw1"),
        Err(EndpointError::Auth(AuthenticationError::Unauthorized))
    ));
    assert!(matches!(
        authenticate_by_email_password(&db, "a@b.com ", "pw1"),
        Err(EndpointError::Auth(AuthenticationError::Unauthorized))
    ));
    assert!(matches!(
        authenticate_by_email_password(&db, "alice", "pw1"),
        Err(EndpointError::Auth(AuthenticationError::Unauthorized))
    ));
}

#[test]
fn authenticate_gives_the_identity_only() {
    let db = store();
    let identity = basic("a@b.com", "pw1").authenticate(&db, SECRET).unwrap();
    assert_eq!(
        identity,
        AuthenticatedUser { id: 1, username: "alice".to_owned(), email: "a@b.com".to_owned() }
    );
    assert_eq!(db.find_user(1).unwrap().authenticated(), identity);
}

#[test]
fn authenticate_resolves_both_kinds_of_claim() {
    let mut db = store();
    let mut alice = db.find_user(1).unwrap();
    let token = alice.generate_token(&mut db, SECRET).unwrap();
    assert_eq!(basic("a@b.com", "pw1").authenticate(&db, SECRET).unwrap().id, 1);
    assert_eq!(bearer(&token.value).authenticate(&db, SECRET).unwrap().id, 1);
    assert!(matches!(
        basic("a@b.com", "nope").authenticate(&db, SECRET),
        Err(EndpointError::Auth(AuthenticationError::Unauthorized))
    ));
    assert!(matches!(
        bearer("garbage").authenticate(&db, SECRET),
        Err(EndpointError::Auth(AuthenticationError::Unauthorized))
    ));
    assert!(matches!(
        basic("broken@b.com", "pw1").authenticate(&db, SECRET),
        Err(EndpointError::Auth(AuthenticationError::Encryption(_)))
    ));
}

#[test]
fn authenticate_does_not_rotate_tokens() {
    let mut db = store();
    let mut alice = db.find_user(1).unwrap();
    let token = alice.generate_token(&mut db, SECRET).unwrap();
    for _ in 0..3 {
        assert_eq!(bearer(&token.value).authenticate(&db, SECRET).unwrap().id, 1);
    }
    assert_eq!(db.find_token(&token.value).unwrap(), token);
}

#[test]
fn bearer_claim_never_reads_passwords() {
    let db = store();
    let digest = db.find_user(1).unwrap().hashed_password.unwrap();
    assert!(matches!(
        bearer("pw1").authenticate(&db, SECRET),
        Err(EndpointError::Auth(AuthenticationError::Unauthorized))
    ));
    assert!(matches!(
        bearer(&digest).authenticate(&db, SECRET),
        Err(EndpointError::Auth(AuthenticationError::Unauthorized))
    ));
}

#[test]
fn lookup_names_the_rows_a_claim_needs() {
    let alice = user(1, "a@b.com", None);
    let value = alice.new_token(1, SECRET).unwrap().value;
    assert_eq!(basic("a@b.com", "pw1").lookup(SECRET), Lookup::UserByEmail("a@b.com".to_owned()));
    assert_eq!(bearer(&value).lookup(SECRET), Lookup::UserByToken(value.clone()));
    assert_eq!(bearer(&value).lookup(b"other-secret"), Lookup::Nothing);
    assert_eq!(bearer("garbage").lookup(SECRET), Lookup::Nothing);
}

#[test]
fn rows_of_the_lookup_are_enough_to_resolve_a_claim() {
    let mut full = store();
    let mut alice = full.find_user(1).unwrap();
    let token = alice.generate_token(&mut full, SECRET).unwrap();

    let mut by_email =
        Db::new(DbConfig::new("postgres", "utf8", "blog", "blog", "blog", "db", 5432));
    by_email.load_user(full.find_user_by_email("a@b.com").unwrap()).unwrap();
    for password in ["pw1", "wrong"] {
        let claim = basic("a@b.com", password);
        assert_eq!(
            claim.authenticate(&by_email, SECRET).ok(),
            claim.authenticate(&full, SECRET).ok()
        );
    }

    let mut by_token =
        Db::new(DbConfig::new("postgres", "utf8", "blog", "blog", "blog", "db", 5432));
    by_token.load_user(full.find_user(token.user_id).unwrap()).unwrap();
    by_token.load_token(full.find_token(&token.value).unwrap()).unwrap();
    let claim = bearer(&token.value);
    assert_eq!(claim.authenticate(&by_token, SECRET).unwrap().id, 1);
    assert_eq!(
        claim.authenticate(&by_token, SECRET).ok(),
        claim.authenticate(&full, SECRET).ok()
    );
}
