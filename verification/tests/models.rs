use lowboy::model::email::{CreateEmailRecord, Email, EmailRecord, UpdateEmailRecord};
use lowboy::model::id::Id;
use lowboy::model::post::{NewPost, Post};
use lowboy::model::role::{
    distinct_permissions, distinct_roles, Permission, Role, RoleRecord, UpdatePermissionRecord, UpdateRoleRecord,
};
use lowboy::model::token::{Token, TokenRecord};
use lowboy::model::unverified_email::{Error as VerifyError, UnverifiedEmail};
use lowboy::model::user::{CreateUserRecord, UpdateUserRecord, User, UserModel, UserRecord};

fn email(address: &str) -> Email {
    Email { id: 3, user_id: 9, address: address.to_string(), verified: false }
}

fn user() -> User {
    User {
        id: 9,
        username: "gina".to_string(),
        email: email("user@example.com"),
        password: Some("hash".to_string()),
        access_token: None,
        roles: None,
        permissions: None,
    }
}

fn role(id: i32, name: &str) -> Role {
    Role { id, name: name.to_string() }
}

#[test]
fn token_verification() {
    let t = Token { id: 1, user_id: 2, secret: "s3cr3t".to_string(), expiration: 0 };
    assert!(t.verify("s3cr3t"));
    assert!(!t.verify("s3cr3"));
    assert!(!t.verify("s3cr3t!"));
    assert!(!t.verify(""));
}

#[test]
fn unverified_email_token_check() {
    let pending = UnverifiedEmail {
        id: 1,
        user_id: 2,
        address: "a@example.com".to_string(),
        token: Token { id: 5, user_id: 2, secret: "tok".to_string(), expiration: 0 },
    };
    assert!(pending.check_token("tok").is_ok());
    assert!(matches!(pending.check_token("nope"), Err(VerifyError::TokenVerification)));
    let e: Email = pending.into();
    assert_eq!(e.address, "a@example.com");
    assert!(!e.verified);
}

#[test]
fn id_display_and_conversion() {
    assert_eq!(Id::from(42).display(), "42");
    assert_eq!(Id(Some(0)).display(), "0");
    assert_eq!(Id(Some(-7)).display(), "-7");
    assert_eq!(Id(Some(i64::MIN)).display(), i64::MIN.to_string());
    assert_eq!(Id(Some(i64::MAX)).display(), i64::MAX.to_string());
    assert_eq!(Id(None).display(), "None");
    assert_eq!(Id::default().value(), &None);
    assert_eq!(Id::from(5).value(), &Some(5));
}

#[test]
fn user_roles_and_permissions() {
    let mut u = user();
    assert!(!u.has_role("authenticated"));
    assert!(!u.is_authenticated());
    assert!(!u.has_permission("post"));
    u.set_roles(vec![role(1, "unverified")]);
    assert!(u.has_role("unverified"));
    assert!(!u.is_authenticated());
    u.set_roles(vec![role(1, "admin"), role(2, "authenticated")]);
    assert!(u.is_authenticated());
    assert!(!u.has_role("unverified"));
    u.set_permissions(vec![Permission { id: 1, name: "post".to_string() }]);
    assert!(u.has_permission("post"));
    assert!(!u.has_permission("delete"));
    assert!(u.has_role("admin"));
}

#[test]
fn user_accessors() {
    let u = user();
    assert_eq!(u.id(), 9);
    assert_eq!(u.username(), "gina");
    assert_eq!(u.email().address, "user@example.com");
    assert_eq!(u.password(), Some(&"hash".to_string()));
    assert_eq!(u.access_token(), None);
    assert!(u.roles().is_none());
    assert!(u.permissions().is_none());
}

#[test]
fn user_gravatar_url() {
    assert_eq!(
        user().gravatar(),
        "https://www.gravatar.com/avatar/b4c9a289323b21a01c3e940f150eb9b8c542587f1abfd8f0e1cc1ffc5e475514?s=256&r=pg&d=mp"
    );
}

#[test]
fn session_auth_hash_prefers_access_token() {
    let mut u = user();
    assert_eq!(u.session_auth_hash(), "hash");
    u.access_token = Some("token".to_string());
    assert_eq!(u.session_auth_hash(), "token");
    u.access_token = None;
    u.password = None;
    assert_eq!(u.session_auth_hash(), "");
}

#[test]
fn user_records() {
    let u = user();
    let update = u.update_record();
    assert_eq!(update.id, 9);
    assert_eq!(update.username, "gina");
    assert_eq!(update.password, Some("hash"));
    assert_eq!(update.access_token, None);
    let update = UpdateUserRecord::new(4).with_username("h").with_password("p").with_access_token("t");
    assert_eq!((update.id, update.username, update.password, update.access_token), (4, "h", Some("p"), Some("t")));
    let create = CreateUserRecord::new("i").with_password("p").with_access_token("t");
    assert_eq!((create.username, create.password, create.access_token), ("i", Some("p"), Some("t")));
    let record: UserRecord = u.into();
    assert_eq!(record.username, "gina");
    let again = User::from_parts(record, email("x@example.com"));
    assert!(again.roles.is_none());
    assert_eq!(again.email.address, "x@example.com");
    assert_eq!(User::create_record("j").username, "j");
    let defaults = UserRecord::default();
    assert_eq!(defaults.update().username, "");
}

#[test]
fn email_records() {
    let record = EmailRecord { id: 1, user_id: 2, address: "a@example.com".to_string(), verified: true };
    let update = record.update();
    assert_eq!((update.id, update.verified), (1, Some(true)));
    let e: Email = record.into();
    assert_eq!(e.display(), "a@example.com");
    let u = UpdateEmailRecord::new(3);
    assert_eq!(u.verified, None);
    assert_eq!(u.with_verified(true).verified, Some(true));
    let c = CreateEmailRecord::new(5, "b@example.com");
    assert_eq!((c.user_id, c.address), (5, "b@example.com"));
    assert_eq!(Email::create_record(6, "c@example.com").user_id, 6);
    assert_eq!(UpdateEmailRecord::from_email(&e).verified, Some(true));
    let back: EmailRecord = e.into();
    assert_eq!(back.id, 1);
}

#[test]
fn role_and_permission_records() {
    let r = role(4, "editor");
    let update = r.update_record();
    assert_eq!((update.id, update.name), (4, Some("editor")));
    let renamed = UpdateRoleRecord::new(4).with_name("writer");
    assert_eq!(renamed.name, Some("writer"));
    let record: RoleRecord = r.clone().into();
    assert_eq!(record.name, "editor");
    assert_eq!(Role::from(record).id, 4);
    assert_eq!(Role::create_record("x").name, "x");
    let p = Permission { id: 2, name: "post".to_string() };
    assert_eq!(p.update_record().name, Some("post"));
    assert_eq!(UpdatePermissionRecord::new(2).with_name("y").name, Some("y"));
}

#[test]
fn token_records() {
    let record = TokenRecord { id: 1, user_id: 2, secret: "s".to_string(), expiration: 10 };
    let t: Token = record.into();
    assert_eq!(t.secret, "s");
    let c = Token::create_record(2, "s", 11);
    assert_eq!((c.user_id, c.secret, c.expiration), (2, "s", 11));
}

#[test]
fn posts() {
    let p = Post { id: 1, user_id: 2, content: "hello".to_string() };
    assert_eq!(p.content(), "hello");
    let n = NewPost::new(2, "world");
    assert_eq!((n.user_id, n.content), (2, "world"));
}

#[test]
fn verification_token_lasts_a_day() {
    let t = lowboy::model::unverified_email::verification_token(3, "s3cret", 1_700_000_000_000_000);
    assert_eq!(t.user_id, 3);
    assert_eq!(t.secret, "s3cret");
    assert_eq!(t.expiration, 1_700_086_400_000_000);
    assert_eq!(lowboy::model::unverified_email::TOKEN_LIFETIME_MICROS, 86_400_000_000);
}

#[test]
fn roles_and_permissions_kept_once() {
    let roles = distinct_roles(vec![role(1, "admin"), role(2, "authenticated"), role(1, "admin")]);
    let names: Vec<_> = roles.iter().map(|r| (r.id, r.name.clone())).collect();
    assert_eq!(names, vec![(1, "admin".to_string()), (2, "authenticated".to_string())]);
    let perms = distinct_permissions(vec![
        Permission { id: 4, name: "post".to_string() },
        Permission { id: 4, name: "post".to_string() },
        Permission { id: 5, name: "post".to_string() },
    ]);
    let names: Vec<_> = perms.iter().map(|p| (p.id, p.name.clone())).collect();
    assert_eq!(names, vec![(4, "post".to_string()), (5, "post".to_string())]);
    assert!(distinct_roles(Vec::new()).is_empty());
}

#[test]
fn session_secret_order() {
    use_secret(Some("tok"), Some("hash"), "tok");
    use_secret(None, Some("hash"), "hash");
    use_secret(None, None, "");
}

fn use_secret(token: Option<&str>, password: Option<&str>, expected: &str) {
    let token = token.map(str::to_string);
    let password = password.map(str::to_string);
    assert_eq!(lowboy::model::user::session_secret(&token, &password), expected);
}
