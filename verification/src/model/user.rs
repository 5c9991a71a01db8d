//! Users: their accessors, the roles and permissions they hold, their
//! avatar, the secret their sessions are bound to, and the records that
//! create and change them.

use vstd::prelude::*;
use super::email::Email;
use super::role::{permissions_distinct, roles_distinct, Permission, Role};
use crate::text::str_eq;
use gravatar_api::avatars::Avatar;
use gravatar_api::avatars::Default::{
    Blank, Http404, Identicon, MonsterId, MysteryPerson, Retro, RoboHash, Wavatar,
};
use gravatar_api::avatars::Rating::{G, Pg, R, X};

verus! {

/// The content ratings Gravatar filters avatars by.
#[derive(Clone, Copy, Debug, PartialEq, Eq, Structural)]
pub enum AvatarRating {
    G,
    Pg,
    R,
    X,
}

/// The images Gravatar shows for an address that has no avatar.
#[derive(Clone, Copy, Debug, PartialEq, Eq, Structural)]
pub enum AvatarFallback {
    Http404,
    Blank,
    MysteryPerson,
    Identicon,
    MonsterId,
    Wavatar,
    Retro,
    RoboHash,
}

/// The Gravatar image URL `gravatar_api` builds for an address, a size, a
/// rating and a fallback image.
pub uninterp spec fn gravatar_url(
    address: Seq<char>,
    size: u16,
    rating: AvatarRating,
    fallback: AvatarFallback,
) -> Seq<char>;

/// Calls `gravatar_api::avatars::Avatar::builder(..).size(..).default(..)
/// .rating(..).build().image_url()` and renders the URL as text. Claimed:
/// the text is `gravatar_url` of the arguments (the crate hashes the address
/// and appends the options as query parameters).
#[verifier::external_body]
fn gravatar_image_url(
    address: &str,
    size: u16,
    rating: AvatarRating,
    fallback: AvatarFallback,
) -> (url: String)
    ensures
        url@ == gravatar_url(address@, size, rating, fallback),
{
    let r = match rating { AvatarRating::G => G, AvatarRating::Pg => Pg, AvatarRating::R => R, AvatarRating::X => X };
    let d = match fallback {
        AvatarFallback::Http404 => Http404, AvatarFallback::Blank => Blank,
        AvatarFallback::MysteryPerson => MysteryPerson, AvatarFallback::Identicon => Identicon,
        AvatarFallback::MonsterId => MonsterId, AvatarFallback::Wavatar => Wavatar,
        AvatarFallback::Retro => Retro, AvatarFallback::RoboHash => RoboHash,
    };
    Avatar::builder(address).size(size).default(d).rating(r).build().image_url().to_string()
}

/// Whether one of `roles` is named `name`.
pub open spec fn has_role_named(roles: Seq<Role>, name: Seq<char>) -> bool {
    exists|i: int| 0 <= i < roles.len() && #[trigger] roles[i].name@ == name
}

/// Whether one of `permissions` is named `name`.
pub open spec fn has_permission_named(permissions: Seq<Permission>, name: Seq<char>) -> bool {
    exists|i: int| 0 <= i < permissions.len() && #[trigger] permissions[i].name@ == name
}

/// Whether a user's roles, if loaded, include one named `name`.
pub open spec fn roles_hold(roles: Option<Seq<Role>>, name: Seq<char>) -> bool {
    roles matches Some(rs) && has_role_named(rs, name)
}

/// Whether a user's permissions, if loaded, include one named `name`.
pub open spec fn permissions_hold(permissions: Option<Seq<Permission>>, name: Seq<char>) -> bool {
    permissions matches Some(ps) && has_permission_named(ps, name)
}

/// The role every verified user holds.
pub open spec fn authenticated_role() -> Seq<char> {
    "authenticated"@
}

/// Whether `name` is the name of one of `roles`.
fn any_role_named(roles: &Vec<Role>, name: &str) -> (r: bool)
    ensures
        r == has_role_named(roles@, name@),
{
    let mut i: usize = 0;
    while i < roles.len()
        invariant
            i <= roles@.len(),
            forall|j: int| 0 <= j < i ==> #[trigger] roles@[j].name@ != name@,
        decreases roles@.len() - i,
    {
        if str_eq(roles[i].name.as_str(), name) {
            return true;
        }
        i = i + 1;
    }
    false
}

/// Whether `name` is the name of one of `permissions`.
fn any_permission_named(permissions: &Vec<Permission>, name: &str) -> (r: bool)
    ensures
        r == has_permission_named(permissions@, name@),
{
    let mut i: usize = 0;
    while i < permissions.len()
        invariant
            i <= permissions@.len(),
            forall|j: int| 0 <= j < i ==> #[trigger] permissions@[j].name@ != name@,
        decreases permissions@.len() - i,
    {
        if str_eq(permissions[i].name.as_str(), name) {
            return true;
        }
        i = i + 1;
    }
    false
}

/// The optional view of a loaded list.
pub open spec fn loaded<T>(v: Option<Vec<T>>) -> Option<Seq<T>> {
    match v {
        Some(v) => Some(v@),
        None => None,
    }
}

/// What an application's user type provides to the framework.
pub trait UserModel: Sized {
    /// The address of this user.
    spec fn spec_email(&self) -> Email;

    /// The roles of this user, if they were loaded.
    spec fn spec_roles(&self) -> Option<Seq<Role>>;

    /// The permissions of this user, if they were loaded.
    spec fn spec_permissions(&self) -> Option<Seq<Permission>>;

    fn id(&self) -> i32;

    fn username(&self) -> &String;

    fn email(&self) -> (e: &Email)
        ensures
            *e == self.spec_email(),
    ;

    fn password(&self) -> Option<&String>;

    fn access_token(&self) -> Option<&String>;

    /// The URL of this user's Gravatar image: 256 pixels, rated PG, a
    /// silhouette when the address has none.
    fn gravatar(&self) -> (url: String)
        ensures
            url@ == gravatar_url(
                self.spec_email().address@,
                256,
                AvatarRating::Pg,
                AvatarFallback::MysteryPerson,
            ),
    {
        gravatar_image_url(
            self.email().address.as_str(),
            256,
            AvatarRating::Pg,
            AvatarFallback::MysteryPerson,
        )
    }

    fn roles(&self) -> (r: Option<&Vec<Role>>)
        ensures
            match r {
                Some(v) => self.spec_roles() == Some(v@),
                None => self.spec_roles() is None,
            },
    ;

    /// Replaces this user's roles with a set of roles.
    fn set_roles(&mut self, roles: Vec<Role>)
        requires
            roles_distinct(roles@),
        ensures
            final(self).spec_roles() == Some(roles@),
            final(self).spec_permissions() == old(self).spec_permissions(),
            final(self).spec_email() == old(self).spec_email(),
    ;

    fn permissions(&self) -> (r: Option<&Vec<Permission>>)
        ensures
            match r {
                Some(v) => self.spec_permissions() == Some(v@),
                None => self.spec_permissions() is None,
            },
    ;

    /// Replaces this user's permissions with a set of permissions.
    fn set_permissions(&mut self, permissions: Vec<Permission>)
        requires
            permissions_distinct(permissions@),
        ensures
            final(self).spec_permissions() == Some(permissions@),
            final(self).spec_roles() == old(self).spec_roles(),
            final(self).spec_email() == old(self).spec_email(),
    ;

    /// Whether this user's loaded roles include one named `role`; false when
    /// the roles were not loaded.
    fn has_role(&self, role: &str) -> (r: bool)
        ensures
            r == roles_hold(self.spec_roles(), role@),
    {
        match self.roles() {
            Some(roles) => any_role_named(roles, role),
            None => false,
        }
    }

    /// Whether this user's loaded permissions include one named
    /// `permission`; false when they were not loaded.
    fn has_permission(&self, permission: &str) -> (r: bool)
        ensures
            r == permissions_hold(self.spec_permissions(), permission@),
    {
        match self.permissions() {
            Some(permissions) => any_permission_named(permissions, permission),
            None => false,
        }
    }

    /// Whether this user holds the `authenticated` role.
    fn is_authenticated(&self) -> (r: bool)
        ensures
            r == roles_hold(self.spec_roles(), authenticated_role()),
    {
        self.has_role("authenticated")
    }
}

/// A user with their address and, once loaded, their roles and
/// permissions.
pub struct User {
    pub id: i32,
    pub username: String,
    pub email: Email,
    pub password: Option<String>,
    pub access_token: Option<String>,
    pub roles: Option<Vec<Role>>,
    pub permissions: Option<Vec<Permission>>,
}

/// The secret a user's sessions are bound to: the access token if there is
/// one, else the password hash, else nothing.
pub open spec fn spec_session_secret(access_token: Option<String>, password: Option<String>) -> Seq<
    char,
> {
    match access_token {
        Some(t) => t@,
        None => match password {
            Some(p) => p@,
            None => Seq::empty(),
        },
    }
}

/// A user's sessions are bound to their access token when they have one,
/// else to their password hash, else to the empty text.
pub proof fn lemma_session_secret_order(access_token: Option<String>, password: Option<String>)
    ensures
        access_token matches Some(t) ==> spec_session_secret(access_token, password) == t@,
        access_token is None ==> (password matches Some(h) ==> spec_session_secret(
            access_token,
            password,
        ) == h@),
        access_token is None && password is None ==> spec_session_secret(access_token, password).len()
            == 0,
{
}

impl UserModel for User {
    open spec fn spec_email(&self) -> Email {
        self.email
    }

    open spec fn spec_roles(&self) -> Option<Seq<Role>> {
        loaded(self.roles)
    }

    open spec fn spec_permissions(&self) -> Option<Seq<Permission>> {
        loaded(self.permissions)
    }

    fn id(&self) -> (r: i32)
        ensures
            r == self.id,
    {
        self.id
    }

    fn username(&self) -> (r: &String)
        ensures
            *r == self.username,
    {
        &self.username
    }

    fn email(&self) -> (e: &Email) {
        &self.email
    }

    fn password(&self) -> (r: Option<&String>)
        ensures
            match r {
                Some(p) => self.password == Some(*p),
                None => self.password is None,
            },
    {
        self.password.as_ref()
    }

    fn access_token(&self) -> (r: Option<&String>)
        ensures
            match r {
                Some(t) => self.access_token == Some(*t),
                None => self.access_token is None,
            },
    {
        self.access_token.as_ref()
    }

    fn roles(&self) -> (r: Option<&Vec<Role>>) {
        self.roles.as_ref()
    }

    fn set_roles(&mut self, roles: Vec<Role>)
        ensures
            old(self).wf() ==> final(self).wf(),
            final(self).id == old(self).id,
            final(self).username == old(self).username,
            final(self).password == old(self).password,
            final(self).access_token == old(self).access_token,
    {
        self.roles = Some(roles);
    }

    fn permissions(&self) -> (r: Option<&Vec<Permission>>) {
        self.permissions.as_ref()
    }

    fn set_permissions(&mut self, permissions: Vec<Permission>)
        ensures
            old(self).wf() ==> final(self).wf(),
            final(self).id == old(self).id,
            final(self).username == old(self).username,
            final(self).password == old(self).password,
            final(self).access_token == old(self).access_token,
    {
        self.permissions = Some(permissions);
    }
}

impl User {
    /// A user is well formed when the roles and the permissions it holds,
    /// once loaded, are sets: no role and no permission occurs twice.
    pub open spec fn wf(&self) -> bool {
        &&& (self.roles matches Some(rs) ==> roles_distinct(rs@))
        &&& (self.permissions matches Some(ps) ==> permissions_distinct(ps@))
    }

    /// A user read from their stored row and address; roles and
    /// permissions are not loaded.
    pub fn from_parts(record: UserRecord, email: Email) -> (u: Self)
        ensures
            u.wf(),
            u.id == record.id,
            u.username == record.username,
            u.email == email,
            u.password == record.password,
            u.access_token == record.access_token,
            u.roles is None,
            u.permissions is None,
    {
        User {
            id: record.id,
            username: record.username,
            email,
            password: record.password,
            access_token: record.access_token,
            roles: None,
            permissions: None,
        }
    }

    /// The secret this user's sessions are bound to.
    pub fn session_auth_hash(&self) -> (s: &str)
        ensures
            s@ == spec_session_secret(self.access_token, self.password),
    {
        session_secret(&self.access_token, &self.password)
    }
}

/// The secret a user's sessions are bound to: their access token when they
/// have one, else their password hash, else the empty text.
pub fn session_secret<'a>(access_token: &'a Option<String>, password: &'a Option<String>) -> (s: &'a str)
    ensures
        s@ == spec_session_secret(*access_token, *password),
{
    if let Some(access_token) = access_token {
        return access_token.as_str();
    }
    if let Some(password) = password {
        return password.as_str();
    }
    proof {
        reveal_strlit("");
    }
    ""
}

/// A user row as stored.
pub struct UserRecord {
    pub id: i32,
    pub username: String,
    pub password: Option<String>,
    pub access_token: Option<String>,
}

impl Default for UserRecord {
    fn default() -> (r: Self)
        ensures
            r.id == 0,
            r.username@ == Seq::<char>::empty(),
            r.password is None,
            r.access_token is None,
    {
        UserRecord { id: 0, username: String::new(), password: None, access_token: None }
    }
}

impl From<User> for UserRecord {
    fn from(value: User) -> (r: Self) {
        UserRecord {
            id: value.id,
            username: value.username,
            password: value.password,
            access_token: value.access_token,
        }
    }
}

impl vstd::std_specs::convert::FromSpecImpl<User> for UserRecord {
    open spec fn obeys_from_spec() -> bool {
        true
    }

    open spec fn from_spec(value: User) -> UserRecord {
        UserRecord {
            id: value.id,
            username: value.username,
            password: value.password,
            access_token: value.access_token,
        }
    }
}

/// The optional text of an optional string slice.
pub open spec fn opt_str_view(s: Option<&str>) -> Option<Seq<char>> {
    match s {
        Some(s) => Some(s@),
        None => None,
    }
}

/// The optional text of an optional string.
pub open spec fn opt_string_view(s: Option<String>) -> Option<Seq<char>> {
    match s {
        Some(s) => Some(s@),
        None => None,
    }
}

/// Borrows the text of an optional string.
fn as_deref<'a>(s: &'a Option<String>) -> (r: Option<&'a str>)
    ensures
        opt_str_view(r) == opt_string_view(*s),
{
    match s {
        Some(s) => Some(s.as_str()),
        None => None,
    }
}

/// A user to be stored.
pub struct CreateUserRecord<'a> {
    pub username: &'a str,
    pub password: Option<&'a str>,
    pub access_token: Option<&'a str>,
}

impl<'a> CreateUserRecord<'a> {
    pub fn new(username: &'a str) -> (r: CreateUserRecord<'a>)
        ensures
            r.username == username,
            r.password is None,
            r.access_token is None,
    {
        CreateUserRecord { username, password: None, access_token: None }
    }

    pub fn with_password(self, password: &'a str) -> (r: CreateUserRecord<'a>)
        ensures
            r.username == self.username,
            r.password == Some(password),
            r.access_token == self.access_token,
    {
        CreateUserRecord { password: Some(password), ..self }
    }

    pub fn with_access_token(self, access_token: &'a str) -> (r: CreateUserRecord<'a>)
        ensures
            r.username == self.username,
            r.password == self.password,
            r.access_token == Some(access_token),
    {
        CreateUserRecord { access_token: Some(access_token), ..self }
    }
}

/// A change to a stored user: every field the row is set to.
pub struct UpdateUserRecord<'a> {
    pub id: i32,
    pub username: &'a str,
    pub password: Option<&'a str>,
    pub access_token: Option<&'a str>,
}

impl<'a> UpdateUserRecord<'a> {
    pub fn new(id: i32) -> (r: Self)
        ensures
            r.id == id,
            r.username@ == Seq::<char>::empty(),
            r.password is None,
            r.access_token is None,
    {
        proof {
            reveal_strlit("");
        }
        UpdateUserRecord { id, username: "", password: None, access_token: None }
    }

    pub fn from_user(user: &'a User) -> (r: Self)
        ensures
            r.id == user.id,
            r.username@ == user.username@,
            opt_str_view(r.password) == opt_string_view(user.password),
            opt_str_view(r.access_token) == opt_string_view(user.access_token),
    {
        UpdateUserRecord {
            id: user.id,
            username: user.username.as_str(),
            password: as_deref(&user.password),
            access_token: as_deref(&user.access_token),
        }
    }

    pub fn from_record(record: &'a UserRecord) -> (r: Self)
        ensures
            r.id == record.id,
            r.username@ == record.username@,
            opt_str_view(r.password) == opt_string_view(record.password),
            opt_str_view(r.access_token) == opt_string_view(record.access_token),
    {
        UpdateUserRecord {
            id: record.id,
            username: record.username.as_str(),
            password: as_deref(&record.password),
            access_token: as_deref(&record.access_token),
        }
    }

    pub fn with_username(self, username: &'a str) -> (r: Self)
        ensures
            r.id == self.id,
            r.username == username,
            r.password == self.password,
            r.access_token == self.access_token,
    {
        UpdateUserRecord { username, ..self }
    }

    pub fn with_password(self, password: &'a str) -> (r: Self)
        ensures
            r.id == self.id,
            r.username == self.username,
            r.password == Some(password),
            r.access_token == self.access_token,
    {
        UpdateUserRecord { password: Some(password), ..self }
    }

    pub fn with_access_token(self, access_token: &'a str) -> (r: Self)
        ensures
            r.id == self.id,
            r.username == self.username,
            r.password == self.password,
            r.access_token == Some(access_token),
    {
        UpdateUserRecord { access_token: Some(access_token), ..self }
    }
}

impl UserRecord {
    pub fn create<'a>(username: &'a str) -> (r: CreateUserRecord<'a>)
        ensures
            r.username == username,
            r.password is None,
            r.access_token is None,
    {
        CreateUserRecord::new(username)
    }

    pub fn update<'a>(&'a self) -> (r: UpdateUserRecord<'a>)
        ensures
            r.id == self.id,
            r.username@ == self.username@,
            opt_str_view(r.password) == opt_string_view(self.password),
            opt_str_view(r.access_token) == opt_string_view(self.access_token),
    {
        UpdateUserRecord::from_record(self)
    }
}

impl User {
    pub fn create_record<'a>(username: &'a str) -> (r: CreateUserRecord<'a>)
        ensures
            r.username == username,
            r.password is None,
            r.access_token is None,
    {
        CreateUserRecord::new(username)
    }

    pub fn update_record<'a>(&'a self) -> (r: UpdateUserRecord<'a>)
        ensures
            r.id == self.id,
            r.username@ == self.username@,
            opt_str_view(r.password) == opt_string_view(self.password),
            opt_str_view(r.access_token) == opt_string_view(self.access_token),
    {
        UpdateUserRecord::from_user(self)
    }
}

/// Replacing a user's roles changes what `has_role` answers to exactly the
/// names of the new roles, and leaves their permissions alone.
pub proof fn lemma_set_roles_then_has_role(before: User, after: User, roles: Seq<Role>, name: Seq<char>)
    requires
        after.spec_roles() == Some(roles),
        after.spec_permissions() == before.spec_permissions(),
    ensures
        roles_hold(after.spec_roles(), name) <==> has_role_named(roles, name),
        permissions_hold(after.spec_permissions(), name) == permissions_hold(before.spec_permissions(), name),
{
}

/// A user whose roles were never loaded holds no role and no permission,
/// and is not authenticated.
pub proof fn lemma_unloaded_user_holds_nothing(u: User, name: Seq<char>)
    requires
        u.roles is None,
        u.permissions is None,
    ensures
        !roles_hold(u.spec_roles(), name),
        !permissions_hold(u.spec_permissions(), name),
        !roles_hold(u.spec_roles(), authenticated_role()),
{
}

} // verus!
