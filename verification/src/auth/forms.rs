//! The registration and login forms, their accessors and their validation
//! rules.

use vstd::prelude::*;
use vstd::string::StringExecFns;
use crate::validation::{check_email, check_length, field_errors_view, push_error, valid_email, FieldError};

verus! {

/// A form that registers a new local account.
pub trait RegistrationForm {
    fn empty() -> Self where Self: Sized;

    fn username(&self) -> &String;

    fn email(&self) -> &String;

    fn password(&self) -> &String;

    fn next(&self) -> &Option<String>;

    fn set_next(&mut self, next: Option<String>);
}

/// A form that logs in with a username and a password.
pub trait LoginForm {
    fn empty() -> Self where Self: Sized;

    fn username(&self) -> &String;

    fn password(&self) -> &String;

    fn next(&self) -> &Option<String>;

    fn set_next(&mut self, next: Option<String>);
}

/// The registration form the framework provides.
pub struct LowboyRegisterForm {
    pub username: String,
    pub email: String,
    password: String,
    next: Option<String>,
}

/// The login form the framework provides.
pub struct LowboyLoginForm {
    pub username: String,
    password: String,
    next: Option<String>,
}

/// What a registration form holds, as text.
pub struct RegisterFormView {
    pub username: Seq<char>,
    pub email: Seq<char>,
    pub password: Seq<char>,
    pub next: Option<Seq<char>>,
}

/// What a login form holds, as text.
pub struct LoginFormView {
    pub username: Seq<char>,
    pub password: Seq<char>,
    pub next: Option<Seq<char>>,
}

impl View for LowboyRegisterForm {
    type V = RegisterFormView;

    closed spec fn view(&self) -> RegisterFormView {
        RegisterFormView {
            username: self.username@,
            email: self.email@,
            password: self.password@,
            next: next_view(self.next),
        }
    }
}

impl View for LowboyLoginForm {
    type V = LoginFormView;

    closed spec fn view(&self) -> LoginFormView {
        LoginFormView {
            username: self.username@,
            password: self.password@,
            next: next_view(self.next),
        }
    }
}

/// A copy of an optional text.
fn clone_next(next: &Option<String>) -> (r: Option<String>)
    ensures
        next_view(r) == next_view(*next),
{
    match next {
        Some(n) => Some(n.clone()),
        None => None,
    }
}

impl Clone for LowboyRegisterForm {
    fn clone(&self) -> (f: Self)
        ensures
            f@ == self@,
    {
        LowboyRegisterForm {
            username: self.username.clone(),
            email: self.email.clone(),
            password: self.password.clone(),
            next: clone_next(&self.next),
        }
    }
}

impl Clone for LowboyLoginForm {
    fn clone(&self) -> (f: Self)
        ensures
            f@ == self@,
    {
        LowboyLoginForm {
            username: self.username.clone(),
            password: self.password.clone(),
            next: clone_next(&self.next),
        }
    }
}

/// The optional text of a `next` field.
pub open spec fn next_view(next: Option<String>) -> Option<Seq<char>> {
    match next {
        Some(n) => Some(n@),
        None => None,
    }
}

pub open spec fn username_message() -> Seq<char> {
    "Username must be between 1 and 32 characters"@
}

pub open spec fn email_message() -> Seq<char> {
    "Email provided is not valid"@
}

pub open spec fn password_length_message() -> Seq<char> {
    "Password must be at least 8 characters"@
}

pub open spec fn username_required_message() -> Seq<char> {
    "Username is required"@
}

pub open spec fn password_required_message() -> Seq<char> {
    "Password is required"@
}

/// The errors of a registration form, field by field in declaration order:
/// a username of 1 to 32 characters, a valid e-mail address and a password
/// of at least 8 characters.
pub open spec fn register_form_errors(
    username: Seq<char>,
    email: Seq<char>,
    password: Seq<char>,
) -> Seq<(Seq<char>, Seq<char>)> {
    (if 1 <= username.len() <= 32 {
        Seq::empty()
    } else {
        seq![("username"@, username_message())]
    }) + (if valid_email(email) {
        Seq::empty()
    } else {
        seq![("email"@, email_message())]
    }) + (if password.len() >= 8 {
        Seq::empty()
    } else {
        seq![("password"@, password_length_message())]
    })
}

/// The errors of a login form: both fields are required.
pub open spec fn login_form_errors(username: Seq<char>, password: Seq<char>) -> Seq<
    (Seq<char>, Seq<char>),
> {
    (if username.len() >= 1 {
        Seq::empty()
    } else {
        seq![("username"@, username_required_message())]
    }) + (if password.len() >= 1 {
        Seq::empty()
    } else {
        seq![("password"@, password_required_message())]
    })
}

/// How `Debug` writes an optional text.
pub uninterp spec fn option_debug_text(next: Option<Seq<char>>) -> Seq<char>;

/// Whether `Debug` writes a character of a text as itself: printable ASCII
/// other than the double quote and the backslash.
pub open spec fn debug_plain_char(c: char) -> bool {
    0x20 <= (c as int) <= 0x7e && c != '"' && c != '\\'
}

/// Calls `format!` with `{:?}` on an optional text, which writes its
/// `Debug` text. Claimed: the text is a function of the value alone, named
/// `option_debug_text`; `None` is written `None`, and a text made only of
/// characters that `Debug` leaves unescaped is written `Some("` + text +
/// `")`. How other characters are escaped is not stated.
#[verifier::external_body]
fn debug_next(next: &Option<String>) -> (text: String)
    ensures
        text@ == option_debug_text(next_view(*next)),
        match next {
            None => text@ == "None"@,
            Some(n) => (forall|i: int| 0 <= i < n@.len() ==> debug_plain_char(#[trigger] n@[i]))
                ==> text@ == "Some(\""@ + n@ + "\")"@,
        },
{
    format!("{:?}", next)
}

/// The text a registration form is shown as, with the password redacted.
pub open spec fn register_form_text(f: RegisterFormView) -> Seq<char> {
    "Username: "@ + f.username + " Email: "@ + f.email + " Password: REDACTED Next: "@
        + option_debug_text(f.next)
}

/// The text a login form is shown as, with the password redacted.
pub open spec fn login_form_text(f: LoginFormView) -> Seq<char> {
    "Username: "@ + f.username + " Password: REDACTED Next: "@ + option_debug_text(f.next)
}

impl LowboyRegisterForm {
    /// This form as text: its username, address and `next`, never its
    /// password.
    pub fn display(&self) -> (d: String)
        ensures
            d@ == register_form_text(self@),
    {
        let next = debug_next(&self.next);
        "Username: ".to_owned().concat(self.username.as_str()).concat(" Email: ").concat(
            self.email.as_str(),
        ).concat(" Password: REDACTED Next: ").concat(next.as_str())
    }

    /// A form holding the given fields.
    pub fn new(username: String, email: String, password: String, next: Option<String>) -> (f:
        Self)
        ensures
            f@ == (RegisterFormView {
                username: username@,
                email: email@,
                password: password@,
                next: next_view(next),
            }),
    {
        LowboyRegisterForm { username, email, password, next }
    }

    /// The field errors of this form, empty when it is valid.
    pub open spec fn errors(&self) -> Seq<(Seq<char>, Seq<char>)> {
        register_form_errors(self@.username, self@.email, self@.password)
    }

    /// Checks the form's rules; on failure, lists each failed rule in field
    /// order with its message.
    pub fn validate(&self) -> (r: Result<(), Vec<FieldError>>)
        ensures
            r is Ok <==> self.errors().len() == 0,
            r matches Err(es) ==> field_errors_view(es@) == self.errors(),
    {
        let mut errors: Vec<FieldError> = Vec::new();
        assert(field_errors_view(errors@) =~= Seq::empty());
        let ghost e1: Seq<(Seq<char>, Seq<char>)> = if 1 <= self@.username.len() <= 32 {
            Seq::empty()
        } else {
            seq![("username"@, username_message())]
        };
        let ghost e2: Seq<(Seq<char>, Seq<char>)> = if valid_email(self@.email) {
            Seq::empty()
        } else {
            seq![("email"@, email_message())]
        };
        let ghost e3: Seq<(Seq<char>, Seq<char>)> = if self@.password.len() >= 8 {
            Seq::empty()
        } else {
            seq![("password"@, password_length_message())]
        };
        if !check_length(self.username.as_str(), Some(1), Some(32)) {
            push_error(&mut errors, "username", "Username must be between 1 and 32 characters");
        }
        assert(field_errors_view(errors@) =~= e1);
        if !check_email(self.email.as_str()) {
            push_error(&mut errors, "email", "Email provided is not valid");
        }
        assert(field_errors_view(errors@) =~= e1 + e2);
        if !check_length(self.password.as_str(), Some(8), None) {
            push_error(&mut errors, "password", "Password must be at least 8 characters");
        }
        assert(field_errors_view(errors@) =~= e1 + e2 + e3);
        assert(self.errors() == e1 + e2 + e3);
        if errors.len() == 0 {
            Ok(())
        } else {
            Err(errors)
        }
    }
}

impl Default for LowboyRegisterForm {
    fn default() -> (f: Self)
        ensures
            f@ == (RegisterFormView {
                username: Seq::empty(),
                email: Seq::empty(),
                password: Seq::empty(),
                next: None,
            }),
    {
        let f = LowboyRegisterForm {
            username: String::new(),
            email: String::new(),
            password: String::new(),
            next: None,
        };
        assert(f@ =~= (RegisterFormView {
            username: Seq::empty(),
            email: Seq::empty(),
            password: Seq::empty(),
            next: None,
        }));
        f
    }
}

impl RegistrationForm for LowboyRegisterForm {
    fn empty() -> (f: Self)
        ensures
            f@ == (RegisterFormView {
                username: Seq::empty(),
                email: Seq::empty(),
                password: Seq::empty(),
                next: None,
            }),
    {
        <Self as Default>::default()
    }

    fn username(&self) -> (u: &String)
        ensures
            u@ == self@.username,
    {
        &self.username
    }

    fn email(&self) -> (e: &String)
        ensures
            e@ == self@.email,
    {
        &self.email
    }

    fn password(&self) -> (p: &String)
        ensures
            p@ == self@.password,
    {
        &self.password
    }

    fn next(&self) -> (n: &Option<String>)
        ensures
            next_view(*n) == self@.next,
    {
        &self.next
    }

    fn set_next(&mut self, next: Option<String>)
        ensures
            final(self)@ == (RegisterFormView { next: next_view(next), ..old(self)@ }),
    {
        self.next = next;
    }
}

impl LowboyLoginForm {
    /// This form as text: its username and `next`, never its password.
    pub fn display(&self) -> (d: String)
        ensures
            d@ == login_form_text(self@),
    {
        let next = debug_next(&self.next);
        "Username: ".to_owned().concat(self.username.as_str()).concat(" Password: REDACTED Next: ")
            .concat(next.as_str())
    }

    /// A form holding the given fields.
    pub fn new(username: String, password: String, next: Option<String>) -> (f: Self)
        ensures
            f@ == (LoginFormView {
                username: username@,
                password: password@,
                next: next_view(next),
            }),
    {
        LowboyLoginForm { username, password, next }
    }

    /// The field errors of this form, empty when it is valid.
    pub open spec fn errors(&self) -> Seq<(Seq<char>, Seq<char>)> {
        login_form_errors(self@.username, self@.password)
    }

    /// Checks the form's rules; on failure, lists each failed rule in field
    /// order with its message.
    pub fn validate(&self) -> (r: Result<(), Vec<FieldError>>)
        ensures
            r is Ok <==> self.errors().len() == 0,
            r matches Err(es) ==> field_errors_view(es@) == self.errors(),
    {
        let mut errors: Vec<FieldError> = Vec::new();
        assert(field_errors_view(errors@) =~= Seq::empty());
        let ghost e1: Seq<(Seq<char>, Seq<char>)> = if self@.username.len() >= 1 {
            Seq::empty()
        } else {
            seq![("username"@, username_required_message())]
        };
        let ghost e2: Seq<(Seq<char>, Seq<char>)> = if self@.password.len() >= 1 {
            Seq::empty()
        } else {
            seq![("password"@, password_required_message())]
        };
        if !check_length(self.username.as_str(), Some(1), None) {
            push_error(&mut errors, "username", "Username is required");
        }
        assert(field_errors_view(errors@) =~= e1);
        if !check_length(self.password.as_str(), Some(1), None) {
            push_error(&mut errors, "password", "Password is required");
        }
        assert(field_errors_view(errors@) =~= e1 + e2);
        assert(self.errors() == e1 + e2);
        if errors.len() == 0 {
            Ok(())
        } else {
            Err(errors)
        }
    }
}

impl Default for LowboyLoginForm {
    fn default() -> (f: Self)
        ensures
            f@ == (LoginFormView { username: Seq::empty(), password: Seq::empty(), next: None }),
    {
        let f = LowboyLoginForm { username: String::new(), password: String::new(), next: None };
        assert(f@ =~= (LoginFormView {
            username: Seq::empty(),
            password: Seq::empty(),
            next: None,
        }));
        f
    }
}

impl LoginForm for LowboyLoginForm {
    fn empty() -> (f: Self)
        ensures
            f@ == (LoginFormView { username: Seq::empty(), password: Seq::empty(), next: None }),
    {
        <Self as Default>::default()
    }

    fn username(&self) -> (u: &String)
        ensures
            u@ == self@.username,
    {
        &self.username
    }

    fn password(&self) -> (p: &String)
        ensures
            p@ == self@.password,
    {
        &self.password
    }

    fn next(&self) -> (n: &Option<String>)
        ensures
            next_view(*n) == self@.next,
    {
        &self.next
    }

    fn set_next(&mut self, next: Option<String>)
        ensures
            final(self)@ == (LoginFormView { next: next_view(next), ..old(self)@ }),
    {
        self.next = next;
    }
}

/// A registration form accepts exactly the usernames of 1 to 32 characters,
/// the addresses `validator` accepts and the passwords of at least 8
/// characters.
pub proof fn lemma_register_form_valid_iff(form: LowboyRegisterForm)
    ensures
        form.errors().len() == 0 <==> (1 <= form@.username.len() <= 32 && valid_email(form@.email)
            && form@.password.len() >= 8),
{
}

/// Whether a list of field errors holds the given error.
pub open spec fn reports(errors: Seq<(Seq<char>, Seq<char>)>, field: Seq<char>, message: Seq<char>) -> bool {
    exists|i: int| 0 <= i < errors.len() && errors[i] == (field, message)
}

/// The place of a field in the registration form: username, then e-mail,
/// then password.
pub open spec fn register_field_rank(field: Seq<char>) -> int {
    if field == "username"@ {
        0
    } else if field == "email"@ {
        1
    } else {
        2
    }
}

/// Each rule of the registration form judges its own field alone: the
/// username error is reported exactly when the username does not have 1 to
/// 32 characters, the e-mail error exactly when `validator` refuses the
/// address, and the password error exactly when the password has fewer
/// than 8 characters, whatever the other fields hold. There is one error
/// per failed rule, in field order.
pub proof fn lemma_register_form_rules(form: LowboyRegisterForm)
    ensures
        reports(form.errors(), "username"@, "Username must be between 1 and 32 characters"@) <==> !(1
            <= form@.username.len() <= 32),
        reports(form.errors(), "email"@, "Email provided is not valid"@) <==> !valid_email(
            form@.email,
        ),
        reports(form.errors(), "password"@, "Password must be at least 8 characters"@)
            <==> form@.password.len() < 8,
        form.errors().len() == (if 1 <= form@.username.len() <= 32 {
            0int
        } else {
            1int
        }) + (if valid_email(form@.email) {
            0int
        } else {
            1int
        }) + (if form@.password.len() >= 8 {
            0int
        } else {
            1int
        }),
        forall|i: int, j: int|
            0 <= i < j < form.errors().len() ==> register_field_rank(#[trigger] form.errors()[i].0)
                < register_field_rank(#[trigger] form.errors()[j].0),
{
    reveal_strlit("username");
    reveal_strlit("email");
    reveal_strlit("password");
    let bu = !(1 <= form@.username.len() <= 32);
    let be = !valid_email(form@.email);
    let bp = form@.password.len() < 8;
    let pu = ("username"@, "Username must be between 1 and 32 characters"@);
    let pe = ("email"@, "Email provided is not valid"@);
    let pp = ("password"@, "Password must be at least 8 characters"@);
    let e1: Seq<(Seq<char>, Seq<char>)> = if bu { seq![pu] } else { Seq::empty() };
    let e2: Seq<(Seq<char>, Seq<char>)> = if be { seq![pe] } else { Seq::empty() };
    let e3: Seq<(Seq<char>, Seq<char>)> = if bp { seq![pp] } else { Seq::empty() };
    let errs = form.errors();
    assert(errs =~= e1 + e2 + e3);
    assert("email"@.len() == 5 && "username"@.len() == 8 && "password"@.len() == 8);
    assert("password"@[0] == 'p' && "username"@[0] == 'u');
    assert("email"@ != "username"@ && "password"@ != "username"@ && "password"@ != "email"@);
    assert(register_field_rank(pu.0) == 0);
    assert(register_field_rank(pe.0) == 1);
    assert(register_field_rank(pp.0) == 2);
    assert forall|i: int| 0 <= i < errs.len() implies #[trigger] errs[i] == (if i < e1.len() {
        pu
    } else if i < e1.len() + e2.len() {
        pe
    } else {
        pp
    }) by {}
    if bu {
        assert(errs[0] == pu);
    }
    if be {
        assert(errs[e1.len() as int] == pe);
    }
    if bp {
        assert(errs[(e1.len() + e2.len()) as int] == pp);
    }
    assert(pu != pe && pu != pp && pe != pp);
}

/// Each rule of the login form judges its own field alone: "Username is
/// required" is reported exactly when the username is empty, and "Password
/// is required" exactly when the password is empty, whatever the other
/// field holds; the username's error comes first.
pub proof fn lemma_login_form_rules(form: LowboyLoginForm)
    ensures
        reports(form.errors(), "username"@, "Username is required"@) <==> form@.username.len() == 0,
        reports(form.errors(), "password"@, "Password is required"@) <==> form@.password.len() == 0,
        form.errors().len() == (if form@.username.len() == 0 {
            1int
        } else {
            0int
        }) + (if form@.password.len() == 0 {
            1int
        } else {
            0int
        }),
        form.errors().len() == 2 ==> form.errors()[0].0 == "username"@,
{
    reveal_strlit("username");
    reveal_strlit("password");
    assert("password"@[0] == 'p' && "username"@[0] == 'u');
    assert("password"@ != "username"@);
    let pu = ("username"@, "Username is required"@);
    let pp = ("password"@, "Password is required"@);
    let bu = form@.username.len() == 0;
    let bp = form@.password.len() == 0;
    let e1: Seq<(Seq<char>, Seq<char>)> = if bu { seq![pu] } else { Seq::empty() };
    let e2: Seq<(Seq<char>, Seq<char>)> = if bp { seq![pp] } else { Seq::empty() };
    let errs = form.errors();
    assert(errs =~= e1 + e2);
    assert forall|i: int| 0 <= i < errs.len() implies #[trigger] errs[i] == (if i < e1.len() {
        pu
    } else {
        pp
    }) by {}
    if bu {
        assert(errs[0] == pu);
    }
    if bp {
        assert(errs[e1.len() as int] == pp);
    }
    assert(pu != pp);
}

/// The text a form is shown as never depends on its password: two forms
/// that differ only in their passwords are shown alike, and the password's
/// place reads `REDACTED`. The registration form reads
/// `Username: <username> Email: <email> Password: REDACTED Next: <next>`
/// and the login form the same without the e-mail.
pub proof fn lemma_form_text_hides_password(
    f: RegisterFormView,
    g: RegisterFormView,
    l: LoginFormView,
    k: LoginFormView,
)
    ensures
        f.username == g.username && f.email == g.email && f.next == g.next ==> register_form_text(f)
            == register_form_text(g),
        l.username == k.username && l.next == k.next ==> login_form_text(l) == login_form_text(k),
        register_form_text(f) == "Username: "@ + f.username + " Email: "@ + f.email
            + " Password: REDACTED Next: "@ + option_debug_text(f.next),
        login_form_text(l) == "Username: "@ + l.username + " Password: REDACTED Next: "@
            + option_debug_text(l.next),
{
}

/// A login form is accepted exactly when both fields are filled in.
pub proof fn lemma_login_form_valid_iff(form: LowboyLoginForm)
    ensures
        form.errors().len() == 0 <==> (form@.username.len() >= 1 && form@.password.len() >= 1),
{
}

} // verus!
