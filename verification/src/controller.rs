//! The decisions of the authentication pages: where each request is sent,
//! and which message it leaves for the user.

use vstd::prelude::*;
use vstd::string::StringExecFns;
use crate::validation::FieldError;

verus! {

/// The `next` query parameter of the login and registration pages.
pub struct NextUrl {
    pub next: Option<String>,
}

/// The query a provider's redirect back carries.
pub struct CallbackResp {
    pub code: String,
    pub state: String,
}

/// The form that creates a post.
pub struct PostCreateForm {
    pub message: String,
}

/// The kind of a message left for the user.
#[derive(Clone, Copy, Debug, PartialEq, Eq, Structural)]
pub enum FlashLevel {
    Success,
    Error,
}

/// A message left for the user to see on the next page.
pub struct FlashMessage {
    pub level: FlashLevel,
    pub text: String,
}

/// How a page request is answered: a redirect to a path, or a bare status.
pub enum Reply {
    Redirect(String),
    Status(u16),
}

/// Whether a reply redirects to `path`.
pub open spec fn redirects_to(r: Reply, path: Seq<char>) -> bool {
    r matches Reply::Redirect(p) && p@ == path
}

/// Whether a message is an error with text `text`.
pub open spec fn is_error(m: FlashMessage, text: Seq<char>) -> bool {
    m.level == FlashLevel::Error && m.text@ == text
}

/// Whether `ms` holds one error message per field error of `es`, in order.
pub open spec fn messages_for(ms: Seq<FlashMessage>, es: Seq<FieldError>) -> bool {
    &&& ms.len() == es.len()
    &&& forall|i: int| 0 <= i < ms.len() ==> #[trigger] is_error(ms[i], es[i].message@)
}

/// The optional text of a `next` value.
pub open spec fn opt_text(next: Option<String>) -> Option<Seq<char>> {
    match next {
        Some(n) => Some(n@),
        None => None,
    }
}

/// A page's path, carrying `next` on when there is one.
pub open spec fn spec_with_next(path: Seq<char>, next: Option<Seq<char>>) -> Seq<char> {
    match next {
        Some(n) => path + "?next="@ + n,
        None => path,
    }
}

/// Where to go after an action: `next` when given, else the fallback.
pub open spec fn spec_destination(next: Option<Seq<char>>, fallback: Seq<char>) -> Seq<char> {
    match next {
        Some(n) => n,
        None => fallback,
    }
}

/// The path `path`, carrying `next` on when there is one.
pub fn with_next(path: &str, next: &Option<String>) -> (s: String)
    ensures
        s@ == spec_with_next(path@, opt_text(*next)),
{
    match next {
        Some(n) => path.to_owned().concat("?next=").concat(n.as_str()),
        None => path.to_owned(),
    }
}

/// Where to go after an action: `next` when given, else `fallback`.
pub fn destination(next: &Option<String>, fallback: &str) -> (s: String)
    ensures
        s@ == spec_destination(opt_text(*next), fallback@),
{
    match next {
        Some(n) => n.clone(),
        None => fallback.to_owned(),
    }
}

/// The texts of a list of field errors, in order.
pub open spec fn error_texts(es: Seq<(Seq<char>, Seq<char>)>) -> Seq<Seq<char>> {
    es.map_values(|e: (Seq<char>, Seq<char>)| e.1)
}

/// The messages of a list of field errors, in order.
fn error_messages(errors: &Vec<FieldError>) -> (ms: Vec<FlashMessage>)
    ensures
        messages_for(ms@, errors@),
{
    let mut ms: Vec<FlashMessage> = Vec::new();
    let mut i: usize = 0;
    while i < errors.len()
        invariant
            i <= errors@.len(),
            ms@.len() == i,
            forall|j: int| 0 <= j < i ==> #[trigger] is_error(ms@[j], errors@[j].message@),
        decreases errors@.len() - i,
    {
        ms.push(FlashMessage { level: FlashLevel::Error, text: errors[i].message.clone() });
        i = i + 1;
    }
    ms
}

/// What a registration request leads to before anything is stored.
pub enum RegisterStep {
    /// The user is logged in already: send them on.
    Leave(Reply),
    /// The form is invalid: show these messages, keep the form, and send
    /// the user back to the registration page.
    Refuse { messages: Vec<FlashMessage>, reply: Reply },
    /// Store the new user.
    Store,
}

/// Decides the first step of a registration: a logged-in user is sent to
/// `next` (else `/`); an invalid form sends the user back to
/// `/register`, carrying `next`, with one message per failed rule;
/// otherwise the user is stored.
pub fn registration_step(logged_in: bool, next: &Option<String>, validation: Result<(), Vec<FieldError>>) -> (r:
    RegisterStep)
    ensures
        logged_in ==> (r matches RegisterStep::Leave(reply) && redirects_to(
            reply,
            spec_destination(opt_text(*next), "/"@),
        )),
        !logged_in && validation is Ok ==> r is Store,
        !logged_in ==> (validation matches Err(es) ==> (r matches RegisterStep::Refuse {
            messages,
            reply,
        } && redirects_to(reply, spec_with_next("/register"@, opt_text(*next))) && messages_for(
            messages@,
            es@,
        ))),
{
    if logged_in {
        return RegisterStep::Leave(Reply::Redirect(destination(next, "/")));
    }
    match validation {
        Ok(()) => RegisterStep::Store,
        Err(errors) => RegisterStep::Refuse {
            messages: error_messages(&errors),
            reply: Reply::Redirect(with_next("/register", next)),
        },
    }
}

/// How storing a new user turned out.
#[derive(Clone, Copy, Debug, PartialEq, Eq, Structural)]
pub enum StoreOutcome {
    Created,
    Updated,
    /// The username or address is taken.
    UniqueViolation,
    Failed,
}

/// The message a stored registration leaves.
pub open spec fn registration_message(outcome: StoreOutcome) -> (FlashLevel, Seq<char>) {
    match outcome {
        StoreOutcome::Created | StoreOutcome::Updated => (
            FlashLevel::Success,
            "Registration successful! You can now log in."@,
        ),
        StoreOutcome::UniqueViolation => (
            FlashLevel::Error,
            "A user with the same username or email already exists"@,
        ),
        StoreOutcome::Failed => (FlashLevel::Error, "An unknown error occurred"@),
    }
}

/// What follows storing a new user.
pub struct RegisterFinish {
    pub message: FlashMessage,
    /// Whether the form is kept for the user to correct.
    pub keep_form: bool,
    /// Whether the application's new-user hook runs.
    pub run_hook: bool,
    pub reply: Reply,
}

/// Decides how a registration ends: a success message and a redirect to
/// `next` (else `/login`), with the new-user hook when the user was
/// created; on failure an error message, the form kept, and a redirect
/// back to `/register` carrying `next`.
pub fn registration_finish(outcome: StoreOutcome, next: &Option<String>) -> (r: RegisterFinish)
    ensures
        (r.message.level, r.message.text@) == registration_message(outcome),
        r.keep_form == (outcome == StoreOutcome::UniqueViolation || outcome == StoreOutcome::Failed),
        r.run_hook == (outcome == StoreOutcome::Created),
        redirects_to(
            r.reply,
            if r.keep_form {
                spec_with_next("/register"@, opt_text(*next))
            } else {
                spec_destination(opt_text(*next), "/login"@)
            },
        ),
{
    let (level, text) = match outcome {
        StoreOutcome::Created | StoreOutcome::Updated => (
            FlashLevel::Success,
            "Registration successful! You can now log in.",
        ),
        StoreOutcome::UniqueViolation => (
            FlashLevel::Error,
            "A user with the same username or email already exists",
        ),
        StoreOutcome::Failed => (FlashLevel::Error, "An unknown error occurred"),
    };
    let failed = match outcome {
        StoreOutcome::UniqueViolation | StoreOutcome::Failed => true,
        _ => false,
    };
    let run_hook = match outcome {
        StoreOutcome::Created => true,
        _ => false,
    };
    let reply = if failed {
        Reply::Redirect(with_next("/register", next))
    } else {
        Reply::Redirect(destination(next, "/login"))
    };
    RegisterFinish {
        message: FlashMessage { level, text: text.to_owned() },
        keep_form: failed,
        run_hook,
        reply,
    }
}

/// How a password login turned out.
pub enum LoginOutcome {
    /// The form was invalid.
    Invalid(Vec<FieldError>),
    /// No user has these credentials.
    Rejected,
    /// Authentication itself failed.
    Failed,
    /// The user was authenticated but the session could not be started.
    SessionFailed,
    LoggedIn,
}

/// Decides how a password login is answered: an invalid form shows one
/// message per failed rule and wrong credentials show "Invalid
/// credentials", both sending the user back to `/login` carrying `next`;
/// internal failures answer 500; a login sends the user to `next` (else
/// `/`).
pub fn login_reply(outcome: LoginOutcome, next: &Option<String>) -> (r: (Vec<FlashMessage>, Reply))
    ensures
        match outcome {
            LoginOutcome::Invalid(es) => messages_for(r.0@, es@) && redirects_to(
                r.1,
                spec_with_next("/login"@, opt_text(*next)),
            ),
            LoginOutcome::Rejected => r.0@.len() == 1 && is_error(r.0@[0], "Invalid credentials"@)
                && redirects_to(r.1, spec_with_next("/login"@, opt_text(*next))),
            LoginOutcome::Failed | LoginOutcome::SessionFailed => r.0@.len() == 0 && (r.1 matches Reply::Status(c) && c == 500),
            LoginOutcome::LoggedIn => r.0@.len() == 0 && redirects_to(
                r.1,
                spec_destination(opt_text(*next), "/"@),
            ),
        },
{
    match outcome {
        LoginOutcome::Invalid(errors) => (
            error_messages(&errors),
            Reply::Redirect(with_next("/login", next)),
        ),
        LoginOutcome::Rejected => {
            let mut ms: Vec<FlashMessage> = Vec::new();
            ms.push(
                FlashMessage { level: FlashLevel::Error, text: "Invalid credentials".to_owned() },
            );
            (ms, Reply::Redirect(with_next("/login", next)))
        },
        LoginOutcome::Failed | LoginOutcome::SessionFailed => (Vec::new(), Reply::Status(500)),
        LoginOutcome::LoggedIn => (Vec::new(), Reply::Redirect(destination(next, "/"))),
    }
}

/// How the return from an OAuth provider turned out.
#[derive(Clone, Copy, Debug, PartialEq, Eq, Structural)]
pub enum CallbackOutcome {
    /// No CSRF state was stored in the session.
    MissingState,
    /// No `next` entry was stored in the session.
    MissingNext,
    /// The state did not match: the attempt was refused.
    Rejected,
    /// Authentication or starting the session failed.
    Failed,
    LoggedIn,
}

/// Decides how a provider's return is answered: 400 without a stored state,
/// 500 without a stored `next` or on failure, "Invalid CSRF state" and back
/// to `/login` carrying `next` when refused, else on to `next` (else `/`).
pub fn oauth_callback_reply(outcome: CallbackOutcome, next: &Option<String>) -> (r: (
    Option<FlashMessage>,
    Reply,
))
    ensures
        match outcome {
            CallbackOutcome::MissingState => r.0 is None && (r.1 matches Reply::Status(c) && c == 400),
            CallbackOutcome::MissingNext | CallbackOutcome::Failed => r.0 is None && (r.1 matches Reply::Status(c) && c == 500),
            CallbackOutcome::Rejected => (r.0 matches Some(m) && is_error(m, "Invalid CSRF state"@))
                && redirects_to(r.1, spec_with_next("/login"@, opt_text(*next))),
            CallbackOutcome::LoggedIn => r.0 is None && redirects_to(
                r.1,
                spec_destination(opt_text(*next), "/"@),
            ),
        },
{
    match outcome {
        CallbackOutcome::MissingState => (None, Reply::Status(400)),
        CallbackOutcome::MissingNext | CallbackOutcome::Failed => (None, Reply::Status(500)),
        CallbackOutcome::Rejected => (
            Some(FlashMessage { level: FlashLevel::Error, text: "Invalid CSRF state".to_owned() }),
            Reply::Redirect(with_next("/login", next)),
        ),
        CallbackOutcome::LoggedIn => (None, Reply::Redirect(destination(next, "/"))),
    }
}

/// How a logout is answered: back to `/`, or 500 when it failed.
pub fn logout_reply(succeeded: bool) -> (r: Reply)
    ensures
        succeeded ==> redirects_to(r, "/"@),
        !succeeded ==> (r matches Reply::Status(c) && c == 500),
{
    if succeeded {
        Reply::Redirect("/".to_owned())
    } else {
        Reply::Status(500)
    }
}

/// The page Discord's redirect back is forwarded to, with its code and
/// state.
pub open spec fn spec_discord_destination(code: Seq<char>, state: Seq<char>) -> Seq<char> {
    "/login/oauth/discord/authorize?code="@ + code + "&state="@ + state
}

/// The page that forwards Discord's redirect back, with and without
/// JavaScript.
pub open spec fn spec_discord_redirect_page(destination: Seq<char>) -> Seq<char> {
    "\n        <script type=\"text/javascript\">\n            window.location = \""@ + destination
        + "\";\n        </script>\n        <noscript>\n            <meta http-equiv=\"refresh\" content=\"0;URL='"@
        + destination + "'\"/>\n        </noscript>\n        "@
}

impl CallbackResp {
    /// The page this return from Discord is forwarded to.
    pub fn discord_destination(&self) -> (s: String)
        ensures
            s@ == spec_discord_destination(self.code@, self.state@),
    {
        "/login/oauth/discord/authorize?code=".to_owned().concat(self.code.as_str()).concat(
            "&state=",
        ).concat(self.state.as_str())
    }

    /// The page that forwards this return from Discord.
    pub fn discord_redirect_page(&self) -> (s: String)
        ensures
            s@ == spec_discord_redirect_page(spec_discord_destination(self.code@, self.state@)),
    {
        let destination = self.discord_destination();
        "\n        <script type=\"text/javascript\">\n            window.location = \"".to_owned().concat(
            destination.as_str(),
        ).concat(
            "\";\n        </script>\n        <noscript>\n            <meta http-equiv=\"refresh\" content=\"0;URL='",
        ).concat(destination.as_str()).concat("'\"/>\n        </noscript>\n        ")
    }
}

/// What the reply contracts promise: a reply that redirects to a path is a
/// redirect whose target is that path (so it redirects to no other path); a
/// message that is an error with a text has the error level and that text;
/// and the messages for a list of field errors are one error message per
/// field error, with its text, in order.
pub proof fn lemma_reply_promises(
    r: Reply,
    path: Seq<char>,
    other: Seq<char>,
    m: FlashMessage,
    text: Seq<char>,
    ms: Seq<FlashMessage>,
    es: Seq<FieldError>,
    i: int,
)
    ensures
        redirects_to(r, path) ==> (r matches Reply::Redirect(p) && p@ == path),
        redirects_to(r, path) && other != path ==> !redirects_to(r, other),
        r is Status ==> !redirects_to(r, path),
        is_error(m, text) ==> m.level == FlashLevel::Error && m.text@ == text,
        messages_for(ms, es) ==> ms.len() == es.len(),
        messages_for(ms, es) && 0 <= i < ms.len() ==> ms[i].level == FlashLevel::Error && ms[i].text@
            == es[i].message@,
{
    if messages_for(ms, es) && 0 <= i < ms.len() {
        assert(is_error(ms[i], es[i].message@));
    }
}

/// After an action the user goes to the `next` they asked for when there
/// is one, and to the page's own fallback otherwise.
pub proof fn lemma_destination_prefers_next(next: Option<Seq<char>>, fallback: Seq<char>)
    ensures
        next matches Some(n) ==> spec_destination(next, fallback) == n,
        next is None ==> spec_destination(next, fallback) == fallback,
{
}

/// A return from Discord is forwarded, with its code and state unchanged,
/// to `/login/oauth/discord/authorize?code=<code>&state=<state>`, and the
/// forwarding page sends the browser there both by script and by a meta
/// refresh.
pub proof fn lemma_discord_forwarding(code: Seq<char>, state: Seq<char>)
    ensures
        spec_discord_destination(code, state) == "/login/oauth/discord/authorize?code="@ + code
            + "&state="@ + state,
        spec_discord_redirect_page(spec_discord_destination(code, state)) == "\n        <script type=\"text/javascript\">\n            window.location = \""@
            + spec_discord_destination(code, state)
            + "\";\n        </script>\n        <noscript>\n            <meta http-equiv=\"refresh\" content=\"0;URL='"@
            + spec_discord_destination(code, state) + "'\"/>\n        </noscript>\n        "@,
{
}

/// Every registration that was stored, whether its user was created or an
/// existing row updated, leaves the success message "Registration
/// successful! You can now log in."; an error-level message is left
/// exactly when the registration was not stored (the username or address
/// was taken, or storing failed), which is exactly when the form is kept.
pub proof fn lemma_stored_registration_succeeds(outcome: StoreOutcome)
    ensures
        (outcome == StoreOutcome::Created || outcome == StoreOutcome::Updated) ==> registration_message(
            outcome,
        ) == (FlashLevel::Success, "Registration successful! You can now log in."@),
        registration_message(outcome).0 == FlashLevel::Error <==> (outcome
            == StoreOutcome::UniqueViolation || outcome == StoreOutcome::Failed),
        outcome == StoreOutcome::UniqueViolation ==> registration_message(outcome).1
            == "A user with the same username or email already exists"@,
        outcome == StoreOutcome::Failed ==> registration_message(outcome).1
            == "An unknown error occurred"@,
{
}

/// A failed registration or login always sends the user back to the form
/// page it came from, carrying the same `next`: the target starts with the
/// form's path, and two different `next` values never give the same
/// target, so the page gets back exactly the `next` it was given.
pub proof fn lemma_refusal_returns_to_form(path: Seq<char>, next: Option<Seq<char>>, other: Option<Seq<char>>)
    ensures
        next is None ==> spec_with_next(path, next) == path,
        next matches Some(n) ==> spec_with_next(path, next) == path + "?next="@ + n,
        spec_with_next(path, next).len() >= path.len(),
        spec_with_next(path, next).subrange(0, path.len() as int) == path,
        spec_with_next(path, next) == spec_with_next(path, other) ==> next == other,
{
    reveal_strlit("?next=");
    let t = spec_with_next(path, next);
    assert(t.subrange(0, path.len() as int) =~= path);
    if t == spec_with_next(path, other) {
        match (next, other) {
            (Some(a), Some(b)) => {
                let k = path.len() as int + 6;
                assert(t.subrange(k, t.len() as int) =~= a);
                assert(spec_with_next(path, other).subrange(k, t.len() as int) =~= b);
            },
            (Some(a), None) => {
                assert(t.len() == path.len() + 6 + a.len());
            },
            (None, Some(b)) => {
                assert(spec_with_next(path, other).len() == path.len() + 6 + b.len());
            },
            (None, None) => {},
        }
    }
}

} // verus!
