use lowboy::controller::{
    destination, login_reply, logout_reply, oauth_callback_reply, registration_finish, registration_step,
    with_next, CallbackOutcome, CallbackResp, FlashLevel, LoginOutcome, RegisterStep, Reply, StoreOutcome,
};
use lowboy::validation::FieldError;

fn redirect(r: &Reply) -> &str {
    match r {
        Reply::Redirect(p) => p,
        Reply::Status(_) => panic!("expected a redirect"),
    }
}

fn status(r: &Reply) -> u16 {
    match r {
        Reply::Status(c) => *c,
        Reply::Redirect(_) => panic!("expected a status"),
    }
}

#[test]
fn next_handling() {
    assert_eq!(with_next("/login", &Some("/posts".to_string())), "/login?next=/posts");
    assert_eq!(with_next("/login", &None), "/login");
    assert_eq!(destination(&Some("/x".to_string()), "/"), "/x");
    assert_eq!(destination(&None, "/login"), "/login");
}

#[test]
fn registration_first_step() {
    match registration_step(true, &None, Ok(())) {
        RegisterStep::Leave(r) => assert_eq!(redirect(&r), "/"),
        _ => panic!(),
    }
    assert!(matches!(registration_step(false, &None, Ok(())), RegisterStep::Store));
    let errors = vec![FieldError { field: "email".to_string(), message: "Email provided is not valid".to_string() }];
    match registration_step(false, &Some("/p".to_string()), Err(errors)) {
        RegisterStep::Refuse { messages, reply } => {
            assert_eq!(messages.len(), 1);
            assert_eq!(messages[0].level, FlashLevel::Error);
            assert_eq!(messages[0].text, "Email provided is not valid");
            assert_eq!(redirect(&reply), "/register?next=/p");
        }
        _ => panic!(),
    }
}

#[test]
fn registration_outcomes() {
    let ok = registration_finish(StoreOutcome::Created, &None);
    assert_eq!(ok.message.level, FlashLevel::Success);
    assert_eq!(ok.message.text, "Registration successful! You can now log in.");
    assert!(ok.run_hook && !ok.keep_form);
    assert_eq!(redirect(&ok.reply), "/login");
    let updated = registration_finish(StoreOutcome::Updated, &Some("/n".to_string()));
    assert!(!updated.run_hook);
    assert_eq!(redirect(&updated.reply), "/n");
    let taken = registration_finish(StoreOutcome::UniqueViolation, &Some("/n".to_string()));
    assert_eq!(taken.message.text, "A user with the same username or email already exists");
    assert!(taken.keep_form);
    assert_eq!(redirect(&taken.reply), "/register?next=/n");
    let failed = registration_finish(StoreOutcome::Failed, &None);
    assert_eq!(failed.message.text, "An unknown error occurred");
    assert_eq!(failed.message.level, FlashLevel::Error);
    assert_eq!(redirect(&failed.reply), "/register");
}

#[test]
fn login_replies() {
    let (ms, r) = login_reply(LoginOutcome::Rejected, &None);
    assert_eq!(ms[0].text, "Invalid credentials");
    assert_eq!(redirect(&r), "/login");
    let (ms, r) = login_reply(LoginOutcome::LoggedIn, &Some("/after".to_string()));
    assert!(ms.is_empty());
    assert_eq!(redirect(&r), "/after");
    let (_, r) = login_reply(LoginOutcome::Failed, &None);
    assert_eq!(status(&r), 500);
    let (_, r) = login_reply(LoginOutcome::SessionFailed, &None);
    assert_eq!(status(&r), 500);
    let errors = vec![FieldError { field: "password".to_string(), message: "Password is required".to_string() }];
    let (ms, r) = login_reply(LoginOutcome::Invalid(errors), &Some("/q".to_string()));
    assert_eq!(ms[0].text, "Password is required");
    assert_eq!(redirect(&r), "/login?next=/q");
}

#[test]
fn oauth_callback_replies() {
    assert_eq!(status(&oauth_callback_reply(CallbackOutcome::MissingState, &None).1), 400);
    assert_eq!(status(&oauth_callback_reply(CallbackOutcome::MissingNext, &None).1), 500);
    assert_eq!(status(&oauth_callback_reply(CallbackOutcome::Failed, &None).1), 500);
    let (m, r) = oauth_callback_reply(CallbackOutcome::Rejected, &Some("/z".to_string()));
    assert_eq!(m.unwrap().text, "Invalid CSRF state");
    assert_eq!(redirect(&r), "/login?next=/z");
    let (m, r) = oauth_callback_reply(CallbackOutcome::LoggedIn, &None);
    assert!(m.is_none());
    assert_eq!(redirect(&r), "/");
}

#[test]
fn logout_replies() {
    assert_eq!(redirect(&logout_reply(true)), "/");
    assert_eq!(status(&logout_reply(false)), 500);
}

#[test]
fn discord_forwarding_page() {
    let resp = CallbackResp { code: "c0de".to_string(), state: "st8".to_string() };
    let destination = "/login/oauth/discord/authorize?code=c0de&state=st8";
    assert_eq!(resp.discord_destination(), destination);
    let expected = format!(
        r#"
        <script type="text/javascript">
            window.location = "{destination}";
        </script>
        <noscript>
            <meta http-equiv="refresh" content="0;URL='{destination}'"/>
        </noscript>
        "#
    );
    assert_eq!(resp.discord_redirect_page(), expected);
}
