use lowboy::auth::forms::{LoginForm, LowboyLoginForm, LowboyRegisterForm, RegistrationForm};

fn register_form(username: &str, email: &str, password: &str) -> LowboyRegisterForm {
    LowboyRegisterForm::new(username.to_string(), email.to_string(), password.to_string(), None)
}

fn messages(errors: Vec<lowboy::validation::FieldError>) -> Vec<(String, String)> {
    errors.into_iter().map(|e| (e.field, e.message)).collect()
}

#[test]
fn register_form_valid() {
    let form = register_form("alice", "alice@example.com", "correct horse");
    assert!(form.validate().is_ok());
}

#[test]
fn register_form_every_rule_fails() {
    let form = register_form("", "not-an-email", "short");
    let errors = messages(form.validate().unwrap_err());
    assert_eq!(
        errors,
        vec![
            ("username".to_string(), "Username must be between 1 and 32 characters".to_string()),
            ("email".to_string(), "Email provided is not valid".to_string()),
            ("password".to_string(), "Password must be at least 8 characters".to_string()),
        ]
    );
}

#[test]
fn register_form_username_length_bounds() {
    let at_max = register_form(&"a".repeat(32), "a@example.com", "12345678");
    assert!(at_max.validate().is_ok());
    let too_long = register_form(&"a".repeat(33), "a@example.com", "12345678");
    let errors = messages(too_long.validate().unwrap_err());
    assert_eq!(errors.len(), 1);
    assert_eq!(errors[0].0, "username");
}

#[test]
fn register_form_counts_characters_not_bytes() {
    // 32 two-byte characters are 32 characters.
    let name = "é".repeat(32);
    let form = register_form(&name, "a@example.com", "12345678");
    assert!(form.validate().is_ok());
    // Seven characters, fourteen bytes: too short a password.
    let form = register_form("bob", "a@example.com", &"é".repeat(7));
    let errors = messages(form.validate().unwrap_err());
    assert_eq!(errors, vec![("password".to_string(), "Password must be at least 8 characters".to_string())]);
}

#[test]
fn register_form_accessors_and_next() {
    let mut form = register_form("carol", "carol@example.com", "secret-password");
    assert_eq!(form.username(), "carol");
    assert_eq!(form.email(), "carol@example.com");
    assert_eq!(form.password(), "secret-password");
    assert_eq!(form.next(), &None);
    form.set_next(Some("/posts".to_string()));
    assert_eq!(form.next(), &Some("/posts".to_string()));
    assert_eq!(form.username(), "carol");
    let copy = form.clone();
    assert_eq!(copy.next(), &Some("/posts".to_string()));
}

#[test]
fn register_form_empty_is_blank() {
    let form = <LowboyRegisterForm as RegistrationForm>::empty();
    assert_eq!(form.username(), "");
    assert_eq!(form.email(), "");
    assert_eq!(form.password(), "");
    assert!(form.next().is_none());
}

#[test]
fn login_form_rules() {
    let ok = LowboyLoginForm::new("dave".to_string(), "x".to_string(), None);
    assert!(ok.validate().is_ok());
    let empty = <LowboyLoginForm as LoginForm>::empty();
    let errors = messages(empty.validate().unwrap_err());
    assert_eq!(
        errors,
        vec![
            ("username".to_string(), "Username is required".to_string()),
            ("password".to_string(), "Password is required".to_string()),
        ]
    );
}

#[test]
fn login_form_accessors_and_next() {
    let mut form = LowboyLoginForm::new("erin".to_string(), "pw".to_string(), Some("/a".to_string()));
    assert_eq!(form.username(), "erin");
    assert_eq!(form.password(), "pw");
    assert_eq!(form.next(), &Some("/a".to_string()));
    form.set_next(None);
    assert_eq!(form.next(), &None);
    assert_eq!(form.clone().username(), "erin");
}

#[test]
fn forms_display_without_password() {
    let f = LowboyRegisterForm::new(
        "frank".to_string(),
        "frank@example.com".to_string(),
        "hunter22!".to_string(),
        Some("/posts".to_string()),
    );
    assert_eq!(
        f.display(),
        "Username: frank Email: frank@example.com Password: REDACTED Next: Some(\"/posts\")"
    );
    let l = LowboyLoginForm::new("frank".to_string(), "hunter22!".to_string(), None);
    assert_eq!(l.display(), "Username: frank Password: REDACTED Next: None");
    let q = LowboyLoginForm::new("a".to_string(), "b".to_string(), Some("say \"hi\"".to_string()));
    assert_eq!(q.display(), "Username: a Password: REDACTED Next: Some(\"say \\\"hi\\\"\")");
}
