use budget_manager::flash::{FlashKind, FlashMessage, FlashRedirect, Redirect};
use budget_manager::forms::{LoginForm, RegisterForm};
use budget_manager::models::User;
use budget_manager::session::{
    AuthAction, IsUser, home_get, home_get_nonuser, index_get, index_get_nonuser, login_decision,
    login_get, login_get_nonuser, login_post, login_post_nonuser, logout_get, logout_get_nonuser,
    register_get, register_get_nonuser, register_post, register_post_nonuser,
    register_post_nonuser_created, register_post_nonuser_hashed, register_post_nonuser_lookup,
};

fn note(kind: FlashKind, route: &str, message: &str) -> FlashRedirect {
    FlashRedirect { kind, route: route.to_string(), message: message.to_string() }
}

fn register_form(email: &str, password: &str, confirm: &str) -> RegisterForm {
    RegisterForm {
        email: email.to_string(),
        password: password.to_string(),
        confirm_password: confirm.to_string(),
    }
}

fn user(id: i32, email: &str, password: &str) -> User {
    User { id, email: email.to_string(), password: password.to_string() }
}

#[test]
fn cookie_makes_a_user() {
    assert_eq!(IsUser::from_cookie(None), None);
    assert_eq!(IsUser::from_cookie(Some("12".to_string())), Some(IsUser("12".to_string())));
    assert_eq!(IsUser("12".to_string()).user_id(), Some(12));
    assert_eq!(IsUser("abc".to_string()).user_id(), None);
}

#[test]
fn index_redirects() {
    assert_eq!(index_get(), Redirect { route: "/home".to_string() });
    assert_eq!(index_get_nonuser(), Redirect { route: "/login".to_string() });
    assert_eq!(logout_get_nonuser(), Redirect { route: "/login".to_string() });
}

#[test]
fn logged_in_users_cannot_register_or_log_in() {
    let refused = Err(note(
        FlashKind::Error,
        "/home",
        "You are already logged in! Logout to login, or create a new account.",
    ));
    assert_eq!(register_get(), refused);
    assert_eq!(register_post(), refused);
    assert_eq!(login_get(), refused);
    assert_eq!(login_post(), refused);
}

#[test]
fn visitor_pages_show_the_notice() {
    let flash = Some(FlashMessage { name: "error".to_string(), msg: "Passwords don't match".to_string() });
    let page = register_get_nonuser(flash);
    assert_eq!(page.title, "Register");
    assert!(!page.authenticated);
    assert_eq!(page.flash_class, "alert");
    assert_eq!(page.flash_msg, "Passwords don't match");
    let page = login_get_nonuser(None);
    assert_eq!(page.title, "Login");
    assert_eq!(page.flash_class, "alert");
    assert_eq!(page.flash_msg, "No flash message");
}

#[test]
fn register_requires_matching_passwords() {
    assert_eq!(
        register_post_nonuser(&register_form("a@b.c", "one", "two")),
        AuthAction::Respond(Err(note(FlashKind::Error, "/register", "Passwords don't match")))
    );
    assert_eq!(
        register_post_nonuser(&register_form("a@b.c", "same", "same")),
        AuthAction::LookupUser { email: "a@b.c".to_string() }
    );
}

#[test]
fn register_refuses_an_existing_account() {
    let form = register_form("a@b.c", "pw", "pw");
    assert_eq!(
        register_post_nonuser_lookup(&form, &user(3, "a@b.c", "hash")),
        AuthAction::Respond(Err(note(
            FlashKind::Error,
            "/register",
            "An account with email: a@b.c already exists. Please login, or register with a new email address.",
        )))
    );
}

#[test]
fn register_creates_a_user_with_a_checkable_hash() {
    let form = register_form("a@b.c", "hunter2", "hunter2");
    match register_post_nonuser_lookup(&form, &User::missing()) {
        AuthAction::CreateUser { email, password_hash } => {
            assert_eq!(email, "a@b.c");
            assert_eq!(password_hash.len(), 60);
            assert!(password_hash.starts_with("$2b$07$"));
            assert_ne!(password_hash, "hunter2");
            assert!(bcrypt::verify("hunter2", &password_hash).unwrap());
            assert!(!bcrypt::verify("hunter3", &password_hash).unwrap());
        }
        other => panic!("unexpected {other:?}"),
    }
}

#[test]
fn register_hashed_step() {
    let form = register_form("a@b.c", "pw", "pw");
    assert_eq!(
        register_post_nonuser_hashed(&form, None),
        AuthAction::Fail { reason: "error".to_string() }
    );
    assert_eq!(
        register_post_nonuser_hashed(&form, Some("h".to_string())),
        AuthAction::CreateUser { email: "a@b.c".to_string(), password_hash: "h".to_string() }
    );
}

#[test]
fn register_signs_the_new_user_in() {
    assert_eq!(
        register_post_nonuser_created(&user(17, "a@b.c", "h")),
        AuthAction::SignIn {
            user_id: "17".to_string(),
            response: note(FlashKind::Success, "/home", "Account created for: a@b.c"),
        }
    );
}

#[test]
fn login_refuses_unknown_email() {
    let form = LoginForm { email: "x@y.z".to_string(), password: "pw".to_string() };
    let refused = AuthAction::Respond(Err(note(FlashKind::Error, "/login", "Email, or Password incorrect")));
    assert_eq!(login_post_nonuser(&form, &User::missing()), refused);
}

#[test]
fn login_checks_the_password() {
    let hash = bcrypt::hash("secret", 4).unwrap();
    let stored = user(5, "a@b.c", &hash);
    let good = LoginForm { email: "a@b.c".to_string(), password: "secret".to_string() };
    let bad = LoginForm { email: "a@b.c".to_string(), password: "Secret".to_string() };
    assert_eq!(
        login_post_nonuser(&good, &stored),
        AuthAction::SignIn {
            user_id: "5".to_string(),
            response: note(FlashKind::Success, "/home", "a@b.c logged in"),
        }
    );
    assert_eq!(
        login_post_nonuser(&bad, &stored),
        AuthAction::Respond(Err(note(FlashKind::Error, "/login", "Email, or Password incorrect")))
    );
}

#[test]
fn login_with_a_broken_stored_hash_fails() {
    let stored = user(5, "a@b.c", "not a hash");
    let form = LoginForm { email: "a@b.c".to_string(), password: "secret".to_string() };
    assert_eq!(login_post_nonuser(&form, &stored), AuthAction::Fail { reason: "error".to_string() });
    assert_eq!(login_decision(&stored, None), AuthAction::Fail { reason: "error".to_string() });
    assert_eq!(
        login_decision(&stored, Some(false)),
        AuthAction::Respond(Err(note(FlashKind::Error, "/login", "Email, or Password incorrect")))
    );
}

#[test]
fn registered_user_logs_in_and_cookie_reads_back() {
    let form = register_form("new@user.org", "pa55", "pa55");
    let hash = match register_post_nonuser_lookup(&form, &User::missing()) {
        AuthAction::CreateUser { password_hash, .. } => password_hash,
        other => panic!("unexpected {other:?}"),
    };
    let stored = user(42, "new@user.org", &hash);
    let login = LoginForm { email: "new@user.org".to_string(), password: "pa55".to_string() };
    match login_post_nonuser(&login, &stored) {
        AuthAction::SignIn { user_id, response } => {
            assert_eq!(IsUser::from_cookie(Some(user_id)).unwrap().user_id(), Some(42));
            assert_eq!(response, note(FlashKind::Success, "/home", "new@user.org logged in"));
        }
        other => panic!("unexpected {other:?}"),
    }
}

#[test]
fn logout_signs_out() {
    assert_eq!(
        logout_get(),
        AuthAction::SignOut { response: note(FlashKind::Success, "/login", "Successfully logged out") }
    );
}

#[test]
fn home_page_greets_the_user() {
    let page = home_get(None, &user(1, "me@here.net", "h"));
    assert_eq!(page.title, "Home");
    assert!(page.authenticated);
    assert_eq!(page.user_email, "me@here.net");
    assert_eq!(
        home_get_nonuser(),
        Err(note(FlashKind::Error, "/login", "You need to login, or register!"))
    );
}
