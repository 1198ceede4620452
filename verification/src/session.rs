//! Who is asking, and the routes that register, log in and log out users and
//! greet them at home.

use vstd::prelude::*;
use crate::contexts::{HomeContext, LoginContext, RegisterContext};
use crate::flash::{
    FlashKind, FlashMessage, FlashNote, FlashRedirect, Redirect, flash_redirect,
    improper_user_access, not_logged_in, note, page_flash, page_flash_view, response_view,
};
use crate::forms::{LoginForm, RegisterForm};
use crate::models::User;
use crate::password::{
    PASSWORD_HASH_COST, bcrypt_hash, bcrypt_hash_prefix, bcrypt_verify, bcrypt_verify_result,
};
use crate::text::{concat3, decimal_text, format_i32, parse_decimal_i32, parse_i32};

verus! {

/// A logged-in user, known by the value of their private `user_id` cookie.
#[derive(Debug, PartialEq, Eq)]
pub struct IsUser(pub String);

impl IsUser {
    /// A request is from a logged-in user exactly when it carries the private
    /// `user_id` cookie; the user is known by the cookie's value.
    pub fn from_cookie(cookie: Option<String>) -> (r: Option<IsUser>)
        ensures
            cookie is None ==> r is None,
            cookie matches Some(v) ==> r matches Some(u) && u.0 == v,
    {
        match cookie {
            Some(v) => Some(IsUser(v)),
            None => None,
        }
    }

    /// The user's id, where the cookie holds the decimal text of an `i32`.
    pub fn user_id(&self) -> (r: Option<i32>)
        ensures
            r == parse_decimal_i32(self.0@),
    {
        parse_i32(self.0.as_str())
    }
}

/// What a register, login or logout request asks of the server.
#[derive(Debug, PartialEq, Eq)]
pub enum AuthAction {
    /// Answer with this response.
    Respond(Result<FlashRedirect, FlashRedirect>),
    /// Look the user up by `email`, then hand the record to the next step.
    LookupUser { email: String },
    /// Insert a user with this email and password hash, look them up by the
    /// email, and hand the record to the next step.
    CreateUser { email: String, password_hash: String },
    /// Set the private `user_id` cookie to `user_id`, then answer `Ok(response)`.
    SignIn { user_id: String, response: FlashRedirect },
    /// Remove the private `user_id` cookie, then answer `Ok(response)`.
    SignOut { response: FlashRedirect },
    /// Stop with this message, as the request cannot be served.
    Fail { reason: String },
}

/// The mathematical content of an [`AuthAction`].
pub enum AuthActionView {
    Respond(Result<FlashNote, FlashNote>),
    LookupUser { email: Seq<char> },
    CreateUser { email: Seq<char>, password_hash: Seq<char> },
    SignIn { user_id: Seq<char>, response: FlashNote },
    SignOut { response: FlashNote },
    Fail { reason: Seq<char> },
}

impl View for AuthAction {
    type V = AuthActionView;

    open spec fn view(&self) -> AuthActionView {
        match self {
            AuthAction::Respond(r) => AuthActionView::Respond(response_view(*r)),
            AuthAction::LookupUser { email } => AuthActionView::LookupUser { email: email@ },
            AuthAction::CreateUser { email, password_hash } => AuthActionView::CreateUser {
                email: email@,
                password_hash: password_hash@,
            },
            AuthAction::SignIn { user_id, response } => AuthActionView::SignIn {
                user_id: user_id@,
                response: response@,
            },
            AuthAction::SignOut { response } => AuthActionView::SignOut { response: response@ },
            AuthAction::Fail { reason } => AuthActionView::Fail { reason: reason@ },
        }
    }
}

/// The root sends a logged-in user home.
pub fn index_get() -> (r: Redirect)
    ensures
        r.route@ == "/home"@,
{
    Redirect { route: String::from_str("/home") }
}

/// The root sends a visitor to the login page.
pub fn index_get_nonuser() -> (r: Redirect)
    ensures
        r.route@ == "/login"@,
{
    Redirect { route: String::from_str("/login") }
}

pub open spec fn already_logged_in() -> Result<FlashNote, FlashNote> {
    Err(
        note(
            FlashKind::Error,
            "/home"@,
            "You are already logged in! Logout to login, or create a new account."@,
        ),
    )
}

/// A logged-in user may not open the register page.
pub fn register_get() -> (r: Result<FlashRedirect, FlashRedirect>)
    ensures
        response_view(r) == already_logged_in(),
{
    improper_user_access("/home")
}

/// A logged-in user may not register.
pub fn register_post() -> (r: Result<FlashRedirect, FlashRedirect>)
    ensures
        response_view(r) == already_logged_in(),
{
    improper_user_access("/home")
}

/// A logged-in user may not open the login page.
pub fn login_get() -> (r: Result<FlashRedirect, FlashRedirect>)
    ensures
        response_view(r) == already_logged_in(),
{
    improper_user_access("/home")
}

/// A logged-in user may not log in again.
pub fn login_post() -> (r: Result<FlashRedirect, FlashRedirect>)
    ensures
        response_view(r) == already_logged_in(),
{
    improper_user_access("/home")
}

/// The register page for a visitor, showing the notice it was handed.
pub fn register_get_nonuser(flash: Option<FlashMessage>) -> (r: RegisterContext)
    ensures
        r.title@ == "Register"@,
        !r.authenticated,
        r.flash_class@ == page_flash_view(flash).0,
        r.flash_msg@ == page_flash_view(flash).1,
{
    let (class, msg) = page_flash(flash);
    RegisterContext {
        title: String::from_str("Register"),
        authenticated: false,
        flash_class: class,
        flash_msg: msg,
    }
}

/// The login page for a visitor, showing the notice it was handed.
pub fn login_get_nonuser(flash: Option<FlashMessage>) -> (r: LoginContext)
    ensures
        r.title@ == "Login"@,
        !r.authenticated,
        r.flash_class@ == page_flash_view(flash).0,
        r.flash_msg@ == page_flash_view(flash).1,
{
    let (class, msg) = page_flash(flash);
    LoginContext {
        title: String::from_str("Login"),
        authenticated: false,
        flash_class: class,
        flash_msg: msg,
    }
}

/// First step of registering: the two passwords must match; then the email
/// is looked up.
pub open spec fn register_start_view(form: RegisterForm) -> AuthActionView {
    if form.password@ == form.confirm_password@ {
        AuthActionView::LookupUser { email: form.email@ }
    } else {
        AuthActionView::Respond(
            Err(note(FlashKind::Error, "/register"@, "Passwords don't match"@)),
        )
    }
}

/// A visitor registers with the form: see [`register_start_view`].
pub fn register_post_nonuser(form: &RegisterForm) -> (r: AuthAction)
    ensures
        r@ == register_start_view(*form),
{
    if form.password == form.confirm_password {
        AuthAction::LookupUser { email: form.email.clone() }
    } else {
        AuthAction::Respond(Err(flash_redirect(FlashKind::Error, "/register", "Passwords don't match")))
    }
}

pub open spec fn account_exists_message(email: Seq<char>) -> Seq<char> {
    "An account with email: "@ + email
        + " already exists. Please login, or register with a new email address."@
}

/// The step of registering after the email was hashed (or hashing failed).
pub open spec fn register_hashed_view(form: RegisterForm, hashed: Option<Seq<char>>) -> AuthActionView {
    match hashed {
        Some(h) => AuthActionView::CreateUser { email: form.email@, password_hash: h },
        None => AuthActionView::Fail { reason: "error"@ },
    }
}

/// What the step of registering after the lookup may answer, for the record
/// `existing` found under the form's email: an account that exists refuses
/// the registration; otherwise the user is created with a bcrypt hash of the
/// form's password made at cost 7 (its text begins `$2b$07$`), or the request
/// fails where hashing failed.
pub open spec fn register_lookup_allows(form: RegisterForm, existing: User, r: AuthActionView) -> bool {
    if existing.email@.len() != 0 {
        r == AuthActionView::Respond(
            Err(note(FlashKind::Error, "/register"@, account_exists_message(existing.email@))),
        )
    } else {
        ||| r == AuthActionView::Fail { reason: "error"@ }
        ||| r matches AuthActionView::CreateUser { email, password_hash } && email == form.email@
            && password_hash.len() == 60 && password_hash.take(7) == "$2b$07$"@
            && bcrypt_verify_result(form.password@, password_hash) == Some(true)
    }
}

/// Registering, once the hash of the password is known (`None` where hashing
/// failed): see [`register_hashed_view`].
pub fn register_post_nonuser_hashed(form: &RegisterForm, hashed: Option<String>) -> (r: AuthAction)
    ensures
        r@ == register_hashed_view(
            *form,
            match hashed {
                Some(h) => Some(h@),
                None => None,
            },
        ),
{
    match hashed {
        Some(h) => AuthAction::CreateUser { email: form.email.clone(), password_hash: h },
        None => AuthAction::Fail { reason: String::from_str("error") },
    }
}

/// Registering, once the record under the form's email is known: see
/// [`register_lookup_allows`].
pub fn register_post_nonuser_lookup(form: &RegisterForm, existing: &User) -> (r: AuthAction)
    ensures
        register_lookup_allows(*form, *existing, r@),
{
    if existing.email.as_str().is_empty() {
        proof {
            reveal_strlit("$2b$07$");
            assert(bcrypt_hash_prefix(PASSWORD_HASH_COST) =~= "$2b$07$"@);
        }
        let hashed = match bcrypt_hash(form.password.as_str(), PASSWORD_HASH_COST) {
            Ok(h) => Some(h),
            Err(_) => None,
        };
        register_post_nonuser_hashed(form, hashed)
    } else {
        let message = concat3(
            "An account with email: ",
            existing.email.as_str(),
            " already exists. Please login, or register with a new email address.",
        );
        AuthAction::Respond(
            Err(FlashRedirect { kind: FlashKind::Error, route: String::from_str("/register"), message }),
        )
    }
}

/// The last step of registering, with the record of the new user: they are
/// signed in and sent home.
pub open spec fn register_created_view(user: User) -> AuthActionView {
    AuthActionView::SignIn {
        user_id: decimal_text(user.id as int),
        response: note(FlashKind::Success, "/home"@, "Account created for: "@ + user.email@),
    }
}

/// Registering, once the new user's record is known: see [`register_created_view`].
pub fn register_post_nonuser_created(user: &User) -> (r: AuthAction)
    ensures
        r@ == register_created_view(*user),
{
    let message = concat3("Account created for: ", user.email.as_str(), "");
    proof {
        reveal_strlit("");
    }
    assert(message@ =~= "Account created for: "@ + user.email@);
    AuthAction::SignIn {
        user_id: format_i32(user.id),
        response: FlashRedirect { kind: FlashKind::Success, route: String::from_str("/home"), message },
    }
}

pub open spec fn login_refused() -> AuthActionView {
    AuthActionView::Respond(Err(note(FlashKind::Error, "/login"@, "Email, or Password incorrect"@)))
}

/// Logging in as `user` (the record found under the form's email), where
/// `verified` is what checking the form's password against the stored hash
/// gave (`None` for an error): an unknown email or a wrong password is
/// refused alike; a right one signs the user in and sends them home.
pub open spec fn login_view(user: User, verified: Option<bool>) -> AuthActionView {
    if user.email@.len() == 0 {
        login_refused()
    } else {
        match verified {
            None => AuthActionView::Fail { reason: "error"@ },
            Some(true) => AuthActionView::SignIn {
                user_id: decimal_text(user.id as int),
                response: note(FlashKind::Success, "/home"@, user.email@ + " logged in"@),
            },
            Some(false) => login_refused(),
        }
    }
}

/// Logging in as `user`, once the password check gave `verified`: see [`login_view`].
pub fn login_decision(user: &User, verified: Option<bool>) -> (r: AuthAction)
    ensures
        r@ == login_view(*user, verified),
{
    if user.email.as_str().is_empty() {
        return AuthAction::Respond(
            Err(flash_redirect(FlashKind::Error, "/login", "Email, or Password incorrect")),
        );
    }
    match verified {
        None => AuthAction::Fail { reason: String::from_str("error") },
        Some(true) => {
            let message = concat3(user.email.as_str(), " logged in", "");
            proof {
                reveal_strlit("");
            }
            assert(message@ =~= user.email@ + " logged in"@);
            AuthAction::SignIn {
                user_id: format_i32(user.id),
                response: FlashRedirect {
                    kind: FlashKind::Success,
                    route: String::from_str("/home"),
                    message,
                },
            }
        },
        Some(false) => AuthAction::Respond(
            Err(flash_redirect(FlashKind::Error, "/login", "Email, or Password incorrect")),
        ),
    }
}

/// A visitor logs in with the form, `user` being the record found under the
/// form's email: the form's password is checked against the stored hash
/// with bcrypt, then see [`login_view`].
pub fn login_post_nonuser(form: &LoginForm, user: &User) -> (r: AuthAction)
    ensures
        r@ == login_view(*user, bcrypt_verify_result(form.password@, user.password@)),
{
    if user.email.as_str().is_empty() {
        return login_decision(user, None);
    }
    let verified = match bcrypt_verify(form.password.as_str(), user.password.as_str()) {
        Ok(b) => Some(b),
        Err(_) => None,
    };
    login_decision(user, verified)
}

/// A logged-in user logs out and is sent to the login page.
pub fn logout_get() -> (r: AuthAction)
    ensures
        r@ == (AuthActionView::SignOut {
            response: note(FlashKind::Success, "/login"@, "Successfully logged out"@),
        }),
{
    AuthAction::SignOut {
        response: flash_redirect(FlashKind::Success, "/login", "Successfully logged out"),
    }
}

/// A visitor who logs out is sent to the login page.
pub fn logout_get_nonuser() -> (r: Redirect)
    ensures
        r.route@ == "/login"@,
{
    Redirect { route: String::from_str("/login") }
}

/// The home page of `user`, showing the notice it was handed.
pub fn home_get(flash: Option<FlashMessage>, user: &User) -> (r: HomeContext)
    ensures
        r.title@ == "Home"@,
        r.authenticated,
        r.flash_class@ == page_flash_view(flash).0,
        r.flash_msg@ == page_flash_view(flash).1,
        r.user_email@ == user.email@,
{
    let (class, msg) = page_flash(flash);
    HomeContext {
        title: String::from_str("Home"),
        authenticated: true,
        flash_class: class,
        flash_msg: msg,
        user_email: user.email.clone(),
    }
}

pub open spec fn login_required() -> Result<FlashNote, FlashNote> {
    Err(note(FlashKind::Error, "/login"@, "You need to login, or register!"@))
}

/// A visitor may not open the home page.
pub fn home_get_nonuser() -> (r: Result<FlashRedirect, FlashRedirect>)
    ensures
        response_view(r) == login_required(),
{
    not_logged_in("/login")
}

} // verus!
