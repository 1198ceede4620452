use budget_manager::flash::{
    FlashKind, FlashMessage, FlashRedirect, flash_message_breakdown, improper_user_access,
    not_logged_in, page_flash,
};

fn msg(name: &str, text: &str) -> Option<FlashMessage> {
    Some(FlashMessage { name: name.to_string(), msg: text.to_string() })
}

#[test]
fn not_logged_in_sends_to_route_with_error() {
    assert_eq!(
        not_logged_in("/login"),
        Err(FlashRedirect {
            kind: FlashKind::Error,
            route: "/login".to_string(),
            message: "You need to login, or register!".to_string(),
        })
    );
}

#[test]
fn improper_user_access_sends_home_with_error() {
    assert_eq!(
        improper_user_access("/home"),
        Err(FlashRedirect {
            kind: FlashKind::Error,
            route: "/home".to_string(),
            message: "You are already logged in! Logout to login, or create a new account.".to_string(),
        })
    );
}

#[test]
fn breakdown_without_notice() {
    assert_eq!(
        flash_message_breakdown(None),
        ("alert".to_string(), "&No flash message".to_string())
    );
}

#[test]
fn breakdown_of_success_and_error() {
    assert_eq!(
        flash_message_breakdown(msg("success", "Category successfully added")),
        ("success".to_string(), "&Category successfully added".to_string())
    );
    assert_eq!(
        flash_message_breakdown(msg("error", "Passwords don't match")),
        ("alert".to_string(), "&Passwords don't match".to_string())
    );
}

#[test]
fn breakdown_cuts_at_first_ampersand() {
    assert_eq!(
        flash_message_breakdown(msg("succ&ess", "m")),
        ("alert".to_string(), "&ess&m".to_string())
    );
    assert_eq!(
        flash_message_breakdown(msg("success", "a&b")),
        ("success".to_string(), "&a&b".to_string())
    );
    assert_eq!(flash_message_breakdown(msg("", "")), ("alert".to_string(), "&".to_string()));
}

#[test]
fn page_flash_drops_the_ampersand() {
    assert_eq!(page_flash(None), ("alert".to_string(), "No flash message".to_string()));
    assert_eq!(page_flash(msg("success", "Done")), ("success".to_string(), "Done".to_string()));
    assert_eq!(page_flash(msg("error", "Nope & never")), ("alert".to_string(), "Nope & never".to_string()));
    assert_eq!(page_flash(msg("warning", "ünïcode ✓")), ("alert".to_string(), "ünïcode ✓".to_string()));
}

#[test]
fn notices_arrive_intact() {
    for (kind, class) in [(FlashKind::Success, "success"), (FlashKind::Error, "alert")] {
        for text in ["", "plain", "with & in it", "&"] {
            let delivered = FlashMessage { name: kind.name(), msg: text.to_string() };
            assert_eq!(page_flash(Some(delivered)), (class.to_string(), text.to_string()));
        }
    }
}

#[test]
fn kind_names() {
    assert_eq!(FlashKind::Success.name(), "success");
    assert_eq!(FlashKind::Error.name(), "error");
}
