use budget_manager::actions::{DbWrite, GuardedPage, RouteAction};
use budget_manager::categories::{
    category_archive_get, category_archive_get_nonuser, category_edit_get, category_edit_get_nonuser,
    category_edit_post, category_edit_post_nonuser, category_get, category_get_nonuser, category_post,
    category_post_nonuser, category_unarchive_get, category_unarchive_get_nonuser,
};
use budget_manager::contexts::StrCategories;
use budget_manager::flash::{FlashKind, FlashMessage, FlashRedirect};
use budget_manager::forms::CategoryForm;
use budget_manager::models::Category;
use budget_manager::session::IsUser;

fn note(kind: FlashKind, route: &str, message: &str) -> FlashRedirect {
    FlashRedirect { kind, route: route.to_string(), message: message.to_string() }
}

fn cat(id: i32, user_id: i32, name: &str, archived: bool) -> Category {
    Category { id, user_id, name: name.to_string(), descrip: format!("{name} things"), archived }
}

fn row(c: &Category) -> StrCategories {
    StrCategories {
        str_category_id: c.id,
        str_category_name: c.name.clone(),
        str_category_descrip: c.descrip.clone(),
        archived: c.archived,
    }
}

fn form(name: &str, descrip: &str) -> CategoryForm {
    CategoryForm { name: name.to_string(), descrip: descrip.to_string() }
}

#[test]
fn category_page_splits_active_and_archived() {
    let cats = vec![cat(1, 7, "Food", false), cat(2, 7, "Old", true), cat(3, 7, "Rent", false)];
    let page = category_get(Some(FlashMessage { name: "success".into(), msg: "ok".into() }), &cats);
    assert_eq!(page.title, "Categories");
    assert!(page.authenticated);
    assert_eq!(page.flash_class, "success");
    assert_eq!(page.flash_msg, "ok");
    assert_eq!(page.total_categories, 3);
    assert_eq!(page.str_categories, vec![row(&cats[0]), row(&cats[2])]);
    assert_eq!(page.archived_categories, vec![row(&cats[1])]);
}

#[test]
fn category_page_without_categories() {
    let page = category_get(None, &vec![]);
    assert_eq!(page.total_categories, 0);
    assert!(page.str_categories.is_empty());
    assert!(page.archived_categories.is_empty());
}

#[test]
fn adding_a_category_validates_fields() {
    let user = IsUser("7".to_string());
    assert_eq!(
        category_post(&user, &form("", "d")),
        RouteAction::Respond(Err(note(FlashKind::Error, "/category", "Category name cannot be blank")))
    );
    assert_eq!(
        category_post(&user, &form("n", "")),
        RouteAction::Respond(Err(note(FlashKind::Error, "/category", "Category description cannot be blank")))
    );
    assert_eq!(
        category_post(&IsUser("seven".to_string()), &form("n", "d")),
        RouteAction::Fail { reason: "Not a number".to_string() }
    );
    assert_eq!(
        category_post(&user, &form("Food", "Groceries")),
        RouteAction::Write {
            write: DbWrite::CreateCategory { user_id: 7, name: "Food".into(), descrip: "Groceries".into() },
            response: note(FlashKind::Success, "/category", "Category successfully added"),
        }
    );
}

#[test]
fn edit_page_only_for_the_owner() {
    let c = cat(4, 7, "Fun", false);
    match category_edit_get(None, 8, "4", &c) {
        GuardedPage::Unauthorized(p) => {
            assert_eq!(p.title, "Edit Category");
            assert!(p.authenticated);
            assert!(!p.authorized);
        }
        other => panic!("unexpected {other:?}"),
    }
    match category_edit_get(None, 7, "4", &c) {
        GuardedPage::Authorized(p) => {
            assert!(p.authorized);
            assert_eq!(p.total_categories, 1);
            assert_eq!(p.category_id, "4");
            assert_eq!(p.category_name, "Fun");
            assert_eq!(p.category_descrip, "Fun things");
        }
        other => panic!("unexpected {other:?}"),
    }
}

#[test]
fn editing_a_category() {
    let c = cat(4, 7, "Fun", false);
    assert_eq!(
        category_edit_post(8, 4, &form("a", "b"), &c),
        RouteAction::Respond(Err(note(
            FlashKind::Error,
            "/category",
            "You cannot edit a category that does not belong to you!"
        )))
    );
    assert_eq!(
        category_edit_post(7, 4, &form("", "b"), &c),
        RouteAction::Respond(Err(note(FlashKind::Error, "/category", "Category name cannot be blank")))
    );
    assert_eq!(
        category_edit_post(7, 4, &form("a", ""), &c),
        RouteAction::Respond(Err(note(FlashKind::Error, "/category", "Category description cannot be blank")))
    );
    assert_eq!(
        category_edit_post(7, 4, &form("a", "b"), &c),
        RouteAction::Write {
            write: DbWrite::UpdateCategory { category_id: 4, name: "a".into(), descrip: "b".into() },
            response: note(FlashKind::Success, "/category", "Category updated successfully!"),
        }
    );
}

#[test]
fn archiving_and_unarchiving() {
    let c = cat(4, 7, "Fun", false);
    assert_eq!(
        category_archive_get(7, 4, &c),
        RouteAction::Write {
            write: DbWrite::ArchiveCategory { category_id: 4 },
            response: note(FlashKind::Success, "/category", "Category archived successfully"),
        }
    );
    assert_eq!(
        category_archive_get(9, 4, &c),
        RouteAction::Respond(Err(note(
            FlashKind::Error,
            "/category",
            "You attempted to archive a category that is not associated with your account"
        )))
    );
    assert_eq!(
        category_unarchive_get(7, 4, &c),
        RouteAction::Write {
            write: DbWrite::UnarchiveCategory { category_id: 4 },
            response: note(FlashKind::Success, "/category", "Category unarchived successfully"),
        }
    );
    assert_eq!(
        category_unarchive_get(9, 4, &c),
        RouteAction::Respond(Err(note(
            FlashKind::Error,
            "/category",
            "You attempted to unarchive a category that is not associated with your account"
        )))
    );
}

#[test]
fn a_missing_category_belongs_to_nobody() {
    let missing = Category::found_or_missing(None);
    assert_eq!(missing.id, -1);
    assert_eq!(
        category_archive_get(7, 99, &missing),
        RouteAction::Respond(Err(note(
            FlashKind::Error,
            "/category",
            "You attempted to archive a category that is not associated with your account"
        )))
    );
}

#[test]
fn category_visitors_are_sent_to_login() {
    let refused = Err(note(FlashKind::Error, "/login", "You need to login, or register!"));
    assert_eq!(category_get_nonuser(), refused);
    assert_eq!(category_post_nonuser(), refused);
    assert_eq!(category_edit_get_nonuser("3"), refused);
    assert_eq!(category_edit_post_nonuser("3"), refused);
    assert_eq!(category_archive_get_nonuser("3"), refused);
    assert_eq!(category_unarchive_get_nonuser("3"), refused);
}
