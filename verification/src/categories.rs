//! The category routes: list, add, edit, archive and unarchive a user's
//! spending categories.

use vstd::prelude::*;
use crate::actions::{DbWrite, DbWriteView, GuardedPage, RouteAction, RouteActionView};
use crate::contexts::{CategoryContext, EditCategoryContext};
use crate::flash::{
    FlashKind, FlashMessage, FlashRedirect, flash_redirect, not_logged_in, note, page_flash,
    page_flash_view, response_view,
};
use crate::forms::CategoryForm;
use crate::listing::{category_rows, category_rows_of, is_unauthorized_page, unauthorized_page};
use crate::models::Category;
use crate::session::{IsUser, login_required};
use crate::text::parse_decimal_i32;

verus! {

/// The categories page of a user whose categories are `categories`: the
/// active ones and the archived ones in two lists, each in the given order,
/// and the number of all of them.
pub fn category_get(flash: Option<FlashMessage>, categories: &Vec<Category>) -> (r: CategoryContext)
    ensures
        r.title@ == "Categories"@,
        r.authenticated,
        r.flash_class@ == page_flash_view(flash).0,
        r.flash_msg@ == page_flash_view(flash).1,
        r.total_categories == categories@.len(),
        r.str_categories@ == category_rows(categories@, false),
        r.archived_categories@ == category_rows(categories@, true),
{
    let (class, msg) = page_flash(flash);
    CategoryContext {
        title: String::from_str("Categories"),
        authenticated: true,
        flash_class: class,
        flash_msg: msg,
        total_categories: categories.len(),
        str_categories: category_rows_of(categories, false),
        archived_categories: category_rows_of(categories, true),
    }
}

/// A visitor may not list categories.
pub fn category_get_nonuser() -> (r: Result<FlashRedirect, FlashRedirect>)
    ensures
        response_view(r) == login_required(),
{
    not_logged_in("/login")
}

pub open spec fn category_error(message: Seq<char>) -> RouteActionView {
    RouteActionView::Respond(Err(note(FlashKind::Error, "/category"@, message)))
}

/// Adding a category: its name and its description must not be blank; the
/// user's id is read from their cookie.
pub open spec fn category_post_view(user: IsUser, form: CategoryForm) -> RouteActionView {
    if form.name@.len() == 0 {
        category_error("Category name cannot be blank"@)
    } else if form.descrip@.len() == 0 {
        category_error("Category description cannot be blank"@)
    } else {
        match parse_decimal_i32(user.0@) {
            None => RouteActionView::Fail { reason: "Not a number"@ },
            Some(uid) => RouteActionView::Write {
                write: DbWriteView::CreateCategory {
                    user_id: uid,
                    name: form.name@,
                    descrip: form.descrip@,
                },
                response: note(FlashKind::Success, "/category"@, "Category successfully added"@),
            },
        }
    }
}

/// A logged-in user adds a category: see [`category_post_view`].
pub fn category_post(user: &IsUser, form: &CategoryForm) -> (r: RouteAction)
    ensures
        r@ == category_post_view(*user, *form),
{
    if form.name.as_str().is_empty() {
        return RouteAction::Respond(
            Err(flash_redirect(FlashKind::Error, "/category", "Category name cannot be blank")),
        );
    }
    if form.descrip.as_str().is_empty() {
        return RouteAction::Respond(
            Err(flash_redirect(FlashKind::Error, "/category", "Category description cannot be blank")),
        );
    }
    match user.user_id() {
        None => RouteAction::Fail { reason: String::from_str("Not a number") },
        Some(uid) => RouteAction::Write {
            write: DbWrite::CreateCategory {
                user_id: uid,
                name: form.name.clone(),
                descrip: form.descrip.clone(),
            },
            response: flash_redirect(FlashKind::Success, "/category", "Category successfully added"),
        },
    }
}

/// A visitor may not add a category.
pub fn category_post_nonuser() -> (r: Result<FlashRedirect, FlashRedirect>)
    ensures
        response_view(r) == login_required(),
{
    not_logged_in("/login")
}

/// The page for editing `category` (found under the id written
/// `category_id` in the address) asked for by user `user_id`: only the
/// category's owner may see it.
pub open spec fn category_edit_page_ok(
    flash: Option<FlashMessage>,
    user_id: i32,
    category_id: Seq<char>,
    category: Category,
    r: GuardedPage<EditCategoryContext>,
) -> bool {
    if category.user_id != user_id {
        r matches GuardedPage::Unauthorized(p) && is_unauthorized_page(p, "Edit Category"@, flash)
    } else {
        r matches GuardedPage::Authorized(p) && {
            &&& p.title@ == "Edit Category"@
            &&& p.authenticated
            &&& p.authorized
            &&& p.flash_class@ == page_flash_view(flash).0
            &&& p.flash_msg@ == page_flash_view(flash).1
            &&& p.total_categories == 1
            &&& p.category_id@ == category_id
            &&& p.category_name == category.name
            &&& p.category_descrip == category.descrip
        }
    }
}

/// A logged-in user opens the edit page of a category: see [`category_edit_page_ok`].
pub fn category_edit_get(
    flash: Option<FlashMessage>,
    user_id: i32,
    category_id: &str,
    category: &Category,
) -> (r: GuardedPage<EditCategoryContext>)
    ensures
        category_edit_page_ok(flash, user_id, category_id@, *category, r),
{
    if category.user_id != user_id {
        return GuardedPage::Unauthorized(unauthorized_page("Edit Category", flash));
    }
    let (class, msg) = page_flash(flash);
    GuardedPage::Authorized(
        EditCategoryContext {
            title: String::from_str("Edit Category"),
            authenticated: true,
            authorized: true,
            flash_class: class,
            flash_msg: msg,
            total_categories: 1,
            category_id: String::from_str(category_id),
            category_name: category.name.clone(),
            category_descrip: category.descrip.clone(),
        },
    )
}

/// A visitor may not open a category's edit page.
pub fn category_edit_get_nonuser(category_id: &str) -> (r: Result<FlashRedirect, FlashRedirect>)
    ensures
        response_view(r) == login_required(),
{
    not_logged_in("/login")
}

/// Editing `category` (the one with id `category_id`) as user `user_id`:
/// only its owner may, and neither field may be left blank.
pub open spec fn category_edit_post_view(
    user_id: i32,
    category_id: i32,
    form: CategoryForm,
    category: Category,
) -> RouteActionView {
    if category.user_id != user_id {
        category_error("You cannot edit a category that does not belong to you!"@)
    } else if form.name@.len() == 0 {
        category_error("Category name cannot be blank"@)
    } else if form.descrip@.len() == 0 {
        category_error("Category description cannot be blank"@)
    } else {
        RouteActionView::Write {
            write: DbWriteView::UpdateCategory {
                category_id,
                name: form.name@,
                descrip: form.descrip@,
            },
            response: note(FlashKind::Success, "/category"@, "Category updated successfully!"@),
        }
    }
}

/// A logged-in user edits a category: see [`category_edit_post_view`].
pub fn category_edit_post(user_id: i32, category_id: i32, form: &CategoryForm, category: &Category) -> (r:
    RouteAction)
    ensures
        r@ == category_edit_post_view(user_id, category_id, *form, *category),
{
    if category.user_id != user_id {
        return RouteAction::Respond(
            Err(
                flash_redirect(
                    FlashKind::Error,
                    "/category",
                    "You cannot edit a category that does not belong to you!",
                ),
            ),
        );
    }
    if form.name.as_str().is_empty() {
        return RouteAction::Respond(
            Err(flash_redirect(FlashKind::Error, "/category", "Category name cannot be blank")),
        );
    }
    if form.descrip.as_str().is_empty() {
        return RouteAction::Respond(
            Err(flash_redirect(FlashKind::Error, "/category", "Category description cannot be blank")),
        );
    }
    RouteAction::Write {
        write: DbWrite::UpdateCategory {
            category_id,
            name: form.name.clone(),
            descrip: form.descrip.clone(),
        },
        response: flash_redirect(FlashKind::Success, "/category", "Category updated successfully!"),
    }
}

/// A visitor may not edit a category.
pub fn category_edit_post_nonuser(category_id: &str) -> (r: Result<FlashRedirect, FlashRedirect>)
    ensures
        response_view(r) == login_required(),
{
    not_logged_in("/login")
}

/// Archiving `category` (the one with id `category_id`) as user `user_id`:
/// only its owner may.
pub open spec fn category_archive_view(user_id: i32, category_id: i32, category: Category) -> RouteActionView {
    if category.user_id != user_id {
        category_error(
            "You attempted to archive a category that is not associated with your account"@,
        )
    } else {
        RouteActionView::Write {
            write: DbWriteView::ArchiveCategory { category_id },
            response: note(FlashKind::Success, "/category"@, "Category archived successfully"@),
        }
    }
}

/// A logged-in user archives a category: see [`category_archive_view`].
pub fn category_archive_get(user_id: i32, category_id: i32, category: &Category) -> (r: RouteAction)
    ensures
        r@ == category_archive_view(user_id, category_id, *category),
{
    if category.user_id != user_id {
        return RouteAction::Respond(
            Err(
                flash_redirect(
                    FlashKind::Error,
                    "/category",
                    "You attempted to archive a category that is not associated with your account",
                ),
            ),
        );
    }
    RouteAction::Write {
        write: DbWrite::ArchiveCategory { category_id },
        response: flash_redirect(FlashKind::Success, "/category", "Category archived successfully"),
    }
}

/// A visitor may not archive a category.
pub fn category_archive_get_nonuser(category_id: &str) -> (r: Result<FlashRedirect, FlashRedirect>)
    ensures
        response_view(r) == login_required(),
{
    not_logged_in("/login")
}

/// Unarchiving `category` (the one with id `category_id`) as user
/// `user_id`: only its owner may.
pub open spec fn category_unarchive_view(user_id: i32, category_id: i32, category: Category) -> RouteActionView {
    if category.user_id != user_id {
        category_error(
            "You attempted to unarchive a category that is not associated with your account"@,
        )
    } else {
        RouteActionView::Write {
            write: DbWriteView::UnarchiveCategory { category_id },
            response: note(FlashKind::Success, "/category"@, "Category unarchived successfully"@),
        }
    }
}

/// A logged-in user unarchives a category: see [`category_unarchive_view`].
pub fn category_unarchive_get(user_id: i32, category_id: i32, category: &Category) -> (r: RouteAction)
    ensures
        r@ == category_unarchive_view(user_id, category_id, *category),
{
    if category.user_id != user_id {
        return RouteAction::Respond(
            Err(
                flash_redirect(
                    FlashKind::Error,
                    "/category",
                    "You attempted to unarchive a category that is not associated with your account",
                ),
            ),
        );
    }
    RouteAction::Write {
        write: DbWrite::UnarchiveCategory { category_id },
        response: flash_redirect(FlashKind::Success, "/category", "Category unarchived successfully"),
    }
}

/// A visitor may not unarchive a category.
pub fn category_unarchive_get_nonuser(category_id: &str) -> (r: Result<FlashRedirect, FlashRedirect>)
    ensures
        response_view(r) == login_required(),
{
    not_logged_in("/login")
}

} // verus!
