//! The expense routes: list, add, edit and delete a user's expenses, and the
//! reports page.

use vstd::prelude::*;
use crate::actions::{DbWrite, DbWriteView, GuardedPage, RouteAction, RouteActionView};
use crate::contexts::{DeleteExpenseContext, EditExpenseContext, ExpenseContext, ReportListing};
use crate::flash::{
    FlashKind, FlashMessage, FlashRedirect, flash_redirect, not_logged_in, note, page_flash,
    page_flash_view, response_view,
};
use crate::forms::{ExpenseDeleteForm, ExpenseForm};
use crate::listing::{
    all_category_rows, all_category_rows_of, category_rows, category_rows_of, expense_rows,
    expense_rows_of, is_unauthorized_page, unauthorized_page,
};
use crate::models::{Category, Expense};
use crate::session::{IsUser, login_required};
use crate::text::{decimal_text, format_i32, parse_decimal_i32, parse_i32};

verus! {

/// How many of a user's expenses the expense page lists.
pub const RECENT_EXPENSES_SHOWN: usize = 5;

/// The number of expenses the expense page lists when the user has `n`.
pub open spec fn recent_count(n: int) -> int {
    if n < RECENT_EXPENSES_SHOWN as int {
        n
    } else {
        RECENT_EXPENSES_SHOWN as int
    }
}

/// The categories whose names the expense page needs: those of the
/// expenses it lists, in order.
pub fn recent_category_ids(expenses: &Vec<Expense>) -> (r: Vec<i32>)
    ensures
        r@.len() == recent_count(expenses@.len() as int),
        forall|i: int| 0 <= i < r@.len() ==> r@[i] == #[trigger] expenses@[i].category_id,
{
    let k: usize = if expenses.len() < RECENT_EXPENSES_SHOWN {
        expenses.len()
    } else {
        RECENT_EXPENSES_SHOWN
    };
    let mut out: Vec<i32> = Vec::new();
    let mut i: usize = 0;
    while i < k
        invariant
            i <= k,
            k == recent_count(expenses@.len() as int),
            out@.len() == i,
            forall|j: int| 0 <= j < i ==> out@[j] == #[trigger] expenses@[j].category_id,
        decreases k - i,
    {
        out.push(expenses[i].category_id);
        i = i + 1;
    }
    out
}

/// The expense page of a user with `categories` and `expenses` (newest
/// first): the active categories to choose from, and the first expenses up
/// to [`RECENT_EXPENSES_SHOWN`], each with the name of its category, which
/// `names` holds in the same order.
pub fn expense_get(
    flash: Option<FlashMessage>,
    categories: &Vec<Category>,
    expenses: &Vec<Expense>,
    names: &Vec<String>,
) -> (r: ExpenseContext)
    requires
        names@.len() == recent_count(expenses@.len() as int),
    ensures
        r.title@ == "Expense"@,
        r.authenticated,
        r.flash_class@ == page_flash_view(flash).0,
        r.flash_msg@ == page_flash_view(flash).1,
        r.total_categories == categories@.len(),
        r.str_categories@ == category_rows(categories@, false),
        r.total_expenses == expenses@.len(),
        r.str_expenses@ == expense_rows(
            expenses@,
            names@,
            recent_count(expenses@.len() as int),
        ),
{
    let (class, msg) = page_flash(flash);
    let k: usize = if expenses.len() < RECENT_EXPENSES_SHOWN {
        expenses.len()
    } else {
        RECENT_EXPENSES_SHOWN
    };
    ExpenseContext {
        title: String::from_str("Expense"),
        authenticated: true,
        flash_class: class,
        flash_msg: msg,
        total_categories: categories.len(),
        str_categories: category_rows_of(categories, false),
        total_expenses: expenses.len(),
        str_expenses: expense_rows_of(expenses, names, k),
    }
}

/// A visitor may not list expenses.
pub fn expense_get_nonuser() -> (r: Result<FlashRedirect, FlashRedirect>)
    ensures
        response_view(r) == login_required(),
{
    not_logged_in("/login")
}

/// What reading the amount field as a floating-point number gave: whether
/// it is below zero, and the number written back as text.
#[derive(Debug, PartialEq, Eq)]
pub struct ParsedAmount {
    pub negative: bool,
    pub text: String,
}

pub open spec fn expense_error(message: Seq<char>) -> RouteActionView {
    RouteActionView::Respond(Err(note(FlashKind::Error, "/expense"@, message)))
}

/// Adding an expense, where `amount` is what reading the amount field as a
/// number gave (`None` where it is not one): the amount must not be blank,
/// must be a number and must not be below zero; the user's id and the
/// category id must be numbers. The amount is stored as the number's text.
pub open spec fn expense_post_view(user: IsUser, form: ExpenseForm, amount: Option<(bool, Seq<char>)>) -> RouteActionView {
    if form.amount@.len() == 0 {
        expense_error("Amount cannot be blank!"@)
    } else {
        match amount {
            None => RouteActionView::Fail { reason: "Not a number"@ },
            Some((negative, text)) => if negative {
                expense_error("Amount cannot be less than 0!"@)
            } else {
                match (parse_decimal_i32(user.0@), parse_decimal_i32(form.category_id@)) {
                    (Some(uid), Some(cid)) => RouteActionView::Write {
                        write: DbWriteView::CreateExpense {
                            user_id: uid,
                            category_id: cid,
                            name: form.name@,
                            amount: text,
                        },
                        response: note(FlashKind::Success, "/expense"@, "Expense successfully added"@),
                    },
                    _ => RouteActionView::Fail { reason: "Not a number"@ },
                }
            },
        }
    }
}

pub open spec fn parsed_amount_view(amount: Option<ParsedAmount>) -> Option<(bool, Seq<char>)> {
    match amount {
        Some(a) => Some((a.negative, a.text@)),
        None => None,
    }
}

/// A logged-in user adds an expense: see [`expense_post_view`].
pub fn expense_post(user: &IsUser, form: &ExpenseForm, amount: Option<ParsedAmount>) -> (r: RouteAction)
    ensures
        r@ == expense_post_view(*user, *form, parsed_amount_view(amount)),
{
    if form.amount.as_str().is_empty() {
        return RouteAction::Respond(
            Err(flash_redirect(FlashKind::Error, "/expense", "Amount cannot be blank!")),
        );
    }
    let parsed = match amount {
        None => {
            return RouteAction::Fail { reason: String::from_str("Not a number") };
        },
        Some(a) => a,
    };
    if parsed.negative {
        return RouteAction::Respond(
            Err(flash_redirect(FlashKind::Error, "/expense", "Amount cannot be less than 0!")),
        );
    }
    let uid = match user.user_id() {
        None => {
            return RouteAction::Fail { reason: String::from_str("Not a number") };
        },
        Some(u) => u,
    };
    let cid = match parse_i32(form.category_id.as_str()) {
        None => {
            return RouteAction::Fail { reason: String::from_str("Not a number") };
        },
        Some(c) => c,
    };
    RouteAction::Write {
        write: DbWrite::CreateExpense {
            user_id: uid,
            category_id: cid,
            name: form.name.clone(),
            amount: parsed.text,
        },
        response: flash_redirect(FlashKind::Success, "/expense", "Expense successfully added"),
    }
}

/// A visitor may not add an expense.
pub fn expense_post_nonuser() -> (r: Result<FlashRedirect, FlashRedirect>)
    ensures
        response_view(r) == login_required(),
{
    not_logged_in("/login")
}

/// The page for editing `expense`, asked for by user `user_id` who has
/// `categories`: only the expense's owner may see it, with the active
/// categories to choose from.
pub open spec fn expense_edit_page_ok(
    flash: Option<FlashMessage>,
    user_id: i32,
    categories: Seq<Category>,
    expense: Expense,
    r: GuardedPage<EditExpenseContext>,
) -> bool {
    if expense.user_id != user_id {
        r matches GuardedPage::Unauthorized(p) && is_unauthorized_page(p, "Edit Expense"@, flash)
    } else {
        r matches GuardedPage::Authorized(p) && {
            &&& p.title@ == "Edit Expense"@
            &&& p.authenticated
            &&& p.authorized
            &&& p.flash_class@ == page_flash_view(flash).0
            &&& p.flash_msg@ == page_flash_view(flash).1
            &&& p.total_categories == categories.len()
            &&& p.str_categories@ == category_rows(categories, false)
            &&& p.expense_id@ == decimal_text(expense.id as int)
            &&& p.category_id@ == decimal_text(expense.category_id as int)
            &&& p.expense_name == expense.name
            &&& p.expense_amount == expense.amount
        }
    }
}

/// A logged-in user opens the edit page of an expense: see [`expense_edit_page_ok`].
pub fn expense_edit_get(
    flash: Option<FlashMessage>,
    user_id: i32,
    categories: &Vec<Category>,
    expense: &Expense,
) -> (r: GuardedPage<EditExpenseContext>)
    ensures
        expense_edit_page_ok(flash, user_id, categories@, *expense, r),
{
    if expense.user_id != user_id {
        return GuardedPage::Unauthorized(unauthorized_page("Edit Expense", flash));
    }
    let (class, msg) = page_flash(flash);
    GuardedPage::Authorized(
        EditExpenseContext {
            title: String::from_str("Edit Expense"),
            authenticated: true,
            authorized: true,
            flash_class: class,
            flash_msg: msg,
            total_categories: categories.len(),
            str_categories: category_rows_of(categories, false),
            expense_id: format_i32(expense.id),
            category_id: format_i32(expense.category_id),
            expense_name: expense.name.clone(),
            expense_amount: expense.amount.clone(),
        },
    )
}

/// A visitor may not open an expense's edit page.
pub fn expense_edit_get_nonuser(expense_id: &str) -> (r: Result<FlashRedirect, FlashRedirect>)
    ensures
        response_view(r) == login_required(),
{
    not_logged_in("/login")
}

/// Editing `expense` (the one with id `expense_id`) as user `user_id`,
/// moving it to category `category_id`: only its owner may, and neither the
/// name nor the amount may be left blank.
pub open spec fn expense_edit_post_view(
    user_id: i32,
    expense_id: i32,
    category_id: i32,
    form: ExpenseForm,
    expense: Expense,
) -> RouteActionView {
    if expense.user_id != user_id {
        expense_error("You cannot edit an expense that does not belong to you!"@)
    } else if form.name@.len() == 0 {
        expense_error("Expense name cannot be blank"@)
    } else if form.amount@.len() == 0 {
        expense_error("Expense amount cannot be blank"@)
    } else {
        RouteActionView::Write {
            write: DbWriteView::UpdateExpense {
                expense_id,
                category_id,
                name: form.name@,
                amount: form.amount@,
            },
            response: note(FlashKind::Success, "/expense"@, "Expense updated successfully!"@),
        }
    }
}

/// A logged-in user edits an expense: see [`expense_edit_post_view`].
pub fn expense_edit_post(
    user_id: i32,
    expense_id: i32,
    category_id: i32,
    form: &ExpenseForm,
    expense: &Expense,
) -> (r: RouteAction)
    ensures
        r@ == expense_edit_post_view(user_id, expense_id, category_id, *form, *expense),
{
    if expense.user_id != user_id {
        return RouteAction::Respond(
            Err(
                flash_redirect(
                    FlashKind::Error,
                    "/expense",
                    "You cannot edit an expense that does not belong to you!",
                ),
            ),
        );
    }
    if form.name.as_str().is_empty() {
        return RouteAction::Respond(
            Err(flash_redirect(FlashKind::Error, "/expense", "Expense name cannot be blank")),
        );
    }
    if form.amount.as_str().is_empty() {
        return RouteAction::Respond(
            Err(flash_redirect(FlashKind::Error, "/expense", "Expense amount cannot be blank")),
        );
    }
    RouteAction::Write {
        write: DbWrite::UpdateExpense {
            expense_id,
            category_id,
            name: form.name.clone(),
            amount: form.amount.clone(),
        },
        response: flash_redirect(FlashKind::Success, "/expense", "Expense updated successfully!"),
    }
}

/// A visitor may not edit an expense.
pub fn expense_edit_post_nonuser(expense_id: &str) -> (r: Result<FlashRedirect, FlashRedirect>)
    ensures
        response_view(r) == login_required(),
{
    not_logged_in("/login")
}

/// The page that asks user `user_id` to confirm deleting `expense` (the one
/// with id `expense_id`): only the expense's owner may see it.
pub open spec fn expense_delete_page_ok(
    flash: Option<FlashMessage>,
    user_id: i32,
    expense_id: i32,
    expense: Expense,
    r: GuardedPage<DeleteExpenseContext>,
) -> bool {
    if expense.user_id != user_id {
        r matches GuardedPage::Unauthorized(p) && is_unauthorized_page(p, "Edit Category"@, flash)
    } else {
        r matches GuardedPage::Authorized(p) && {
            &&& p.title@ == "Delete Expense"@
            &&& p.authenticated
            &&& p.authorized
            &&& p.flash_class@ == page_flash_view(flash).0
            &&& p.flash_msg@ == page_flash_view(flash).1
            &&& p.expense_id == expense_id
        }
    }
}

/// A logged-in user opens the delete page of an expense: see [`expense_delete_page_ok`].
pub fn expense_delete_get(
    flash: Option<FlashMessage>,
    user_id: i32,
    expense_id: i32,
    expense: &Expense,
) -> (r: GuardedPage<DeleteExpenseContext>)
    ensures
        expense_delete_page_ok(flash, user_id, expense_id, *expense, r),
{
    if expense.user_id != user_id {
        return GuardedPage::Unauthorized(unauthorized_page("Edit Category", flash));
    }
    let (class, msg) = page_flash(flash);
    GuardedPage::Authorized(
        DeleteExpenseContext {
            title: String::from_str("Delete Expense"),
            authenticated: true,
            authorized: true,
            flash_class: class,
            flash_msg: msg,
            expense_id,
        },
    )
}

/// A visitor may not open an expense's delete page.
pub fn expense_delete_get_nonuser(expense_id: &str) -> (r: Result<FlashRedirect, FlashRedirect>)
    ensures
        response_view(r) == login_required(),
{
    not_logged_in("/login")
}

/// Deleting `expense` (the one with id `expense_id`) as user `user_id`:
/// only its owner may, and the form must carry the expense's id, written in
/// decimal.
pub open spec fn expense_delete_post_view(
    user_id: i32,
    expense_id: i32,
    form: ExpenseDeleteForm,
    expense: Expense,
) -> RouteActionView {
    if expense.user_id != user_id {
        expense_error(
            "You attempted to delete an expense that is not associated with your account!"@,
        )
    } else if decimal_text(expense.id as int) != form.delete_expense_id@ {
        expense_error("Expense IDs do not match!"@)
    } else {
        RouteActionView::Write {
            write: DbWriteView::DeleteExpense { expense_id },
            response: note(FlashKind::Success, "/expense"@, "Expense successfully deleted!"@),
        }
    }
}

/// A logged-in user deletes an expense: see [`expense_delete_post_view`].
pub fn expense_delete_post(
    user_id: i32,
    expense_id: i32,
    form: &ExpenseDeleteForm,
    expense: &Expense,
) -> (r: RouteAction)
    ensures
        r@ == expense_delete_post_view(user_id, expense_id, *form, *expense),
{
    if expense.user_id != user_id {
        return RouteAction::Respond(
            Err(
                flash_redirect(
                    FlashKind::Error,
                    "/expense",
                    "You attempted to delete an expense that is not associated with your account!",
                ),
            ),
        );
    }
    if format_i32(expense.id) != form.delete_expense_id {
        return RouteAction::Respond(
            Err(flash_redirect(FlashKind::Error, "/expense", "Expense IDs do not match!")),
        );
    }
    RouteAction::Write {
        write: DbWrite::DeleteExpense { expense_id },
        response: flash_redirect(FlashKind::Success, "/expense", "Expense successfully deleted!"),
    }
}

/// A visitor may not delete an expense.
pub fn expense_delete_post_nonuser(expense_id: &str) -> (r: Result<FlashRedirect, FlashRedirect>)
    ensures
        response_view(r) == login_required(),
{
    not_logged_in("/login")
}

/// The reports page of a user with `categories` and `expenses`: all
/// categories, archived ones too, and all expenses, each with the name of
/// its category, which `names` holds in the same order.
pub fn reports_get(
    flash: Option<FlashMessage>,
    categories: &Vec<Category>,
    expenses: &Vec<Expense>,
    names: &Vec<String>,
) -> (r: ReportListing)
    requires
        names@.len() == expenses@.len(),
    ensures
        r.title@ == "Reports"@,
        r.authenticated,
        r.authorized,
        r.flash_class@ == page_flash_view(flash).0,
        r.flash_msg@ == page_flash_view(flash).1,
        r.str_categories@ == all_category_rows(categories@),
        r.total_categories == categories@.len(),
        r.str_expenses@ == expense_rows(expenses@, names@, expenses@.len() as int),
        r.total_expenses == expenses@.len(),
{
    let (class, msg) = page_flash(flash);
    ReportListing {
        title: String::from_str("Reports"),
        authenticated: true,
        authorized: true,
        flash_class: class,
        flash_msg: msg,
        str_categories: all_category_rows_of(categories),
        total_categories: categories.len(),
        str_expenses: expense_rows_of(expenses, names, expenses.len()),
        total_expenses: expenses.len(),
    }
}

/// A visitor may not open the reports page.
pub fn reports_get_nonuser() -> (r: Result<FlashRedirect, FlashRedirect>)
    ensures
        response_view(r) == login_required(),
{
    not_logged_in("/login")
}

} // verus!
