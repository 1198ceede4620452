//! Properties that relate several routes of the application.

use vstd::prelude::*;
use crate::actions::{DbWriteView, RouteActionView};
use crate::categories::{category_archive_view, category_edit_post_view, category_post_view, category_unarchive_view};
use crate::contexts::StrCategories;
use crate::expenses::{expense_delete_post_view, expense_edit_post_view, expense_post_view, recent_count};
use crate::flash::{FlashKind, note};
use crate::forms::{CategoryForm, ExpenseDeleteForm, ExpenseForm, LoginForm, RegisterForm};
use crate::listing::{all_category_rows, category_row, category_rows, expense_rows};
use crate::models::{Category, Expense, User, is_missing_user};
use crate::password::bcrypt_verify_result;
use crate::session::{AuthActionView, IsUser, login_refused, login_view, register_created_view, register_lookup_allows};
use crate::text::{decimal_text, lemma_decimal_round_trip, parse_decimal_i32};

verus! {

/// A user who registered can log in. Where registering with `form` reached
/// the step that creates the user with some email and password hash, and
/// the record later found under that email carries them, logging in with
/// the same password signs that user in and sends them home. This needs a
/// non-empty email: an empty one reads as "no such user".
pub proof fn lemma_registered_user_can_log_in(
    form: RegisterForm,
    existing: User,
    created: AuthActionView,
    stored: User,
    login: LoginForm,
)
    requires
        register_lookup_allows(form, existing, created),
        created matches AuthActionView::CreateUser { email, password_hash } && stored.email@ == email
            && stored.password@ == password_hash,
        form.email@.len() != 0,
        login.email@ == form.email@,
        login.password@ == form.password@,
    ensures
        login_view(stored, bcrypt_verify_result(login.password@, stored.password@))
            == (AuthActionView::SignIn {
            user_id: decimal_text(stored.id as int),
            response: note(FlashKind::Success, "/home"@, stored.email@ + " logged in"@),
        }),
{
}

/// Logging in with an email that has no account is refused with the same
/// answer as logging in with a wrong password.
pub proof fn lemma_unknown_email_refused_like_wrong_password(
    missing: User,
    verified: Option<bool>,
    known: User,
)
    requires
        is_missing_user(missing),
        known.email@.len() != 0,
    ensures
        login_view(missing, verified) == login_refused(),
        login_view(known, Some(false)) == login_refused(),
{
}

/// The session cookie names the signed-in user: the cookie value that
/// logging in or registering sets reads back, on every later request, as
/// that user's id.
pub proof fn lemma_session_cookie_identifies_user(user: User, verified: Option<bool>, cookie: IsUser)
    ensures
        login_view(user, verified) matches AuthActionView::SignIn { user_id, .. } && cookie.0@
            == user_id ==> parse_decimal_i32(cookie.0@) == Some(user.id),
        register_created_view(user) matches AuthActionView::SignIn { user_id, .. } && cookie.0@
            == user_id ==> parse_decimal_i32(cookie.0@) == Some(user.id),
{
    lemma_decimal_round_trip(user.id);
}

/// Only a record's owner changes it: whenever editing, archiving or
/// unarchiving a category, or editing or deleting an expense, writes to the
/// database, the record belongs to the user who asked.
pub proof fn lemma_only_owners_change_records(
    user_id: i32,
    category_id: i32,
    category_form: CategoryForm,
    category: Category,
    expense_id: i32,
    new_category_id: i32,
    expense_form: ExpenseForm,
    delete_form: ExpenseDeleteForm,
    expense: Expense,
)
    ensures
        category_edit_post_view(user_id, category_id, category_form, category) is Write
            ==> category.user_id == user_id,
        category_archive_view(user_id, category_id, category) is Write ==> category.user_id
            == user_id,
        category_unarchive_view(user_id, category_id, category) is Write ==> category.user_id
            == user_id,
        expense_edit_post_view(user_id, expense_id, new_category_id, expense_form, expense) is Write
            ==> expense.user_id == user_id,
        expense_delete_post_view(user_id, expense_id, delete_form, expense) is Write
            ==> expense.user_id == user_id,
{
}

/// Nothing blank is saved: a category is never created or updated with a
/// blank name or description, and an expense never created with a blank
/// amount nor updated with a blank name or amount.
pub proof fn lemma_blank_fields_never_saved(
    user: IsUser,
    user_id: i32,
    category_id: i32,
    category_form: CategoryForm,
    category: Category,
    expense_id: i32,
    new_category_id: i32,
    expense_form: ExpenseForm,
    amount: Option<(bool, Seq<char>)>,
    expense: Expense,
)
    ensures
        category_form.name@.len() == 0 || category_form.descrip@.len() == 0 ==> !(
        category_post_view(user, category_form) is Write) && !(category_edit_post_view(
            user_id,
            category_id,
            category_form,
            category,
        ) is Write),
        expense_form.amount@.len() == 0 ==> !(expense_post_view(
            user,
            expense_form,
            amount,
        ) is Write),
        expense_form.name@.len() == 0 || expense_form.amount@.len() == 0 ==> !(
        expense_edit_post_view(user_id, expense_id, new_category_id, expense_form, expense) is Write),
{
}

/// The delete page and the delete form agree: when the owner posts back the
/// expense's id as the page writes it, the expense is deleted.
pub proof fn lemma_delete_confirmation_accepted(
    user_id: i32,
    expense_id: i32,
    form: ExpenseDeleteForm,
    expense: Expense,
)
    requires
        expense.user_id == user_id,
        form.delete_expense_id@ == decimal_text(expense.id as int),
    ensures
        expense_delete_post_view(user_id, expense_id, form, expense) matches RouteActionView::Write {
            write,
            ..
        } && write == (DbWriteView::DeleteExpense { expense_id }),
{
}

/// The categories page lists every category exactly once: the active list
/// holds just the categories that are not archived and the archived list
/// just those that are, so together they are as long as the whole.
pub proof fn lemma_category_lists_partition(cs: Seq<Category>)
    ensures
        category_rows(cs, false).len() + category_rows(cs, true).len() == cs.len(),
        forall|i: int|
            0 <= i < category_rows(cs, false).len() ==> !(#[trigger] category_rows(cs, false)[i]).archived,
        forall|i: int|
            0 <= i < category_rows(cs, true).len() ==> (#[trigger] category_rows(cs, true)[i]).archived,
    decreases cs.len(),
{
    if cs.len() > 0 {
        lemma_category_lists_partition(cs.drop_last());
        let a = category_rows(cs.drop_last(), false);
        let b = category_rows(cs.drop_last(), true);
        if cs.last().archived {
            assert(category_rows(cs, false) == a);
            assert forall|i: int|
                0 <= i < category_rows(cs, true).len() implies (#[trigger] category_rows(cs, true)[i]).archived by {
                if i < b.len() {
                    assert(category_rows(cs, true)[i] == b[i]);
                }
            }
        } else {
            assert(category_rows(cs, true) == b);
            assert forall|i: int|
                0 <= i < category_rows(cs, false).len() implies !(#[trigger] category_rows(cs, false)[i]).archived by {
                if i < a.len() {
                    assert(category_rows(cs, false)[i] == a[i]);
                }
            }
        }
    }
}

/// Whether a listed category is active.
pub open spec fn is_active_row() -> spec_fn(StrCategories) -> bool {
    |s: StrCategories| !s.archived
}

/// The categories to choose from on the expense pages are the reports
/// page's categories without the archived ones, in the same order.
pub proof fn lemma_active_rows_filter_all_rows(cs: Seq<Category>)
    ensures
        category_rows(cs, false) == all_category_rows(cs).filter(is_active_row()),
    decreases cs.len(),
{
    reveal(Seq::filter);
    if cs.len() == 0 {
        assert(all_category_rows(cs) =~= Seq::<StrCategories>::empty());
    } else {
        lemma_active_rows_filter_all_rows(cs.drop_last());
        let all = all_category_rows(cs);
        assert(all.drop_last() =~= all_category_rows(cs.drop_last()));
        assert(all.last() == category_row(cs.last()));
    }
}

/// The expense page is the head of the reports page: for the same user,
/// with the category names of the listed expenses agreeing, the expense
/// page lists the first five expense rows of the reports page (all of them
/// where there are fewer), the same numbers of expenses and categories, and
/// the reports page's categories without the archived ones.
pub proof fn lemma_expense_page_heads_reports(
    cs: Seq<Category>,
    es: Seq<Expense>,
    recent_names: Seq<String>,
    names: Seq<String>,
)
    requires
        recent_names.len() == recent_count(es.len() as int),
        names.len() == es.len(),
        forall|i: int| 0 <= i < recent_names.len() ==> recent_names[i] == names[i],
    ensures
        expense_rows(es, recent_names, recent_count(es.len() as int)) == expense_rows(
            es,
            names,
            es.len() as int,
        ).take(recent_count(es.len() as int)),
        category_rows(cs, false) == all_category_rows(cs).filter(is_active_row()),
{
    let k = recent_count(es.len() as int);
    assert(expense_rows(es, recent_names, k) =~= expense_rows(es, names, es.len() as int).take(k));
    lemma_active_rows_filter_all_rows(cs);
}

} // verus!
