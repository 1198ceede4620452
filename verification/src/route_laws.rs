//! What each route does, stated over all inputs in terms of the inputs and
//! the answer: which requests are refused with which notice, and which
//! change reaches the database with which fields.

use vstd::prelude::*;
use crate::actions::{DbWriteView, GuardedPage, RouteActionView};
use crate::categories::{
    category_archive_view, category_edit_post_view, category_post_view, category_unarchive_view,
};
use crate::categories::category_edit_page_ok;
use crate::contexts::{DeleteExpenseContext, EditCategoryContext, EditExpenseContext, StrCategories};
use crate::expenses::{
    expense_delete_page_ok, expense_edit_page_ok, expense_delete_post_view, expense_edit_post_view, expense_post_view, recent_count,
};
use crate::flash::{FlashKind, FlashMessage, FlashNote, page_flash_view};
use crate::forms::{CategoryForm, ExpenseDeleteForm, ExpenseForm, RegisterForm};
use crate::listing::{all_category_rows, category_rows, expense_rows};
use crate::models::{Category, Expense, User};
use crate::session::{
    AuthActionView, IsUser, login_view, register_created_view, register_hashed_view,
    register_lookup_allows, register_start_view,
};
use crate::text::{
    all_digits, decimal_text, digit_value, digits_value, is_digit, parse_decimal_i32,
};

verus! {

/// A failed answer that sends the user to `route` with the error `message`.
pub open spec fn refused(route: Seq<char>, message: Seq<char>) -> Result<FlashNote, FlashNote> {
    Err(FlashNote { kind: FlashKind::Error, route, message })
}

/// A success notice that sends the user to `route` with `message`.
pub open spec fn done(route: Seq<char>, message: Seq<char>) -> FlashNote {
    FlashNote { kind: FlashKind::Success, route, message }
}

/// Registering goes on to look up the email exactly when the password and
/// its confirmation are the same text; any difference, however small, is
/// refused with "Passwords don't match".
pub proof fn lemma_register_needs_equal_passwords(form: RegisterForm)
    ensures
        form.password@ == form.confirm_password@ ==> register_start_view(form)
            == (AuthActionView::LookupUser { email: form.email@ }),
        form.password@ != form.confirm_password@ ==> register_start_view(form)
            == AuthActionView::Respond(refused("/register"@, "Passwords don't match"@)),
        (register_start_view(form) is LookupUser) <==> form.password@ == form.confirm_password@,
{
}

/// An email that already has an account is never registered again: the
/// answer names the email; a free email leads to creating a user under the
/// form's email (or to stopping where hashing failed), never to a refusal.
pub proof fn lemma_register_lookup_outcomes(form: RegisterForm, existing: User, r: AuthActionView)
    requires
        register_lookup_allows(form, existing, r),
    ensures
        existing.email@.len() > 0 ==> r == AuthActionView::Respond(
            refused(
                "/register"@,
                "An account with email: "@ + existing.email@
                    + " already exists. Please login, or register with a new email address."@,
            ),
        ),
        existing.email@.len() == 0 ==> !(r is Respond) && !(r is SignIn) && !(r is LookupUser),
        r matches AuthActionView::CreateUser { email, .. } ==> email == form.email@,
        r matches AuthActionView::Fail { reason } ==> reason == "error"@,
{
}

/// The hashed password is what gets stored, under the form's email.
pub proof fn lemma_register_stores_the_hash(form: RegisterForm, h: Seq<char>)
    ensures
        register_hashed_view(form, Some(h)) == (AuthActionView::CreateUser {
            email: form.email@,
            password_hash: h,
        }),
        register_hashed_view(form, None) == (AuthActionView::Fail { reason: "error"@ }),
{
}

/// A newly registered user is signed in as themselves and sent home.
pub proof fn lemma_register_signs_in_new_user(user: User)
    ensures
        register_created_view(user) == (AuthActionView::SignIn {
            user_id: decimal_text(user.id as int),
            response: done("/home"@, "Account created for: "@ + user.email@),
        }),
        parse_decimal_i32(decimal_text(user.id as int)) == Some(user.id),
{
    crate::text::lemma_decimal_round_trip(user.id);
}

/// Logging in signs in exactly the known users whose password checks;
/// unknown emails and wrong passwords get one and the same refusal.
pub proof fn lemma_login_outcomes(user: User, verified: Option<bool>)
    ensures
        (login_view(user, verified) is SignIn) <==> (user.email@.len() > 0 && verified
            == Some(true)),
        user.email@.len() > 0 && verified == Some(true) ==> login_view(user, verified)
            == (AuthActionView::SignIn {
            user_id: decimal_text(user.id as int),
            response: done("/home"@, user.email@ + " logged in"@),
        }),
        user.email@.len() == 0 || verified == Some(false) ==> login_view(user, verified)
            == AuthActionView::Respond(refused("/login"@, "Email, or Password incorrect"@)),
        user.email@.len() > 0 && verified is None ==> login_view(user, verified)
            == (AuthActionView::Fail { reason: "error"@ }),
{
}

/// Adding a category: a blank name or description is refused; otherwise
/// exactly the form's name and description are saved for the user whose id
/// the cookie holds.
pub proof fn lemma_category_post_outcomes(user: IsUser, form: CategoryForm, uid: i32)
    ensures
        form.name@.len() == 0 ==> category_post_view(user, form) == RouteActionView::Respond(
            refused("/category"@, "Category name cannot be blank"@),
        ),
        form.name@.len() > 0 && form.descrip@.len() == 0 ==> category_post_view(user, form)
            == RouteActionView::Respond(
            refused("/category"@, "Category description cannot be blank"@),
        ),
        form.name@.len() > 0 && form.descrip@.len() > 0 && parse_decimal_i32(user.0@) is None
            ==> category_post_view(user, form) == (RouteActionView::Fail {
            reason: "Not a number"@,
        }),
        form.name@.len() > 0 && form.descrip@.len() > 0 && parse_decimal_i32(user.0@) == Some(uid)
            ==> category_post_view(user, form) == (RouteActionView::Write {
            write: DbWriteView::CreateCategory {
                user_id: uid,
                name: form.name@,
                descrip: form.descrip@,
            },
            response: done("/category"@, "Category successfully added"@),
        }),
{
}

/// Editing a category: another user's category is refused, blank fields
/// are refused, and an owner's edit with both fields filled always saves
/// exactly the form's name and description for that category.
pub proof fn lemma_category_edit_outcomes(
    user_id: i32,
    category_id: i32,
    form: CategoryForm,
    category: Category,
)
    ensures
        category.user_id != user_id ==> category_edit_post_view(user_id, category_id, form, category)
            == RouteActionView::Respond(
            refused("/category"@, "You cannot edit a category that does not belong to you!"@),
        ),
        category.user_id == user_id && form.name@.len() == 0 ==> category_edit_post_view(
            user_id,
            category_id,
            form,
            category,
        ) == RouteActionView::Respond(refused("/category"@, "Category name cannot be blank"@)),
        category.user_id == user_id && form.name@.len() > 0 && form.descrip@.len() == 0
            ==> category_edit_post_view(user_id, category_id, form, category)
            == RouteActionView::Respond(
            refused("/category"@, "Category description cannot be blank"@),
        ),
        category.user_id == user_id && form.name@.len() > 0 && form.descrip@.len() > 0
            ==> category_edit_post_view(user_id, category_id, form, category)
            == (RouteActionView::Write {
            write: DbWriteView::UpdateCategory {
                category_id,
                name: form.name@,
                descrip: form.descrip@,
            },
            response: done("/category"@, "Category updated successfully!"@),
        }),
{
}

/// Archiving marks the category archived and unarchiving marks it active,
/// whatever state it is in, for its owner only.
pub proof fn lemma_archive_and_unarchive_outcomes(user_id: i32, category_id: i32, category: Category)
    ensures
        category.user_id == user_id ==> category_archive_view(user_id, category_id, category)
            == (RouteActionView::Write {
            write: DbWriteView::ArchiveCategory { category_id },
            response: done("/category"@, "Category archived successfully"@),
        }),
        category.user_id == user_id ==> category_unarchive_view(user_id, category_id, category)
            == (RouteActionView::Write {
            write: DbWriteView::UnarchiveCategory { category_id },
            response: done("/category"@, "Category unarchived successfully"@),
        }),
        category.user_id != user_id ==> category_archive_view(user_id, category_id, category)
            == RouteActionView::Respond(
            refused(
                "/category"@,
                "You attempted to archive a category that is not associated with your account"@,
            ),
        ),
        category.user_id != user_id ==> category_unarchive_view(user_id, category_id, category)
            == RouteActionView::Respond(
            refused(
                "/category"@,
                "You attempted to unarchive a category that is not associated with your account"@,
            ),
        ),
{
}

/// Adding an expense: a blank amount is refused, an amount that is not a
/// number stops the request, a negative one is refused; otherwise the
/// expense is saved with the form's name, the number's text, and the ids
/// read from the cookie and the form.
pub proof fn lemma_expense_post_outcomes(
    user: IsUser,
    form: ExpenseForm,
    amount: Option<(bool, Seq<char>)>,
    text: Seq<char>,
    uid: i32,
    cid: i32,
)
    ensures
        form.amount@.len() == 0 ==> expense_post_view(user, form, amount)
            == RouteActionView::Respond(refused("/expense"@, "Amount cannot be blank!"@)),
        form.amount@.len() > 0 && amount is None ==> expense_post_view(user, form, amount) == (
        RouteActionView::Fail { reason: "Not a number"@ }),
        form.amount@.len() > 0 && amount == Some((true, text)) ==> expense_post_view(user, form, amount) == RouteActionView::Respond(
            refused("/expense"@, "Amount cannot be less than 0!"@),
        ),
        form.amount@.len() > 0 && amount == Some((false, text)) && parse_decimal_i32(user.0@)
            == Some(uid) && parse_decimal_i32(form.category_id@) == Some(cid) ==> expense_post_view(user, form, amount)
            == (RouteActionView::Write {
            write: DbWriteView::CreateExpense {
                user_id: uid,
                category_id: cid,
                name: form.name@,
                amount: text,
            },
            response: done("/expense"@, "Expense successfully added"@),
        }),
        (expense_post_view(user, form, amount) is Write) ==> form.amount@.len() > 0 && amount
            is Some && !amount.unwrap().0,
{
}

/// Editing an expense: another user's expense is refused, a blank name or
/// amount is refused, and an owner's edit with both filled always saves
/// exactly the form's name and amount and the chosen category.
pub proof fn lemma_expense_edit_outcomes(
    user_id: i32,
    expense_id: i32,
    category_id: i32,
    form: ExpenseForm,
    expense: Expense,
)
    ensures
        expense.user_id != user_id ==> expense_edit_post_view(
            user_id,
            expense_id,
            category_id,
            form,
            expense,
        ) == RouteActionView::Respond(
            refused("/expense"@, "You cannot edit an expense that does not belong to you!"@),
        ),
        expense.user_id == user_id && form.name@.len() == 0 ==> expense_edit_post_view(
            user_id,
            expense_id,
            category_id,
            form,
            expense,
        ) == RouteActionView::Respond(refused("/expense"@, "Expense name cannot be blank"@)),
        expense.user_id == user_id && form.name@.len() > 0 && form.amount@.len() == 0
            ==> expense_edit_post_view(user_id, expense_id, category_id, form, expense)
            == RouteActionView::Respond(refused("/expense"@, "Expense amount cannot be blank"@)),
        expense.user_id == user_id && form.name@.len() > 0 && form.amount@.len() > 0
            ==> expense_edit_post_view(user_id, expense_id, category_id, form, expense)
            == (RouteActionView::Write {
            write: DbWriteView::UpdateExpense {
                expense_id,
                category_id,
                name: form.name@,
                amount: form.amount@,
            },
            response: done("/expense"@, "Expense updated successfully!"@),
        }),
{
}

/// Deleting an expense: only its owner may, only with the expense's own id
/// in the form, and then exactly that expense is deleted.
pub proof fn lemma_expense_delete_outcomes(
    user_id: i32,
    expense_id: i32,
    form: ExpenseDeleteForm,
    expense: Expense,
)
    ensures
        expense.user_id != user_id ==> expense_delete_post_view(user_id, expense_id, form, expense)
            == RouteActionView::Respond(
            refused(
                "/expense"@,
                "You attempted to delete an expense that is not associated with your account!"@,
            ),
        ),
        expense.user_id == user_id && form.delete_expense_id@ != decimal_text(expense.id as int)
            ==> expense_delete_post_view(user_id, expense_id, form, expense)
            == RouteActionView::Respond(refused("/expense"@, "Expense IDs do not match!"@)),
        expense.user_id == user_id && form.delete_expense_id@ == decimal_text(expense.id as int)
            ==> expense_delete_post_view(user_id, expense_id, form, expense)
            == (RouteActionView::Write {
            write: DbWriteView::DeleteExpense { expense_id },
            response: done("/expense"@, "Expense successfully deleted!"@),
        }),
{
}

/// The expense page lists five expenses, or all of them where there are
/// fewer.
pub proof fn lemma_recent_count_is_at_most_five(n: int)
    requires
        n >= 0,
    ensures
        n <= 5 ==> recent_count(n) == n,
        n >= 5 ==> recent_count(n) == 5,
        0 <= recent_count(n) <= 5,
{
}

/// Each listed expense row carries the fields of the expense at the same
/// position and the category name given for it; there are as many rows as
/// asked for.
pub proof fn lemma_expense_rows_fields(es: Seq<Expense>, names: Seq<String>, k: int, i: int)
    requires
        0 <= k,
        0 <= i < k,
    ensures
        expense_rows(es, names, k).len() == k,
        expense_rows(es, names, k)[i].str_expense_id == es[i].id,
        expense_rows(es, names, k)[i].str_category_id == es[i].category_id,
        expense_rows(es, names, k)[i].str_category_name == names[i],
        expense_rows(es, names, k)[i].str_created == es[i].created,
        expense_rows(es, names, k)[i].str_name == es[i].name,
        expense_rows(es, names, k)[i].str_amount == es[i].amount,
{
}

/// The full category listing has one row per category, in order, with that
/// category's fields.
pub proof fn lemma_all_category_rows_fields(cs: Seq<Category>, i: int)
    requires
        0 <= i < cs.len(),
    ensures
        all_category_rows(cs).len() == cs.len(),
        all_category_rows(cs)[i].str_category_id == cs[i].id,
        all_category_rows(cs)[i].str_category_name == cs[i].name,
        all_category_rows(cs)[i].str_category_descrip == cs[i].descrip,
        all_category_rows(cs)[i].archived == cs[i].archived,
{
}

/// Whether a listed category is archived.
pub open spec fn is_archived_row() -> spec_fn(StrCategories) -> bool {
    |s: StrCategories| s.archived
}

/// The archived list of the categories page is the full listing with only
/// the archived categories kept, in the same order.
pub proof fn lemma_archived_rows_filter_all_rows(cs: Seq<Category>)
    ensures
        category_rows(cs, true) == all_category_rows(cs).filter(is_archived_row()),
    decreases cs.len(),
{
    reveal(Seq::filter);
    if cs.len() == 0 {
        assert(all_category_rows(cs) =~= Seq::<StrCategories>::empty());
    } else {
        lemma_archived_rows_filter_all_rows(cs.drop_last());
        let all = all_category_rows(cs);
        assert(all.drop_last() =~= all_category_rows(cs.drop_last()));
    }
}

/// A page handed no notice shows the class `alert` and the text
/// "No flash message".
pub proof fn lemma_page_without_notice()
    ensures
        page_flash_view(None) == ("alert"@, "No flash message"@),
{
    reveal_strlit("no class&No flash message");
    reveal_strlit("success");
    reveal_strlit("alert");
    reveal_strlit("No flash message");
    crate::flash::lemma_flash_text_cut(None);
    let t = "no class&No flash message"@;
    assert(t[8] == '&');
    assert(t.take(8)[0] != "success"@[0]);
    let p = crate::flash::split_position(t, '&');
    assert(p == 8) by {
        assert(crate::flash::is_first_index(t, '&', 8));
        let k = choose|k: int| crate::flash::is_first_index(t, '&', k);
        if k < 8 {
            assert(t[k] != '&');
        }
        if 8 < k {
            assert(t[8] != '&');
        }
    }
    assert(t.skip(8).skip(1) =~= "No flash message"@);
}

/// The category edit page: the owner sees the category's own name and
/// description under the id from the address; anyone else is told it is not
/// theirs and sees nothing of it.
pub proof fn lemma_category_edit_page(
    flash: Option<FlashMessage>,
    user_id: i32,
    category_id: Seq<char>,
    category: Category,
    r: GuardedPage<EditCategoryContext>,
)
    requires
        category_edit_page_ok(flash, user_id, category_id, category, r),
    ensures
        (r is Authorized) <==> category.user_id == user_id,
        r matches GuardedPage::Authorized(p) ==> p.category_name == category.name
            && p.category_descrip == category.descrip && p.category_id@ == category_id
            && p.authorized && p.authenticated,
        r matches GuardedPage::Unauthorized(p) ==> !p.authorized && p.authenticated,
{
}

/// The expense edit page: the owner sees the expense's own fields, its id
/// and category id in decimal, and the active categories to choose from;
/// anyone else is told it is not theirs.
pub proof fn lemma_expense_edit_page(
    flash: Option<FlashMessage>,
    user_id: i32,
    categories: Seq<Category>,
    expense: Expense,
    r: GuardedPage<EditExpenseContext>,
)
    requires
        expense_edit_page_ok(flash, user_id, categories, expense, r),
    ensures
        (r is Authorized) <==> expense.user_id == user_id,
        r matches GuardedPage::Authorized(p) ==> p.expense_name == expense.name
            && p.expense_amount == expense.amount && parse_decimal_i32(p.expense_id@) == Some(
            expense.id,
        ) && parse_decimal_i32(p.category_id@) == Some(expense.category_id)
            && p.total_categories == categories.len() && p.str_categories@ == all_category_rows(
            categories,
        ).filter(crate::laws::is_active_row()),
        r matches GuardedPage::Unauthorized(p) ==> !p.authorized && p.authenticated,
{
    crate::text::lemma_decimal_round_trip(expense.id);
    crate::text::lemma_decimal_round_trip(expense.category_id);
    crate::laws::lemma_active_rows_filter_all_rows(categories);
}

/// The delete page asks the owner to confirm deleting the expense with the
/// id from the address; anyone else is told it is not theirs.
pub proof fn lemma_expense_delete_page(
    flash: Option<FlashMessage>,
    user_id: i32,
    expense_id: i32,
    expense: Expense,
    r: GuardedPage<DeleteExpenseContext>,
)
    requires
        expense_delete_page_ok(flash, user_id, expense_id, expense, r),
    ensures
        (r is Authorized) <==> expense.user_id == user_id,
        r matches GuardedPage::Authorized(p) ==> p.expense_id == expense_id && p.authorized,
        r matches GuardedPage::Unauthorized(p) ==> !p.authorized && p.authenticated,
{
}

/// The decimal text of a natural number is its digits, most significant
/// first, with no leading zero; a negative number's text is `-` before the
/// text of its magnitude.
pub proof fn lemma_decimal_text_shape(n: int)
    ensures
        n >= 0 ==> decimal_text(n).len() > 0 && all_digits(decimal_text(n)) && digits_value(
            decimal_text(n),
        ) == n,
        n > 0 ==> decimal_text(n)[0] != '0',
        n < 0 ==> decimal_text(n) == seq!['-'] + decimal_text(-n),
{
    if n >= 0 {
        crate::text::lemma_unsigned_text_digits(n as nat);
        if n > 0 {
            lemma_unsigned_text_leading(n as nat);
        }
    }
}

proof fn lemma_unsigned_text_leading(n: nat)
    requires
        n > 0,
    ensures
        crate::text::unsigned_text(n)[0] != '0',
    decreases n,
{
    if n >= 10 {
        lemma_unsigned_text_leading(n / 10);
        let t = crate::text::unsigned_text(n);
        assert(t[0] == crate::text::unsigned_text(n / 10)[0]);
    }
}

/// Reading decimal text: digits alone, or after one `+` or `-`, give their
/// value (negated after `-`) where it fits an `i32`; empty text, a lone
/// sign, or any character that is not a digit after the sign, give nothing.
pub proof fn lemma_parse_outcomes(s: Seq<char>)
    ensures
        s.len() == 0 ==> parse_decimal_i32(s) is None,
        s.len() > 0 && all_digits(s) && digits_value(s) <= i32::MAX ==> parse_decimal_i32(s)
            == Some(digits_value(s) as i32),
        s.len() > 0 && all_digits(s) && digits_value(s) <= 2147483648 ==> parse_decimal_i32(
            seq!['-'] + s,
        ) == Some((-digits_value(s)) as i32),
        s.len() > 0 && all_digits(s) && digits_value(s) <= i32::MAX ==> parse_decimal_i32(
            seq!['+'] + s,
        ) == Some(digits_value(s) as i32),
        parse_decimal_i32(seq!['-']) is None && parse_decimal_i32(seq!['+']) is None,
        forall|i: int|
            1 <= i < s.len() && !is_digit(#[trigger] s[i]) ==> parse_decimal_i32(s) is None,
        digits_value(Seq::<char>::empty()) == 0,
        s.len() > 0 ==> digits_value(s) == 10 * digits_value(s.drop_last()) + digit_value(s.last()),
{
    if s.len() > 0 && all_digits(s) {
        crate::text::lemma_digits_value_nonneg(s);
        assert(is_digit(s[0]));
        assert((seq!['-'] + s).skip(1) =~= s);
        assert((seq!['+'] + s).skip(1) =~= s);
    }
    assert(seq!['-'].skip(1) =~= Seq::<char>::empty());
    assert(seq!['+'].skip(1) =~= Seq::<char>::empty());
    assert forall|i: int| 1 <= i < s.len() && !is_digit(#[trigger] s[i]) implies parse_decimal_i32(
        s,
    ) is None by {
        let signed = s[0] == '-' || s[0] == '+';
        if signed {
            assert(s.skip(1)[i - 1] == s[i]);
        } else {
            assert(!all_digits(s));
        }
    }
}

} // verus!
