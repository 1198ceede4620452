//! How pages list categories and expenses.

use vstd::prelude::*;
use crate::contexts::{StrCategories, StrExpenses, UnauthorizedAccessContext};
use crate::flash::{FlashMessage, page_flash, page_flash_view};
use crate::models::{Category, Expense};

verus! {

/// How a page lists one category.
pub open spec fn category_row(c: Category) -> StrCategories {
    StrCategories {
        str_category_id: c.id,
        str_category_name: c.name,
        str_category_descrip: c.descrip,
        archived: c.archived,
    }
}

/// The rows of the categories whose archived flag is `archived`, in order.
pub open spec fn category_rows(cs: Seq<Category>, archived: bool) -> Seq<StrCategories>
    decreases cs.len(),
{
    if cs.len() == 0 {
        Seq::empty()
    } else {
        let rest = category_rows(cs.drop_last(), archived);
        if cs.last().archived == archived {
            rest.push(category_row(cs.last()))
        } else {
            rest
        }
    }
}

/// The rows of all categories, in order.
pub open spec fn all_category_rows(cs: Seq<Category>) -> Seq<StrCategories> {
    Seq::new(cs.len(), |i: int| category_row(cs[i]))
}

/// How a page lists one expense, given the name of its category.
pub open spec fn expense_row(e: Expense, category_name: String) -> StrExpenses {
    StrExpenses {
        str_expense_id: e.id,
        str_category_id: e.category_id,
        str_category_name: category_name,
        str_created: e.created,
        str_name: e.name,
        str_amount: e.amount,
    }
}

/// The rows of the first `k` expenses, each with the category name at the
/// same position of `names`.
pub open spec fn expense_rows(es: Seq<Expense>, names: Seq<String>, k: int) -> Seq<StrExpenses> {
    Seq::new(k as nat, |i: int| expense_row(es[i], names[i]))
}

pub fn category_row_of(c: &Category) -> (r: StrCategories)
    ensures
        r == category_row(*c),
{
    StrCategories {
        str_category_id: c.id,
        str_category_name: c.name.clone(),
        str_category_descrip: c.descrip.clone(),
        archived: c.archived,
    }
}

/// The rows of the categories whose archived flag is `archived`, in order.
pub fn category_rows_of(categories: &Vec<Category>, archived: bool) -> (r: Vec<StrCategories>)
    ensures
        r@ == category_rows(categories@, archived),
{
    let mut out: Vec<StrCategories> = Vec::new();
    let mut i: usize = 0;
    while i < categories.len()
        invariant
            i <= categories@.len(),
            out@ == category_rows(categories@.take(i as int), archived),
        decreases categories@.len() - i,
    {
        let ghost next = categories@.take(i as int + 1);
        assert(next.drop_last() =~= categories@.take(i as int));
        assert(next.last() == categories@[i as int]);
        if categories[i].archived == archived {
            out.push(category_row_of(&categories[i]));
        }
        i = i + 1;
    }
    assert(categories@.take(categories@.len() as int) =~= categories@);
    out
}

/// The rows of all categories, in order.
pub fn all_category_rows_of(categories: &Vec<Category>) -> (r: Vec<StrCategories>)
    ensures
        r@ == all_category_rows(categories@),
{
    let mut out: Vec<StrCategories> = Vec::new();
    let mut i: usize = 0;
    while i < categories.len()
        invariant
            i <= categories@.len(),
            out@ =~= Seq::new(i as nat, |j: int| category_row(categories@[j])),
        decreases categories@.len() - i,
    {
        out.push(category_row_of(&categories[i]));
        i = i + 1;
    }
    out
}

pub fn expense_row_of(e: &Expense, category_name: &String) -> (r: StrExpenses)
    ensures
        r == expense_row(*e, *category_name),
{
    StrExpenses {
        str_expense_id: e.id,
        str_category_id: e.category_id,
        str_category_name: category_name.clone(),
        str_created: e.created.clone(),
        str_name: e.name.clone(),
        str_amount: e.amount.clone(),
    }
}

/// The rows of the first `k` expenses with their category names.
pub fn expense_rows_of(expenses: &Vec<Expense>, names: &Vec<String>, k: usize) -> (r: Vec<StrExpenses>)
    requires
        k <= expenses@.len(),
        k <= names@.len(),
    ensures
        r@ == expense_rows(expenses@, names@, k as int),
{
    let mut out: Vec<StrExpenses> = Vec::new();
    let mut i: usize = 0;
    while i < k
        invariant
            i <= k,
            k <= expenses@.len(),
            k <= names@.len(),
            out@ =~= expense_rows(expenses@, names@, i as int),
        decreases k - i,
    {
        out.push(expense_row_of(&expenses[i], &names[i]));
        i = i + 1;
    }
    out
}

/// The page that tells a logged-in user that a record is not theirs.
pub open spec fn is_unauthorized_page(
    p: UnauthorizedAccessContext,
    title: Seq<char>,
    flash: Option<FlashMessage>,
) -> bool {
    &&& p.title@ == title
    &&& p.authenticated
    &&& !p.authorized
    &&& p.flash_class@ == page_flash_view(flash).0
    &&& p.flash_msg@ == page_flash_view(flash).1
}

pub fn unauthorized_page(title: &str, flash: Option<FlashMessage>) -> (r: UnauthorizedAccessContext)
    ensures
        is_unauthorized_page(r, title@, flash),
{
    let (class, msg) = page_flash(flash);
    UnauthorizedAccessContext {
        title: String::from_str(title),
        authenticated: true,
        authorized: false,
        flash_class: class,
        flash_msg: msg,
    }
}

} // verus!
