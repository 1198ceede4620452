//! What each page template is given to render.

use vstd::prelude::*;

verus! {

#[derive(Debug, PartialEq, Eq)]
pub struct RegisterContext {
    pub title: String,
    pub authenticated: bool,
    pub flash_class: String,
    pub flash_msg: String,
}

#[derive(Debug, PartialEq, Eq)]
pub struct LoginContext {
    pub title: String,
    pub authenticated: bool,
    pub flash_class: String,
    pub flash_msg: String,
}

/// One category as a page lists it.
#[derive(Debug, PartialEq, Eq)]
pub struct StrCategories {
    pub str_category_id: i32,
    pub str_category_name: String,
    pub str_category_descrip: String,
    pub archived: bool,
}

#[derive(Debug, PartialEq, Eq)]
pub struct CategoryContext {
    pub title: String,
    pub authenticated: bool,
    pub flash_class: String,
    pub flash_msg: String,
    pub total_categories: usize,
    pub str_categories: Vec<StrCategories>,
    pub archived_categories: Vec<StrCategories>,
}

#[derive(Debug, PartialEq, Eq)]
pub struct EditCategoryContext {
    pub title: String,
    pub authenticated: bool,
    pub authorized: bool,
    pub flash_class: String,
    pub flash_msg: String,
    pub total_categories: usize,
    pub category_id: String,
    pub category_name: String,
    pub category_descrip: String,
}

/// One expense as a page lists it, with the name of its category.
#[derive(Debug, PartialEq, Eq)]
pub struct StrExpenses {
    pub str_expense_id: i32,
    pub str_category_id: i32,
    pub str_category_name: String,
    pub str_created: String,
    pub str_name: String,
    pub str_amount: String,
}

#[derive(Debug, PartialEq, Eq)]
pub struct ExpenseContext {
    pub title: String,
    pub authenticated: bool,
    pub flash_class: String,
    pub flash_msg: String,
    pub total_categories: usize,
    pub str_categories: Vec<StrCategories>,
    pub total_expenses: usize,
    pub str_expenses: Vec<StrExpenses>,
}

#[derive(Debug, PartialEq, Eq)]
pub struct EditExpenseContext {
    pub title: String,
    pub authenticated: bool,
    pub authorized: bool,
    pub flash_class: String,
    pub flash_msg: String,
    pub total_categories: usize,
    pub str_categories: Vec<StrCategories>,
    pub expense_id: String,
    pub category_id: String,
    pub expense_name: String,
    pub expense_amount: String,
}

#[derive(Debug, PartialEq, Eq)]
pub struct DeleteExpenseContext {
    pub title: String,
    pub authenticated: bool,
    pub authorized: bool,
    pub flash_class: String,
    pub flash_msg: String,
    pub expense_id: i32,
}

/// Everything the reports page shows but the total amount, which is a sum of
/// floating-point amounts and is added by the server.
#[derive(Debug, PartialEq, Eq)]
pub struct ReportListing {
    pub title: String,
    pub authenticated: bool,
    pub authorized: bool,
    pub flash_class: String,
    pub flash_msg: String,
    pub str_categories: Vec<StrCategories>,
    pub total_categories: usize,
    pub str_expenses: Vec<StrExpenses>,
    pub total_expenses: usize,
}

#[derive(Debug, PartialEq, Eq)]
pub struct HomeContext {
    pub title: String,
    pub authenticated: bool,
    pub flash_class: String,
    pub flash_msg: String,
    pub user_email: String,
}

/// The page shown to a logged-in user who asks for another user's record.
#[derive(Debug, PartialEq, Eq)]
pub struct UnauthorizedAccessContext {
    pub title: String,
    pub authenticated: bool,
    pub authorized: bool,
    pub flash_class: String,
    pub flash_msg: String,
}

} // verus!
