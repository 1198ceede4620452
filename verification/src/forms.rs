//! The fields that each form of the application posts, as text.

use vstd::prelude::*;

verus! {

#[derive(Debug, PartialEq, Eq)]
pub struct RegisterForm {
    pub email: String,
    pub password: String,
    pub confirm_password: String,
}

#[derive(Debug, PartialEq, Eq)]
pub struct LoginForm {
    pub email: String,
    pub password: String,
}

#[derive(Debug, PartialEq, Eq)]
pub struct CategoryForm {
    pub name: String,
    pub descrip: String,
}

#[derive(Debug, PartialEq, Eq)]
pub struct ExpenseForm {
    pub category_id: String,
    pub name: String,
    pub amount: String,
}

#[derive(Debug, PartialEq, Eq)]
pub struct ExpenseDeleteForm {
    pub delete_expense_id: String,
}

#[derive(Debug, PartialEq, Eq)]
pub struct ChangeEmailForm {
    pub current_email: String,
    pub new_email: String,
    pub confirm_email: String,
}

#[derive(Debug, PartialEq, Eq)]
pub struct ChangePasswordForm {
    pub current_password: String,
    pub new_password: String,
    pub confirm_password: String,
}

} // verus!
