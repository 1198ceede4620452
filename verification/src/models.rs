//! The records the application keeps: users, spending categories and
//! expenses, and the rows it asks the database to insert.

use vstd::prelude::*;
use crate::clock::utc_now_text;

verus! {

/// A registered user; `password` holds the bcrypt hash of the password.
#[derive(Debug, PartialEq, Eq)]
pub struct User {
    pub id: i32,
    pub email: String,
    pub password: String,
}

/// The user record that stands for "no such user": id -1, empty email and
/// empty password hash.
pub open spec fn is_missing_user(u: User) -> bool {
    u.id == -1 && u.email@ == Seq::<char>::empty() && u.password@ == Seq::<char>::empty()
}

impl User {
    /// The record that a lookup answers when no user matches.
    pub fn missing() -> (r: User)
        ensures
            is_missing_user(r),
    {
        User { id: -1, email: String::new(), password: String::new() }
    }

    /// The record found by a lookup, or the missing-user record where none was.
    pub fn found_or_missing(found: Option<User>) -> (r: User)
        ensures
            found matches Some(u) ==> r == u,
            found is None ==> is_missing_user(r),
    {
        match found {
            Some(u) => u,
            None => User::missing(),
        }
    }
}

/// A user row to insert.
#[derive(Debug, PartialEq, Eq)]
pub struct NewUser {
    pub email: String,
    pub password: String,
}

impl NewUser {
    pub fn new(email: &str, password_hash: &str) -> (r: NewUser)
        ensures
            r.email@ == email@,
            r.password@ == password_hash@,
    {
        NewUser { email: String::from_str(email), password: String::from_str(password_hash) }
    }
}

/// A spending category of one user; an archived one is no longer offered for
/// new expenses.
#[derive(Debug, PartialEq, Eq)]
pub struct Category {
    pub id: i32,
    pub user_id: i32,
    pub name: String,
    pub descrip: String,
    pub archived: bool,
}

/// The category record that stands for "no such category".
pub open spec fn is_missing_category(c: Category) -> bool {
    &&& c.id == -1
    &&& c.user_id == -1
    &&& c.name@ == Seq::<char>::empty()
    &&& c.descrip@ == Seq::<char>::empty()
    &&& !c.archived
}

impl Category {
    /// The record that a lookup answers when no category matches.
    pub fn missing() -> (r: Category)
        ensures
            is_missing_category(r),
    {
        Category { id: -1, user_id: -1, name: String::new(), descrip: String::new(), archived: false }
    }

    /// The record found by a lookup, or the missing-category record where none was.
    pub fn found_or_missing(found: Option<Category>) -> (r: Category)
        ensures
            found matches Some(c) ==> r == c,
            found is None ==> is_missing_category(r),
    {
        match found {
            Some(c) => c,
            None => Category::missing(),
        }
    }
}

/// A category row to insert: new categories start out active.
#[derive(Debug, PartialEq, Eq)]
pub struct NewCategory {
    pub user_id: i32,
    pub name: String,
    pub descrip: String,
    pub archived: bool,
}

impl NewCategory {
    pub fn new(user_id: i32, name: &str, descrip: &str) -> (r: NewCategory)
        ensures
            r.user_id == user_id,
            r.name@ == name@,
            r.descrip@ == descrip@,
            !r.archived,
    {
        NewCategory {
            user_id,
            name: String::from_str(name),
            descrip: String::from_str(descrip),
            archived: false,
        }
    }
}

/// An expense of one user in one of their categories; `created` is the
/// instant it was recorded and `amount` the amount as entered.
#[derive(Debug, PartialEq, Eq)]
pub struct Expense {
    pub id: i32,
    pub user_id: i32,
    pub category_id: i32,
    pub created: String,
    pub name: String,
    pub amount: String,
}

/// The expense record that stands for "no such expense"; its `created` is
/// the instant of the lookup.
pub open spec fn is_missing_expense(e: Expense) -> bool {
    &&& e.id == -1
    &&& e.user_id == -1
    &&& e.category_id == -1
    &&& e.name@ == Seq::<char>::empty()
    &&& e.amount@ == Seq::<char>::empty()
}

impl Expense {
    /// The record that stands for "no such expense", stamped with `created`.
    pub fn missing_at(created: String) -> (r: Expense)
        ensures
            is_missing_expense(r),
            r.created == created,
    {
        Expense {
            id: -1,
            user_id: -1,
            category_id: -1,
            created,
            name: String::new(),
            amount: String::new(),
        }
    }

    /// The record found by a lookup, or the missing-expense record, stamped
    /// with the current time, where none was.
    pub fn found_or_missing(found: Option<Expense>) -> (r: Expense)
        ensures
            found matches Some(e) ==> r == e,
            found is None ==> is_missing_expense(r),
    {
        match found {
            Some(e) => e,
            None => Expense::missing_at(utc_now_text()),
        }
    }
}

/// An expense row to insert.
#[derive(Debug, PartialEq, Eq)]
pub struct NewExpense {
    pub user_id: i32,
    pub category_id: i32,
    pub created: String,
    pub name: String,
    pub amount: String,
}

impl NewExpense {
    /// The row for an expense recorded at `created`.
    pub fn stamped(user_id: i32, category_id: i32, name: &str, amount: &str, created: String) -> (r:
        NewExpense)
        ensures
            r.user_id == user_id,
            r.category_id == category_id,
            r.name@ == name@,
            r.amount@ == amount@,
            r.created == created,
    {
        NewExpense {
            user_id,
            category_id,
            created,
            name: String::from_str(name),
            amount: String::from_str(amount),
        }
    }

    /// The row for an expense recorded now.
    pub fn new(user_id: i32, category_id: i32, name: &str, amount: &str) -> (r: NewExpense)
        ensures
            r.user_id == user_id,
            r.category_id == category_id,
            r.name@ == name@,
            r.amount@ == amount@,
    {
        NewExpense::stamped(user_id, category_id, name, amount, utc_now_text())
    }
}

/// The rows a query returned, or none where the query failed.
pub fn rows_or_empty<T>(rows: Option<Vec<T>>) -> (r: Vec<T>)
    ensures
        rows matches Some(v) ==> r == v,
        rows is None ==> r@.len() == 0,
{
    match rows {
        Some(v) => v,
        None => Vec::new(),
    }
}

/// Whether a delete removed any row, from the number of rows it removed.
pub fn deleted_any(num_deleted: usize) -> (r: bool)
    ensures
        r == (num_deleted > 0),
{
    num_deleted > 0
}

} // verus!
