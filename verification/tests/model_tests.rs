use budget_manager::models::{Category, Expense, NewCategory, NewExpense, NewUser, User, deleted_any};

#[test]
fn missing_records() {
    let u = User::found_or_missing(None);
    assert_eq!(u, User { id: -1, email: String::new(), password: String::new() });
    let c = Category::found_or_missing(None);
    assert_eq!(
        c,
        Category { id: -1, user_id: -1, name: String::new(), descrip: String::new(), archived: false }
    );
    let e = Expense::found_or_missing(None);
    assert_eq!((e.id, e.user_id, e.category_id), (-1, -1, -1));
    assert!(e.name.is_empty() && e.amount.is_empty());
    assert!(e.created.ends_with("UTC"));
}

#[test]
fn found_records_pass_through() {
    let u = User { id: 3, email: "a@b".into(), password: "h".into() };
    assert_eq!(User::found_or_missing(Some(u.clone_fields())), u);
}

trait CloneFields {
    fn clone_fields(&self) -> Self;
}

impl CloneFields for User {
    fn clone_fields(&self) -> Self {
        User { id: self.id, email: self.email.clone(), password: self.password.clone() }
    }
}

#[test]
fn new_rows() {
    assert_eq!(NewUser::new("a@b", "h"), NewUser { email: "a@b".into(), password: "h".into() });
    assert_eq!(
        NewCategory::new(4, "Food", "Groceries"),
        NewCategory { user_id: 4, name: "Food".into(), descrip: "Groceries".into(), archived: false }
    );
    let e = NewExpense::stamped(4, 2, "Lunch", "9.5", "then".into());
    assert_eq!(
        e,
        NewExpense { user_id: 4, category_id: 2, created: "then".into(), name: "Lunch".into(), amount: "9.5".into() }
    );
    let now = NewExpense::new(4, 2, "Lunch", "9.5");
    assert_eq!((now.user_id, now.category_id, now.name.as_str(), now.amount.as_str()), (4, 2, "Lunch", "9.5"));
    assert!(!now.created.is_empty());
}

#[test]
fn delete_counts() {
    assert!(!deleted_any(0));
    assert!(deleted_any(1));
    assert!(deleted_any(3));
}

#[test]
fn failed_queries_give_no_rows() {
    let rows: Vec<i32> = budget_manager::models::rows_or_empty(None);
    assert!(rows.is_empty());
    assert_eq!(budget_manager::models::rows_or_empty(Some(vec![1, 2])), vec![1, 2]);
}
