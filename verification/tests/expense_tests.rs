use budget_manager::actions::{DbWrite, GuardedPage, RouteAction};
use budget_manager::contexts::{StrCategories, StrExpenses};
use budget_manager::expenses::{
    ParsedAmount, expense_delete_get, expense_delete_get_nonuser, expense_delete_post,
    expense_delete_post_nonuser, expense_edit_get, expense_edit_get_nonuser, expense_edit_post,
    expense_edit_post_nonuser, expense_get, expense_get_nonuser, expense_post, expense_post_nonuser,
    recent_category_ids, reports_get, reports_get_nonuser,
};
use budget_manager::flash::{FlashKind, FlashRedirect};
use budget_manager::forms::{ExpenseDeleteForm, ExpenseForm};
use budget_manager::models::{Category, Expense};
use budget_manager::session::IsUser;

fn note(kind: FlashKind, route: &str, message: &str) -> FlashRedirect {
    FlashRedirect { kind, route: route.to_string(), message: message.to_string() }
}

fn cat(id: i32, name: &str, archived: bool) -> Category {
    Category { id, user_id: 7, name: name.to_string(), descrip: String::new(), archived }
}

fn exp(id: i32, user_id: i32, category_id: i32) -> Expense {
    Expense {
        id,
        user_id,
        category_id,
        created: format!("2018-05-0{} 10:00:00 UTC", id % 9),
        name: format!("item {id}"),
        amount: format!("{id}.5"),
    }
}

fn exp_row(e: &Expense, name: &str) -> StrExpenses {
    StrExpenses {
        str_expense_id: e.id,
        str_category_id: e.category_id,
        str_category_name: name.to_string(),
        str_created: e.created.clone(),
        str_name: e.name.clone(),
        str_amount: e.amount.clone(),
    }
}

fn eform(category_id: &str, name: &str, amount: &str) -> ExpenseForm {
    ExpenseForm { category_id: category_id.into(), name: name.into(), amount: amount.into() }
}

#[test]
fn recent_ids_cover_at_most_five() {
    let expenses: Vec<Expense> = (1..=7).map(|i| exp(i, 7, 10 + i)).collect();
    assert_eq!(recent_category_ids(&expenses), vec![11, 12, 13, 14, 15]);
    let two: Vec<Expense> = (1..=2).map(|i| exp(i, 7, 10 + i)).collect();
    assert_eq!(recent_category_ids(&two), vec![11, 12]);
    assert!(recent_category_ids(&vec![]).is_empty());
}

#[test]
fn expense_page_lists_five_newest_and_active_categories() {
    let cats = vec![cat(1, "Food", false), cat(2, "Old", true)];
    let expenses: Vec<Expense> = (1..=7).rev().map(|i| exp(i, 7, 1)).collect();
    let names: Vec<String> = (0..5).map(|_| "Food".to_string()).collect();
    let page = expense_get(None, &cats, &expenses, &names);
    assert_eq!(page.title, "Expense");
    assert_eq!(page.total_categories, 2);
    assert_eq!(
        page.str_categories,
        vec![StrCategories {
            str_category_id: 1,
            str_category_name: "Food".into(),
            str_category_descrip: String::new(),
            archived: false
        }]
    );
    assert_eq!(page.total_expenses, 7);
    let expected: Vec<StrExpenses> = expenses[..5].iter().map(|e| exp_row(e, "Food")).collect();
    assert_eq!(page.str_expenses, expected);
}

#[test]
fn adding_an_expense() {
    let user = IsUser("7".into());
    let amount = |negative: bool, text: &str| Some(ParsedAmount { negative, text: text.into() });
    assert_eq!(
        expense_post(&user, &eform("1", "x", ""), None),
        RouteAction::Respond(Err(note(FlashKind::Error, "/expense", "Amount cannot be blank!")))
    );
    assert_eq!(
        expense_post(&user, &eform("1", "x", "ten"), None),
        RouteAction::Fail { reason: "Not a number".into() }
    );
    assert_eq!(
        expense_post(&user, &eform("1", "x", "-3"), amount(true, "-3")),
        RouteAction::Respond(Err(note(FlashKind::Error, "/expense", "Amount cannot be less than 0!")))
    );
    assert_eq!(
        expense_post(&user, &eform("one", "x", "3"), amount(false, "3")),
        RouteAction::Fail { reason: "Not a number".into() }
    );
    assert_eq!(
        expense_post(&user, &eform("1", "Lunch", "12.50"), amount(false, "12.5")),
        RouteAction::Write {
            write: DbWrite::CreateExpense {
                user_id: 7,
                category_id: 1,
                name: "Lunch".into(),
                amount: "12.5".into()
            },
            response: note(FlashKind::Success, "/expense", "Expense successfully added"),
        }
    );
}

#[test]
fn edit_expense_page() {
    let cats = vec![cat(1, "Food", false), cat(2, "Old", true)];
    let e = exp(3, 7, 1);
    match expense_edit_get(None, 8, &cats, &e) {
        GuardedPage::Unauthorized(p) => assert_eq!(p.title, "Edit Expense"),
        other => panic!("unexpected {other:?}"),
    }
    match expense_edit_get(None, 7, &cats, &e) {
        GuardedPage::Authorized(p) => {
            assert_eq!(p.title, "Edit Expense");
            assert_eq!(p.total_categories, 2);
            assert_eq!(p.str_categories.len(), 1);
            assert_eq!(p.expense_id, "3");
            assert_eq!(p.category_id, "1");
            assert_eq!(p.expense_name, "item 3");
            assert_eq!(p.expense_amount, "3.5");
        }
        other => panic!("unexpected {other:?}"),
    }
}

#[test]
fn editing_an_expense() {
    let e = exp(3, 7, 1);
    assert_eq!(
        expense_edit_post(8, 3, 2, &eform("2", "a", "1"), &e),
        RouteAction::Respond(Err(note(
            FlashKind::Error,
            "/expense",
            "You cannot edit an expense that does not belong to you!"
        )))
    );
    assert_eq!(
        expense_edit_post(7, 3, 2, &eform("2", "", "1"), &e),
        RouteAction::Respond(Err(note(FlashKind::Error, "/expense", "Expense name cannot be blank")))
    );
    assert_eq!(
        expense_edit_post(7, 3, 2, &eform("2", "a", ""), &e),
        RouteAction::Respond(Err(note(FlashKind::Error, "/expense", "Expense amount cannot be blank")))
    );
    assert_eq!(
        expense_edit_post(7, 3, 2, &eform("2", "a", "1"), &e),
        RouteAction::Write {
            write: DbWrite::UpdateExpense { expense_id: 3, category_id: 2, name: "a".into(), amount: "1".into() },
            response: note(FlashKind::Success, "/expense", "Expense updated successfully!"),
        }
    );
}

#[test]
fn delete_expense_page() {
    let e = exp(3, 7, 1);
    match expense_delete_get(None, 8, 3, &e) {
        GuardedPage::Unauthorized(p) => assert_eq!(p.title, "Edit Category"),
        other => panic!("unexpected {other:?}"),
    }
    match expense_delete_get(None, 7, 3, &e) {
        GuardedPage::Authorized(p) => {
            assert_eq!(p.title, "Delete Expense");
            assert_eq!(p.expense_id, 3);
        }
        other => panic!("unexpected {other:?}"),
    }
}

#[test]
fn deleting_an_expense() {
    let e = exp(-12, 7, 1);
    let form = |id: &str| ExpenseDeleteForm { delete_expense_id: id.into() };
    assert_eq!(
        expense_delete_post(8, -12, &form("-12"), &e),
        RouteAction::Respond(Err(note(
            FlashKind::Error,
            "/expense",
            "You attempted to delete an expense that is not associated with your account!"
        )))
    );
    assert_eq!(
        expense_delete_post(7, -12, &form("12"), &e),
        RouteAction::Respond(Err(note(FlashKind::Error, "/expense", "Expense IDs do not match!")))
    );
    assert_eq!(
        expense_delete_post(7, -12, &form("-012"), &e),
        RouteAction::Respond(Err(note(FlashKind::Error, "/expense", "Expense IDs do not match!")))
    );
    assert_eq!(
        expense_delete_post(7, -12, &form("-12"), &e),
        RouteAction::Write {
            write: DbWrite::DeleteExpense { expense_id: -12 },
            response: note(FlashKind::Success, "/expense", "Expense successfully deleted!"),
        }
    );
}

#[test]
fn reports_list_everything() {
    let cats = vec![cat(1, "Food", false), cat(2, "Old", true)];
    let expenses = vec![exp(2, 7, 2), exp(1, 7, 1)];
    let names = vec!["Old".to_string(), "Food".to_string()];
    let page = reports_get(None, &cats, &expenses, &names);
    assert_eq!(page.title, "Reports");
    assert!(page.authorized);
    assert_eq!(page.total_categories, 2);
    assert_eq!(page.str_categories.len(), 2);
    assert!(page.str_categories[1].archived);
    assert_eq!(page.total_expenses, 2);
    assert_eq!(page.str_expenses, vec![exp_row(&expenses[0], "Old"), exp_row(&expenses[1], "Food")]);
}

#[test]
fn expense_visitors_are_sent_to_login() {
    let refused = Err(note(FlashKind::Error, "/login", "You need to login, or register!"));
    assert_eq!(expense_get_nonuser(), refused);
    assert_eq!(expense_post_nonuser(), refused);
    assert_eq!(expense_edit_get_nonuser("1"), refused);
    assert_eq!(expense_edit_post_nonuser("1"), refused);
    assert_eq!(expense_delete_get_nonuser("1"), refused);
    assert_eq!(expense_delete_post_nonuser("1"), refused);
    assert_eq!(reports_get_nonuser(), refused);
}

#[test]
fn expense_page_is_head_of_reports_page() {
    let cats = vec![cat(1, "Food", false), cat(2, "Old", true), cat(3, "Rent", false)];
    let expenses: Vec<Expense> = (1..=7).rev().map(|i| exp(i, 7, 1 + i % 3)).collect();
    let name_of = |id: i32| cats.iter().find(|c| c.id == id).unwrap().name.clone();
    let all_names: Vec<String> = expenses.iter().map(|e| name_of(e.category_id)).collect();
    let recent_names: Vec<String> =
        recent_category_ids(&expenses).into_iter().map(name_of).collect();
    let page = expense_get(None, &cats, &expenses, &recent_names);
    let report = reports_get(None, &cats, &expenses, &all_names);
    assert_eq!(page.str_expenses, report.str_expenses[..5].to_vec_rows());
    assert_eq!(page.total_expenses, report.total_expenses);
    assert_eq!(page.total_categories, report.total_categories);
    let active: Vec<(i32, bool)> =
        report.str_categories.iter().filter(|s| !s.archived).map(|s| (s.str_category_id, s.archived)).collect();
    let shown: Vec<(i32, bool)> = page.str_categories.iter().map(|s| (s.str_category_id, s.archived)).collect();
    assert_eq!(shown, active);
}

trait RowsCopy {
    fn to_vec_rows(&self) -> Vec<StrExpenses>;
}

impl RowsCopy for [StrExpenses] {
    fn to_vec_rows(&self) -> Vec<StrExpenses> {
        self.iter()
            .map(|r| StrExpenses {
                str_expense_id: r.str_expense_id,
                str_category_id: r.str_category_id,
                str_category_name: r.str_category_name.clone(),
                str_created: r.str_created.clone(),
                str_name: r.str_name.clone(),
                str_amount: r.str_amount.clone(),
            })
            .collect()
    }
}
