use expense_core::client::{settle_fetch, settle_login, HttpOutcome};
use expense_core::errors::AppError;
use expense_core::host::TokenStore;
use expense_core::models::{ApiResponse, Category, Expense, LoginResponse};
use expense_core::store::{Store, TabOpt};

fn category(id: &str, name: &str) -> Category {
    Category { id: id.to_string(), name: name.to_string(), description: None }
}

fn expense(id: &str, category_id: &str, amount: i32) -> Expense {
    Expense {
        id: id.to_string(),
        category_id: category_id.to_string(),
        category_name: String::new(),
        description: None,
        amount,
        date: Some("2024-01-31".to_string()),
    }
}

#[test]
fn set_then_get_returns_the_token() {
    let mut store = TokenStore::new();
    assert_eq!(store.get(), "");
    let ack = store.set("tok-123".to_string());
    assert_eq!(ack, "Successfully updated!");
    assert_eq!(store.get(), "tok-123");
    store.set("".to_string());
    assert_eq!(store.get(), "");
    store.set("garbage \u{1f600}".to_string());
    assert_eq!(store.get(), "garbage \u{1f600}");
}

#[test]
fn refresh_fills_both_collections_in_either_order() {
    let cats = vec![category("c1", "rent"), category("c2", "food"), category("c3", "fun")];
    let exps = vec![expense("e1", "c1", 500), expense("e2", "c2", 250)];

    let mut first = Store::new();
    first.set_categories(cats.clone());
    first.set_expenses(exps.clone());

    let mut second = Store::new();
    second.set_expenses(exps.clone());
    second.set_categories(cats.clone());

    for store in [&first, &second] {
        assert_eq!(store.categories.len(), 3);
        assert_eq!(store.expenses.len(), 2);
        assert_eq!(store.active_tab, TabOpt::Session);
        assert_eq!(store.categories[0].id, "c1");
        assert_eq!(store.expenses[1].id, "e2");
    }
}

#[test]
fn tabs_are_fully_connected() {
    let mut store = Store::new();
    assert_eq!(store.active_tab, TabOpt::Session);
    store.select_tab(TabOpt::AllExpenses);
    assert_eq!(store.active_tab, TabOpt::AllExpenses);
    store.select_tab(TabOpt::NewExpense);
    assert_eq!(store.active_tab, TabOpt::NewExpense);
    store.select_tab(TabOpt::Session);
    assert_eq!(store.active_tab, TabOpt::Session);
    assert_eq!(TabOpt::default(), TabOpt::Session);
}

#[test]
fn accepted_create_grows_expenses_by_the_returned_expense() {
    let mut store = Store::new();
    store.set_expenses(vec![expense("e1", "c1", 300)]);
    let returned = expense("e9", "c2", 500);
    let env = ApiResponse::new(returned, None, true);
    let r = store.apply_create_outcome(HttpOutcome::Accepted(env));
    assert!(r.is_ok());
    assert_eq!(store.expenses.len(), 2);
    assert_eq!(store.expenses[1].id, "e9");
    assert_eq!(store.expenses[1].amount, 500);
    assert_eq!(store.expenses[1].category_id, "c2");
}

#[test]
fn rejected_create_leaves_the_store_unchanged() {
    let mut store = Store::new();
    store.set_expenses(vec![expense("e1", "c1", 300)]);
    let r = store.apply_create_outcome(HttpOutcome::Rejected("server said no".to_string()));
    match r {
        Err(AppError::HardError(m)) => assert_eq!(m, "server said no"),
        other => panic!("expected HardError, got {:?}", other),
    }
    assert_eq!(store.expenses.len(), 1);
    assert_eq!(store.expenses[0].id, "e1");
}

#[test]
fn rejected_delete_leaves_expenses_unchanged_with_the_body_text() {
    let mut store = Store::new();
    store.set_expenses(vec![expense("e1", "c1", 300), expense("e2", "c1", 40)]);
    let r = store.apply_delete_outcome(HttpOutcome::Rejected("410 gone".to_string()));
    match r {
        Err(AppError::HardError(m)) => assert_eq!(m, "410 gone"),
        other => panic!("expected HardError, got {:?}", other),
    }
    assert_eq!(store.expenses.len(), 2);
    assert_eq!(store.expenses[0].id, "e1");
    assert_eq!(store.expenses[1].id, "e2");
}

#[test]
fn accepted_delete_changes_nothing_locally() {
    let mut store = Store::new();
    store.set_expenses(vec![expense("e1", "c1", 300)]);
    let env = ApiResponse::new(true, None, true);
    let r = store.apply_delete_outcome(HttpOutcome::Accepted(env));
    assert!(r.is_ok());
    assert_eq!(store.expenses.len(), 1);
}

#[test]
fn login_success_writes_the_token_before_resolving() {
    let mut tokens = TokenStore::new();
    let env = ApiResponse::new(LoginResponse { token: "abc".to_string() }, None, true);
    let r = settle_login(&mut tokens, HttpOutcome::Accepted(env));
    assert_eq!(tokens.get(), "abc");
    match r {
        Ok(resp) => assert_eq!(resp.token, "abc"),
        Err(e) => panic!("expected success, got {:?}", e),
    }
}

#[test]
fn login_failure_leaves_the_token_untouched() {
    let mut tokens = TokenStore::new();
    tokens.set("before".to_string());
    let r = settle_login(
        &mut tokens,
        HttpOutcome::Rejected("bad credentials".to_string()),
    );
    match r {
        Err(AppError::HardError(m)) => assert_eq!(m, "bad credentials"),
        other => panic!("expected HardError, got {:?}", other),
    }
    assert_eq!(tokens.get(), "before");

    let r2: Result<LoginResponse, AppError> =
        settle_login(&mut tokens, HttpOutcome::Failed("connection reset".to_string()));
    match r2 {
        Err(AppError::HardError(m)) => assert_eq!(m, "connection reset"),
        other => panic!("expected HardError, got {:?}", other),
    }
    assert_eq!(tokens.get(), "before");
}

#[test]
fn settle_fetch_unwraps_the_envelope_or_folds_into_hard_error() {
    let env = ApiResponse::new(vec![category("c1", "rent")], Some(vec![]), true);
    let ok: Result<Vec<Category>, AppError> = settle_fetch(HttpOutcome::Accepted(env));
    let data = ok.unwrap();
    assert_eq!(data.len(), 1);
    assert_eq!(data[0].name, "rent");

    let err: Result<Vec<Category>, AppError> =
        settle_fetch(HttpOutcome::Failed("timed out".to_string()));
    match err {
        Err(e) => assert_eq!(e.message(), "timed out"),
        Ok(_) => panic!("expected an error"),
    }
}

#[test]
fn find_category_matches_by_identifier() {
    let mut store = Store::new();
    store.set_categories(vec![category("c1", "rent"), category("c2", "food")]);
    let hit = store.find_category(&"c2".to_string());
    assert_eq!(hit.unwrap().name, "food");
    assert!(store.find_category(&"c9".to_string()).is_none());
}

#[test]
fn invalid_error_carries_its_reason() {
    let e = AppError::Invalid("empty email".to_string());
    assert_eq!(e.message(), "empty email");
}

#[test]
fn defaults_start_unset_and_empty() {
    let e = Expense::default();
    assert_eq!(e.id, "00000000-0000-0000-0000-000000000000");
    assert_eq!(e.category_id, "00000000-0000-0000-0000-000000000000");
    assert_eq!(e.amount, 0);
    assert!(e.date.is_none());
    assert!(e.description.is_none());

    let c = Category::default();
    assert_eq!(c.id, "00000000-0000-0000-0000-000000000000");
    assert_eq!(c.name, "");

    let b = expense_core::models::LoginBody::default();
    assert_eq!(b.email, "");
    assert_eq!(b.password, "");
}

#[test]
fn builders_replace_exactly_their_field() {
    let mut e = Expense::new();
    e.amount(42);
    e.description(Some("coffee".to_string()));
    e.category("c7".to_string(), "drinks".to_string());
    e.date("2024-02-29".to_string());
    assert_eq!(e.amount, 42);
    assert_eq!(e.description.as_deref(), Some("coffee"));
    assert_eq!(e.category_id, "c7");
    assert_eq!(e.category_name, "drinks");
    assert_eq!(e.date.as_deref(), Some("2024-02-29"));
    assert_eq!(e.id, "00000000-0000-0000-0000-000000000000");

    let named = Category::new().name("travel".to_string());
    assert_eq!(named.name, "travel");

    let mut b = expense_core::models::LoginBody::new();
    b.email("a@b.com".to_string());
    b.password("p".to_string());
    assert_eq!(b.email, "a@b.com");
    assert_eq!(b.password, "p");
}

#[test]
fn the_envelope_surrenders_its_payload() {
    let env = ApiResponse::new(7u32, Some(vec!["advisory".to_string()]), false);
    assert_eq!(env.data(), 7);
    let args = expense_core::models::SetTokenArgs { new_token: "abc".to_string() };
    assert_eq!(args.new_token, "abc");
}
