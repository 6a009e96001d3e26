use expense_core::client::{
    plan_delete_expense, plan_fetch_all, submit_expense, submit_login, Method,
};
use expense_core::codec::{escape_into, expense_body, login_body, unescape};
use expense_core::models::{Category, Expense, LoginBody};

fn valid_draft() -> Expense {
    let mut e = Expense::new();
    e.amount(500);
    e.date("2024-01-31".to_string());
    e.category(
        "11111111-2222-3333-4444-555555555555".to_string(),
        "rent".to_string(),
    );
    e
}

#[test]
fn amount_of_one_issues_no_network_call() {
    let mut e = valid_draft();
    e.amount(1);
    assert!(submit_expense(&e, Some("tok".to_string())).is_none());
    e.amount(0);
    assert!(submit_expense(&e, Some("tok".to_string())).is_none());
    e.amount(2);
    assert!(submit_expense(&e, Some("tok".to_string())).is_some());
}

#[test]
fn missing_date_or_unset_category_issues_no_network_call() {
    let mut no_date = Expense::new();
    no_date.amount(500);
    no_date.category(
        "11111111-2222-3333-4444-555555555555".to_string(),
        "rent".to_string(),
    );
    assert!(submit_expense(&no_date, None).is_none());

    let mut empty_date = valid_draft();
    empty_date.date(String::new());
    assert!(submit_expense(&empty_date, None).is_none());

    let mut unset = Expense::new();
    unset.amount(500);
    unset.date("2024-01-31".to_string());
    assert!(submit_expense(&unset, None).is_none());
}

#[test]
fn valid_draft_plans_one_post_to_the_expenses_endpoint() {
    let e = valid_draft();
    let req = submit_expense(&e, Some("tok".to_string())).unwrap();
    assert_eq!(req.method, Method::Post);
    assert_eq!(req.url, "https://arrebolit.com/apiFinance/api/expenses");
    assert_eq!(req.headers.authorization, "Bearer tok");
    assert_eq!(req.headers.content_type, "application/json");
    let body = String::from_utf8(req.body.unwrap()).unwrap();
    assert_eq!(
        body,
        "{\"category_id\":\"11111111-2222-3333-4444-555555555555\",\
         \"date\":\"2024-01-31\",\"amount\":500,\"description\":\"\"}"
    );
}

#[test]
fn empty_credentials_issue_no_network_call() {
    let mut only_password = LoginBody::new();
    only_password.password("p".to_string());
    assert!(submit_login(&only_password, None).is_none());

    let mut only_email = LoginBody::new();
    only_email.email("a@b.com".to_string());
    assert!(submit_login(&only_email, None).is_none());
}

#[test]
fn login_plans_one_post_with_the_exact_body() {
    let mut credentials = LoginBody::new();
    credentials.email("a@b.com".to_string());
    credentials.password("p".to_string());
    let req = submit_login(&credentials, None).unwrap();
    assert_eq!(req.method, Method::Post);
    assert_eq!(req.url, "https://arrebolit.com/apiFinance/api/login");
    assert_eq!(req.headers.authorization, "Bearer no-token");
    let body = String::from_utf8(req.body.unwrap()).unwrap();
    assert_eq!(body, "{\"email\":\"a@b.com\",\"password\":\"p\"}");
}

#[test]
fn fetch_and_delete_plans_carry_the_right_urls() {
    let fetch = plan_fetch_all("categories", Some("tok".to_string()));
    assert_eq!(fetch.method, Method::Get);
    assert_eq!(
        fetch.url,
        "https://arrebolit.com/apiFinance/api/categories?all_listed=true"
    );
    assert!(fetch.body.is_none());

    let del = plan_delete_expense(&"e42".to_string(), None);
    assert_eq!(del.method, Method::Delete);
    assert_eq!(del.url, "https://arrebolit.com/apiFinance/api/expenses/e42");
    assert_eq!(del.headers.authorization, "Bearer no-token");
    assert!(del.body.is_none());
}

#[test]
fn string_fields_are_escaped_per_the_json_grammar() {
    let mut credentials = LoginBody::new();
    credentials.email("a\"b\\c".to_string());
    credentials.password("line\nbreak\ttab".to_string());
    let body = String::from_utf8(login_body(&credentials)).unwrap();
    assert_eq!(
        body,
        "{\"email\":\"a\\\"b\\\\c\",\"password\":\"line\\u000abreak\\u0009tab\"}"
    );
}

#[test]
fn negative_and_boundary_amounts_print_in_decimal() {
    let mut e = valid_draft();
    e.amount(-205);
    e.description(Some("refund".to_string()));
    let body = String::from_utf8(expense_body(&e)).unwrap();
    assert!(body.contains("\"amount\":-205,"));
    assert!(body.contains("\"description\":\"refund\""));

    e.amount(0);
    let body = String::from_utf8(expense_body(&e)).unwrap();
    assert!(body.contains("\"amount\":0,"));

    e.amount(i32::MIN);
    let body = String::from_utf8(expense_body(&e)).unwrap();
    assert!(body.contains("\"amount\":-2147483648,"));
}

#[test]
fn escaping_then_unescaping_returns_the_exact_bytes() {
    let nasty = "he said \"no\\\" \u{1}\u{1f}\ttwice\n".as_bytes();
    let mut escaped: Vec<u8> = Vec::new();
    escape_into(&mut escaped, nasty);
    assert_eq!(unescape(&escaped).as_deref(), Some(nasty));

    let empty: &[u8] = b"";
    let mut escaped_empty: Vec<u8> = Vec::new();
    escape_into(&mut escaped_empty, empty);
    assert_eq!(unescape(&escaped_empty).as_deref(), Some(empty));
}

#[test]
fn ill_formed_string_bodies_decode_to_nothing() {
    assert!(unescape(b"trailing\\").is_none());
    assert!(unescape(b"raw\"quote").is_none());
    assert!(unescape(b"raw\ncontrol").is_none());
    assert!(unescape(b"bad\\escape").is_none());
    assert!(unescape(b"short\\u00").is_none());
    assert!(unescape(b"upper\\u00AB").is_none());
    assert_eq!(unescape(b"ok\\u000a").as_deref(), Some(b"ok\n".as_slice()));
}

#[test]
fn category_id_survives_reserialization_byte_for_byte() {
    // A category as it would come back from a fetch, its id re-used in a
    // subsequent create call.
    let fetched = Category {
        id: "aaaabbbb-cccc-dddd-eeee-ffff00001111".to_string(),
        name: "rent".to_string(),
        description: None,
    };
    let mut draft = Expense::new();
    draft.amount(500);
    draft.date("2024-01-31".to_string());
    draft.category(fetched.id.clone(), fetched.name.clone());
    let body = String::from_utf8(expense_body(&draft)).unwrap();
    let marker = "{\"category_id\":\"";
    assert!(body.starts_with(marker));
    let rest = &body[marker.len()..];
    let id_on_wire = &rest[..rest.find('"').unwrap()];
    assert_eq!(id_on_wire, "aaaabbbb-cccc-dddd-eeee-ffff00001111");
}

#[test]
fn fresh_category_ids_are_canonical_and_never_the_sentinel() {
    let a = Category::new();
    let b = Category::new();
    assert_eq!(a.id.len(), 36);
    assert_eq!(a.id.chars().nth(14), Some('4'));
    assert_ne!(a.id, "00000000-0000-0000-0000-000000000000");
    assert_ne!(a.id, b.id);
}

#[test]
fn a_draft_defaults_its_date_to_the_host_clock() {
    let mut e = Expense::new();
    assert!(e.date.is_none());
    e.date_today();
    let d = e.date.unwrap();
    assert!(d.len() >= 10);
    assert_eq!(d.as_bytes()[4], b'-');
    assert_eq!(d.as_bytes()[7], b'-');
}
