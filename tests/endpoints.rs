use quiz_backend::claim::{validate_jwt, Keys};
use quiz_backend::evaluate::{self, Vote};
use quiz_backend::initial::{health, health_at};
use quiz_backend::meta::{self, CatValue, Value};
use quiz_backend::password::{hash_password, verify_password};
use quiz_backend::question::{
    self, normalize_category_id, parse_u32, select_questions, take_first, CategoryId, Question,
    QuestionFields,
};
use quiz_backend::claim::TOKEN_TTL_SECS;
use quiz_backend::user::{signin, signin_at, signin_request, signup, signup_at, signup_response, User};
use quiz_backend::utils::{kanji_len, response_handler, ApiError};

fn level(id: u32, name: &str) -> Value {
    Value { id, name: name.to_string() }
}

fn category(id: u32, name: &str) -> CatValue {
    CatValue { level_id: 1, id, name: name.to_string() }
}

fn question_with_id(id: &str) -> Question {
    Question {
        id: id.to_string(),
        level_id: Some(1),
        level_name: None,
        category_id: Some(2),
        category_name: None,
        chapter: None,
        sentence: None,
        prerequisites: None,
        sub_questions: vec![],
    }
}

fn ten_questions() -> Vec<Question> {
    (0..10).rev().map(|i| question_with_id(&format!("q{}", i))).collect()
}

fn ids(qs: &[Question]) -> Vec<String> {
    qs.iter().map(|q| q.id.clone()).collect()
}

#[test]
fn kanji_len_counts_han_only() {
    assert_eq!(kanji_len(""), 0);
    assert_eq!(kanji_len("abc"), 0);
    assert_eq!(kanji_len("ひらがな"), 0);
    assert_eq!(kanji_len("漢字"), 2);
    assert_eq!(kanji_len("第1章 文法"), 4);
}

#[test]
fn response_handler_error_replaces_data() {
    let r = response_handler(500, "error".to_string(), Some(1u8), Some("bad".to_string()));
    assert_eq!(r.code, 500);
    assert!(r.data.is_none());
    assert_eq!(r.error.as_deref(), Some("bad"));
    let r = response_handler(200, "success".to_string(), Some(1u8), None);
    assert_eq!(r.data, Some(1));
    assert!(r.error.is_none());
}

#[test]
fn api_error_status_codes() {
    assert_eq!(ApiError::BadRequest.status(), 400);
    assert_eq!(ApiError::Unauthorized.status(), 401);
    assert_eq!(ApiError::NotFound.status(), 404);
    assert_eq!(ApiError::InternalError.status(), 500);
}

#[test]
fn meta_orders_single_han_categories_first() {
    let levels = vec![level(1, "初級"), level(2, "上級")];
    let categories = vec![
        category(1, "文法"),
        category(2, "語"),
        category(3, "読解"),
        category(4, "字"),
        category(5, "音"),
    ];
    let r = meta::get(levels, categories);
    assert_eq!(r.code, 200);
    assert_eq!(r.message, "success");
    let m = r.data.unwrap();
    assert_eq!(m.levels.len(), 2);
    let order: Vec<u32> = m.categories.iter().map(|c| c.id).collect();
    assert_eq!(order, vec![2, 4, 5, 1, 3]);
}

#[test]
fn meta_sort_is_stable_on_ties() {
    let categories = vec![category(1, "b"), category(2, "漢"), category(3, "a"), category(4, "c")];
    let sorted = meta::sort_categories(categories);
    let order: Vec<u32> = sorted.iter().map(|c| c.id).collect();
    assert_eq!(order, vec![1, 3, 4, 2]);
    assert!(meta::sort_categories(vec![]).is_empty());
}

#[test]
fn meta_without_levels_or_categories_is_not_found() {
    let r = meta::get(vec![], vec![category(1, "語")]);
    assert_eq!(r.code, 404);
    assert_eq!(r.error.as_deref(), Some("meta data not found"));
    let r = meta::get(vec![level(1, "初級")], vec![]);
    assert_eq!(r.code, 404);
    assert!(r.data.is_none());
}

#[test]
fn questions_limit_below_count_samples_distinct_items() {
    let all = ten_questions();
    let r = question::get(
        question::PathParams { level_id: 1, category_id: 2 },
        question::QueryParams { limit: Some(5) },
        all.clone(),
    );
    assert_eq!(r.code, 200);
    assert_eq!(r.message, "ok");
    let got = ids(&r.data.unwrap());
    assert_eq!(got.len(), 5);
    let mut uniq = got.clone();
    uniq.sort();
    uniq.dedup();
    assert_eq!(uniq.len(), 5);
    let all_ids = ids(&all);
    assert!(got.iter().all(|id| all_ids.contains(id)));
}

#[test]
fn questions_limit_above_count_returns_all_in_order() {
    let all = ten_questions();
    let r = question::get(
        question::PathParams { level_id: 1, category_id: 2 },
        question::QueryParams { limit: Some(20) },
        all.clone(),
    );
    assert_eq!(ids(&r.data.unwrap()), ids(&all));
    let r = question::get(
        question::PathParams { level_id: 1, category_id: 2 },
        question::QueryParams { limit: Some(10) },
        all.clone(),
    );
    assert_eq!(ids(&r.data.unwrap()), ids(&all));
    let r = question::get(
        question::PathParams { level_id: 1, category_id: 2 },
        question::QueryParams { limit: None },
        all.clone(),
    );
    assert_eq!(ids(&r.data.unwrap()), ids(&all));
}

#[test]
fn questions_none_matching_is_not_found() {
    let r = question::get(
        question::PathParams { level_id: 3, category_id: 12 },
        question::QueryParams { limit: Some(5) },
        vec![],
    );
    assert_eq!(r.code, 404);
    assert_eq!(r.message, "Not Found");
    assert!(r.data.is_none());
    assert_eq!(
        r.error.as_deref(),
        Some("database has not questions, level_id: 3, category_id: 12")
    );
}

#[test]
fn select_and_take_first() {
    assert_eq!(ids(&take_first(ten_questions(), 3)), vec!["q9", "q8", "q7"]);
    assert_eq!(take_first(ten_questions(), 0).len(), 0);
    assert_eq!(select_questions(ten_questions(), Some(0)).len(), 0);
    assert_eq!(select_questions(ten_questions(), Some(9)).len(), 9);
}

#[test]
fn category_id_normalization() {
    assert_eq!(normalize_category_id(Some(CategoryId::Number(4))), Ok(4));
    assert_eq!(normalize_category_id(Some(CategoryId::Text("12".to_string()))), Ok(12));
    assert_eq!(normalize_category_id(Some(CategoryId::Text("+7".to_string()))), Ok(7));
    assert_eq!(
        normalize_category_id(Some(CategoryId::Text("4294967295".to_string()))),
        Ok(4294967295)
    );
    assert_eq!(
        normalize_category_id(Some(CategoryId::Text("4294967296".to_string()))),
        Err(ApiError::BadRequest)
    );
    assert_eq!(
        normalize_category_id(Some(CategoryId::Text("x1".to_string()))),
        Err(ApiError::BadRequest)
    );
    assert_eq!(
        normalize_category_id(Some(CategoryId::Text("".to_string()))),
        Err(ApiError::BadRequest)
    );
    assert_eq!(normalize_category_id(None), Err(ApiError::BadRequest));
}

#[test]
fn question_from_fields_fills_options() {
    let f = QuestionFields {
        id: None,
        level_id: 1,
        level_name: "初級".to_string(),
        category_id: Some(CategoryId::Text("5".to_string())),
        category_name: "文法".to_string(),
        chapter: "1".to_string(),
        sentence: "s".to_string(),
        prerequisites: None,
        sub_questions: vec![],
    };
    let q = Question::from_fields(f.clone()).unwrap();
    assert_eq!(q.id, "");
    assert_eq!(q.level_id, Some(1));
    assert_eq!(q.category_id, Some(5));
    assert_eq!(q.category_name.as_deref(), Some("文法"));
    let mut bad = f;
    bad.category_id = Some(CategoryId::Text("five".to_string()));
    assert_eq!(Question::from_fields(bad).unwrap_err(), ApiError::BadRequest);
}

#[test]
fn evaluate_good_vote_is_recorded_and_echoed() {
    let v = evaluate::vote(
        evaluate::PathParams { vote: "good".to_string() },
        evaluate::QueryParams { parent_id: Some("1".to_string()), child_id: Some("1".to_string()) },
    );
    assert_eq!(v.vote, "good");
    assert_eq!(v.parent_id, "1");
    assert_eq!(v.child_id, "1");
    assert_eq!(v.where_to.as_deref(), Some("questions"));
    assert_eq!(v.id().len(), 36);
    assert_eq!(v.id(), v.id);
    assert!(v.created_at > 0);
    let r = evaluate::vote_response(&v, Ok(()));
    assert_eq!(r.code, 200);
    let echo = r.data.unwrap();
    assert_eq!(echo.vote, "good");
    assert_eq!(echo.parent_id, "1");
    assert_eq!(echo.child_id, "1");
}

#[test]
fn evaluate_defaults_and_store_failure() {
    let v = evaluate::vote(
        evaluate::PathParams { vote: "bad".to_string() },
        evaluate::QueryParams { parent_id: None, child_id: None },
    );
    assert_eq!(v.parent_id, "");
    assert_eq!(v.child_id, "");
    let r = evaluate::vote_response(&v, Err("store down".to_string()));
    assert_eq!(r.code, 500);
    assert_eq!(r.error.as_deref(), Some("store down"));
}

#[test]
fn votes_get_distinct_ids() {
    let a = Vote::new("good".to_string(), None, "1".to_string(), "2".to_string());
    let b = Vote::new("good".to_string(), None, "1".to_string(), "2".to_string());
    assert_ne!(a.id, b.id);
}

fn submitted(email: &str, password: &str) -> User {
    let mut u = User::new();
    u.email = email.to_string();
    u.password = password.to_string();
    u
}

fn stored_user(password: &str) -> User {
    User {
        id: "id-1".to_string(),
        user_id: "user-1".to_string(),
        email: "a@b.c".to_string(),
        password: hash_password(password).unwrap(),
        ip: Some("127.0.0.1".to_string()),
        language: Some("ja".to_string()),
        country: None,
        created_at: Some(1_700_000_000),
    }
}

#[test]
fn signup_with_unreadable_body_is_bad_request() {
    let r = signup(Err("missing field `email`".to_string()));
    let e = r.unwrap_err();
    assert_eq!(e.code, 400);
    assert_eq!(e.message, "error");
    assert!(e.data.is_none());
    assert_eq!(e.error.as_deref(), Some("missing field `email`"));
}

#[test]
fn signup_hashes_password_and_stamps_record() {
    let mut u = submitted("a@b.c", "pw");
    u.user_id = "user-1".to_string();
    let rec = signup(Ok(u)).unwrap();
    assert_eq!(rec.email, "a@b.c");
    assert_eq!(rec.user_id, "user-1");
    assert_ne!(rec.password, "pw");
    assert_eq!(verify_password(&rec.password, "pw"), Ok(true));
    assert!(!rec.id.is_empty());
    assert!(rec.created_at.is_some());
    assert_eq!(signup_response(Ok(())).code, 200);
    let failed = signup_response(Err("x".to_string()));
    assert_eq!(failed.code, 500);
    assert_eq!(failed.message, "error");
    assert_eq!(failed.error.as_deref(), Some("x"));
    assert_eq!(rec.id.len(), 36);
    assert!(rec.password.starts_with("$argon2id$"));
    let stamped = signup_at(Ok(submitted("b@c.d", "pw")), 1234).unwrap();
    assert_eq!(stamped.created_at, Some(1234));
}

#[test]
fn signin_wrong_password_is_unauthorized() {
    let k = Keys::new(b"k");
    let r = signin(submitted("a@b.c", "wrong"), Ok(Some(stored_user("right"))), &k);
    assert_eq!(r.code, 401);
    assert_eq!(r.message, "error");
    assert!(r.data.is_none());
    assert_eq!(r.error.as_deref(), Some("wrong password"));
}

#[test]
fn signin_unknown_email_is_unauthorized() {
    let k = Keys::new(b"k");
    let r = signin(submitted("nobody@b.c", "pw"), Ok(None), &k);
    assert_eq!(r.code, 401);
    assert_eq!(r.message, "error");
    assert_eq!(r.error.as_deref(), Some("not found user"));
}

#[test]
fn signin_store_failure_and_bad_hash_are_internal() {
    let k = Keys::new(b"k");
    let r = signin(submitted("a@b.c", "pw"), Err("timeout".to_string()), &k);
    assert_eq!(r.code, 500);
    assert_eq!(r.message, "error");
    assert_eq!(r.error.as_deref(), Some("not found user, timeout"));
    let mut broken = stored_user("pw");
    broken.password = "plain".to_string();
    let r = signin(submitted("a@b.c", "pw"), Ok(Some(broken)), &k);
    assert_eq!(r.code, 500);
}

#[test]
fn signin_correct_credentials_returns_token() {
    let k = Keys::new(b"k");
    let r = signin(submitted("a@b.c", "right"), Ok(Some(stored_user("right"))), &k);
    assert_eq!(r.code, 200);
    let data = r.data.unwrap();
    assert!(!data.token.is_empty());
    assert_eq!(data.token_type, "bearer");
    assert_eq!(data.user.password, "");
    assert_eq!(data.user.user_id, "user-1");
    assert_eq!(data.user.id, "id-1");
    assert_eq!(data.user.language.as_deref(), Some("ja"));
    let claims = validate_jwt(&data.token, &k, 0).unwrap();
    assert_eq!(claims.user_id, "user-1");
    assert_eq!(claims.email, "a@b.c");
}

#[test]
fn merge_fills_every_empty_field() {
    let mut mine = submitted("a@b.c", "pw");
    mine.country = Some("JP".to_string());
    let theirs = stored_user("x");
    let out = mine.merge_with(theirs);
    assert_eq!(out.id, "id-1");
    assert_eq!(out.user_id, "user-1");
    assert_eq!(out.email, "a@b.c");
    assert_eq!(out.password, "");
    assert_eq!(out.ip.as_deref(), Some("127.0.0.1"));
    assert_eq!(out.country.as_deref(), Some("JP"));
    assert_eq!(out.created_at, Some(1_700_000_000));
    assert_eq!(mine.user_id, "user-1");
}

#[test]
fn health_reports_ok() {
    let r = health_at("2024-01-01T00:00:00+00:00".to_string());
    assert_eq!(r.code, 200);
    let d = r.data.unwrap();
    assert_eq!(d.health, "ok");
    assert_eq!(d.server_time, "2024-01-01T00:00:00+00:00");
    let r = health();
    let t = r.data.unwrap().server_time;
    assert!(t.len() >= 25);
    assert!(t.ends_with("+00:00"));
}

#[test]
fn signin_at_fixes_the_expiry() {
    let k = Keys::new(b"k");
    let r = signin_at(submitted("a@b.c", "right"), Ok(Some(stored_user("right"))), &k, 1_000);
    assert_eq!(r.code, 200);
    assert_eq!(r.message, "success");
    let data = r.data.unwrap();
    let claims = validate_jwt(&data.token, &k, 1_000).unwrap();
    assert_eq!(claims.exp, 1_000 + TOKEN_TTL_SECS);
    assert!(validate_jwt(&data.token, &k, 1_000 + TOKEN_TTL_SECS).is_err());
}

#[test]
fn signin_request_with_unreadable_body_is_bad_request() {
    let r = signin_request(Err("missing field `password`".to_string()));
    let e = r.unwrap_err();
    assert_eq!(e.code, 400);
    assert_eq!(e.message, "error");
    assert_eq!(e.error.as_deref(), Some("missing field `password`"));
    let ok = signin_request(Ok(submitted("a@b.c", "pw"))).unwrap();
    assert_eq!(ok.email, "a@b.c");
}

#[test]
fn parse_u32_reads_decimal() {
    assert_eq!(parse_u32("0"), Some(0));
    assert_eq!(parse_u32("007"), Some(7));
    assert_eq!(parse_u32("+42"), Some(42));
    assert_eq!(parse_u32("4294967295"), Some(4294967295));
    assert_eq!(parse_u32("4294967296"), None);
    assert_eq!(parse_u32("99999999999x"), None);
    assert_eq!(parse_u32("+"), None);
    assert_eq!(parse_u32(""), None);
    assert_eq!(parse_u32("-1"), None);
    assert_eq!(parse_u32("1a"), None);
    assert_eq!(parse_u32(" 1"), None);
}
