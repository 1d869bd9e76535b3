use user_service::handlers;
use user_service::text::decimal;
use user_service::{
    BlockingError, Error, Header, Response, Timestamp, UpdateRequest, User, UserRequest, UserTable,
};

fn header(name: &str, value: &str) -> Header {
    Header { name: name.to_string(), value: value.to_string() }
}

fn response(status: u16, headers: Vec<Header>, body: &str) -> Response {
    Response { status, headers, body: body.to_string() }
}

fn failure_500(body: &str) -> Response {
    response(500, vec![header("content-type", "text/plain; charset=utf-8")], body)
}

#[test]
fn decimal_renders_base_ten() {
    assert_eq!(decimal(0), "0");
    assert_eq!(decimal(7), "7");
    assert_eq!(decimal(9), "9");
    assert_eq!(decimal(10), "10");
    assert_eq!(decimal(101), "101");
    assert_eq!(decimal(1234567890), "1234567890");
    assert_eq!(decimal(4_294_967_295), "4294967295");
    assert_eq!(decimal(u64::MAX), "18446744073709551615");
}

#[test]
fn decimal_agrees_with_the_standard_rendering() {
    let mut n: u64 = 1;
    for _ in 0..64 {
        assert_eq!(decimal(n), n.to_string());
        assert_eq!(decimal(n - 1), (n - 1).to_string());
        n = n.wrapping_mul(3).wrapping_add(7);
    }
}

#[test]
fn error_messages_name_the_kind() {
    assert_eq!(Error::Io("broken pipe".to_string()).message(), "Io: broken pipe");
    assert_eq!(Error::Sqlx("syntax error".to_string()).message(), "Sqlx: syntax error");
    assert_eq!(Error::Pool("timed out".to_string()).message(), "Pool: timed out");
    assert_eq!(Error::Redis("refused".to_string()).message(), "Rdis: refused");
    assert_eq!(
        Error::NotFound.message(),
        "Sqlx: no rows returned by a query that expected to return at least one row"
    );
    assert_eq!(Error::BlockingCanceled.message(), "BlockingCanceled");
    assert_eq!(Error::Io(String::new()).message(), "Io: ");
}

#[test]
fn every_error_has_status_500() {
    assert_eq!(Error::Io("x".to_string()).status_code(), 500);
    assert_eq!(Error::Sqlx("x".to_string()).status_code(), 500);
    assert_eq!(Error::Pool("x".to_string()).status_code(), 500);
    assert_eq!(Error::Redis("x".to_string()).status_code(), 500);
    assert_eq!(Error::NotFound.status_code(), 500);
    assert_eq!(Error::BlockingCanceled.status_code(), 500);
}

#[test]
fn id_exhausted_is_a_store_error() {
    assert_eq!(
        Error::id_exhausted(),
        Error::Sqlx("Out of range value for column 'id' at row 1".to_string())
    );
}

#[test]
fn blocking_error_unwraps_or_becomes_canceled() {
    assert_eq!(
        Error::from(BlockingError::Error(Error::Sqlx("x".to_string()))),
        Error::Sqlx("x".to_string())
    );
    assert_eq!(Error::from(BlockingError::Error(Error::NotFound)), Error::NotFound);
    assert_eq!(Error::from(BlockingError::Canceled), Error::BlockingCanceled);
}

#[test]
fn error_clone_keeps_the_error() {
    let e = Error::Redis("x".to_string());
    assert_eq!(e.clone(), e);
    assert_eq!(Error::NotFound.clone(), Error::NotFound);
}

#[test]
fn unhandled_failure_is_plain_text_500() {
    assert_eq!(Response::failure(&Error::BlockingCanceled), failure_500("BlockingCanceled"));
    assert_eq!(Response::failure(&Error::Io("eof".to_string())), failure_500("Io: eof"));
}

#[test]
fn response_headers_keep_their_order() {
    let r = Response::plain(200, "b".to_string()).with_header("a", "1").with_header("b", "2");
    assert_eq!(r, response(200, vec![header("a", "1"), header("b", "2")], "b"));
    assert_eq!(Response::plain(404, String::new()), response(404, vec![], ""));
}

fn user_row(id: u32, name: &str, created: i64, deleted: Option<i64>) -> User {
    User {
        id,
        name: name.to_string(),
        mailadress: format!("{}@x.com", name),
        password: "p".to_string(),
        created_at: Timestamp { micros: created },
        updated_at: Timestamp { micros: created },
        deleted_at: deleted.map(|micros| Timestamp { micros }),
    }
}

#[test]
fn index_lists_the_routes() {
    let r = handlers::index();
    assert_eq!(r.status, 200);
    assert_eq!(r.headers, vec![]);
    assert!(r.body.starts_with("GET /users -> list of all users\n"));
    assert!(r.body.contains("\nDELETE /delete/physics/{id} -> remove the user with the requested id\n"));
    assert!(r.body.ends_with("GET /alive -> check that the store answers\n"));
    assert_eq!(r.body.lines().count(), 7);
}

#[test]
fn users_answers_200_with_the_list_or_500() {
    assert_eq!(handlers::users(Ok(vec![])), response(200, vec![], "Ok([])"));
    assert_eq!(
        handlers::users(Ok(vec![user_row(1, "a", 0, None), user_row(2, "b", 1_000_000, Some(2_000_000))])),
        response(
            200,
            vec![],
            "Ok([User { id: 1, name: \"a\", mailadress: \"a@x.com\", password: \"p\", \
             created_at: 1970-01-01T00:00:00Z, updated_at: 1970-01-01T00:00:00Z, deleted_at: None }, \
             User { id: 2, name: \"b\", mailadress: \"b@x.com\", password: \"p\", \
             created_at: 1970-01-01T00:00:01Z, updated_at: 1970-01-01T00:00:01Z, \
             deleted_at: Some(1970-01-01T00:00:02Z) }])"
        )
    );
    assert_eq!(
        handlers::users(Err(Error::Sqlx("gone away".to_string()))),
        failure_500("Sqlx: gone away")
    );
}

#[test]
fn user_answers_200_with_the_record_or_500() {
    assert_eq!(
        handlers::user(Ok(user_row(1, "a", 1_577_836_800_000_000, None))),
        response(
            200,
            vec![],
            "Ok(User { id: 1, name: \"a\", mailadress: \"a@x.com\", password: \"p\", \
             created_at: 2020-01-01T00:00:00Z, updated_at: 2020-01-01T00:00:00Z, deleted_at: None })"
        )
    );
    assert_eq!(
        handlers::user(Err(Error::NotFound)),
        failure_500("Sqlx: no rows returned by a query that expected to return at least one row")
    );
}

#[test]
fn a_record_without_a_date_is_answered_as_a_store_failure() {
    assert_eq!(
        handlers::user(Ok(user_row(1, "a", i64::MAX, None))),
        failure_500("Sqlx: timestamp out of range")
    );
    assert_eq!(
        handlers::users(Ok(vec![user_row(1, "a", 0, None), user_row(2, "b", 0, Some(i64::MIN))])),
        failure_500("Sqlx: timestamp out of range")
    );
    assert_eq!(Error::undated(), Error::Sqlx("timestamp out of range".to_string()));
}

#[test]
fn handlers_answer_what_the_data_access_layer_returns() {
    let mut table = UserTable::new();
    let made = User::create(
        UserRequest {
            name: "a".to_string(),
            mailadress: "a@x.com".to_string(),
            password: "p".to_string(),
        },
        Timestamp { micros: 0 },
        &mut table,
    );
    assert_eq!(handlers::create(made).body, "1");
    assert_eq!(
        handlers::user(User::find_by_id(1, &table)).body,
        "Ok(User { id: 1, name: \"a\", mailadress: \"a@x.com\", password: \"p\", \
         created_at: 1970-01-01T00:00:00Z, updated_at: 1970-01-01T00:00:00Z, deleted_at: None })"
    );
    let changed = User::update(
        1,
        UpdateRequest { password: "p2".to_string() },
        Timestamp { micros: 1 },
        &mut table,
    );
    assert_eq!(handlers::update(changed).body, "true");
    assert_eq!(handlers::delete_put(User::delete_put(2, Timestamp { micros: 2 }, &mut table)).body, "false");
    assert_eq!(handlers::delete(User::delete(1, &mut table)).status, 200);
    assert_eq!(handlers::delete(User::delete(1, &mut table)).status, 400);
    assert_eq!(handlers::user(User::find_by_id(1, &table)).status, 500);
    assert_eq!(handlers::users(User::find_all(&table)).body, "Ok([])");
}

#[test]
fn create_answers_200_with_the_identifier_or_400() {
    assert_eq!(
        handlers::create(Ok(1)),
        response(200, vec![header("content-type", "application/javascript")], "1")
    );
    assert_eq!(
        handlers::create(Ok(4_294_967_295)),
        response(200, vec![header("content-type", "application/javascript")], "4294967295")
    );
    assert_eq!(
        handlers::create(Err(Error::id_exhausted())),
        response(400, vec![], "Sqlx: Out of range value for column 'id' at row 1")
    );
}

#[test]
fn update_answers_200_with_a_truth_value_or_400() {
    let json = || vec![header("content-type", "application/json")];
    assert_eq!(handlers::update(Ok(true)), response(200, json(), "true"));
    assert_eq!(handlers::update(Ok(false)), response(200, json(), "false"));
    assert_eq!(
        handlers::update(Err(Error::Sqlx("deadlock".to_string()))),
        response(400, vec![], "err:Sqlx: deadlock")
    );
}

#[test]
fn delete_put_answers_200_with_a_truth_value_or_400() {
    let json = || vec![header("content-type", "application/json")];
    assert_eq!(handlers::delete_put(Ok(true)), response(200, json(), "true"));
    assert_eq!(handlers::delete_put(Ok(false)), response(200, json(), "false"));
    assert_eq!(
        handlers::delete_put(Err(Error::Io("reset".to_string()))),
        response(400, vec![], "err:Io: reset")
    );
}

#[test]
fn delete_answers_200_only_if_a_row_was_removed() {
    assert_eq!(
        handlers::delete(Ok(1)),
        response(200, vec![], "Successfully deleted id:1 record(s)")
    );
    assert_eq!(
        handlers::delete(Ok(12)),
        response(200, vec![], "Successfully deleted id:12 record(s)")
    );
    assert_eq!(handlers::delete(Ok(0)), response(400, vec![], "User not found"));
    assert_eq!(
        handlers::delete(Err(Error::Sqlx("x".to_string()))),
        response(400, vec![], "User not found")
    );
}

#[test]
fn alive_succeeds_only_on_the_probe_value() {
    assert_eq!(handlers::PROBE_VALUE, 150);
    assert_eq!(handlers::alive(Ok(150)), response(200, vec![], "OK"));
    assert_eq!(handlers::alive(Ok(149)), response(408, vec![], "NG"));
    assert_eq!(handlers::alive(Ok(0)), response(408, vec![], "NG"));
    assert_eq!(handlers::alive(Ok(-150)), response(408, vec![], "NG"));
    assert_eq!(
        handlers::alive(Err(Error::Sqlx("gone away".to_string()))),
        failure_500("Sqlx: gone away")
    );
}
