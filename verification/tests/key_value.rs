use user_service::kv;
use user_service::{Error, Header, IdRequest, Response};

fn header(name: &str, value: &str) -> Header {
    Header { name: name.to_string(), value: value.to_string() }
}

fn info(id: &str, text: Option<&str>) -> IdRequest {
    IdRequest { id: id.to_string(), text: text.map(|t| t.to_string()) }
}

#[test]
fn commands_carry_the_key() {
    assert_eq!(kv::get_command(&info("k1", None)), vec!["GET", "k1"]);
    assert_eq!(kv::set_command(&info("k1", Some("ignored"))), vec!["SET", "k1", "set k1"]);
    assert_eq!(kv::set_command(&info("", None)), vec!["SET", "", "set "]);
    assert_eq!(kv::ping_command(), vec!["PING"]);
}

#[test]
fn get_shows_the_value_and_the_text() {
    let r = kv::get(&info("k1", Some("hello")), Ok(Some("v1".to_string())));
    assert_eq!(
        r,
        Response {
            status: 200,
            headers: vec![
                header("ContentEncoding", "Gzip"),
                header("content-type", "text/html; charset=utf-8"),
            ],
            body: "<p>v1<br><b>hello</b></p>".to_string(),
        }
    );
}

#[test]
fn get_shows_null_when_no_text_was_given() {
    let r = kv::get(&info("k1", None), Ok(Some("v1".to_string())));
    assert_eq!(r.status, 200);
    assert_eq!(r.body, "<p>v1<br><b>null</b></p>");
}

#[test]
fn get_of_an_unknown_key_says_so() {
    let r = kv::get(&info("k9", Some("hello")), Ok(None));
    assert_eq!(
        r,
        Response {
            status: 200,
            headers: vec![header("content-type", "text/html; charset=utf-8")],
            body: "<p>not id:k9</p>".to_string(),
        }
    );
}

#[test]
fn get_failure_is_a_500() {
    let r = kv::get(&info("k1", None), Err(Error::Pool("timed out".to_string())));
    assert_eq!(r, Response::failure(&Error::Pool("timed out".to_string())));
    assert_eq!(r.status, 500);
    assert_eq!(r.body, "Pool: timed out");
}

#[test]
fn set_and_watcher_answer_ok_whatever_the_store_said() {
    let ok = Response { status: 200, headers: vec![], body: "OK".to_string() };
    assert_eq!(kv::set(Ok("OK".to_string())), ok);
    assert_eq!(kv::set(Ok("anything".to_string())), ok);
    assert_eq!(kv::watcher(Ok("PONG".to_string())), ok);
    assert_eq!(kv::watcher(Ok(String::new())), ok);
}

#[test]
fn set_and_watcher_failures_are_500s() {
    let e = Error::Redis("connection refused".to_string());
    assert_eq!(kv::set(Err(e.clone())), Response::failure(&e));
    assert_eq!(kv::watcher(Err(e.clone())).body, "Rdis: connection refused");
    assert_eq!(kv::watcher(Err(Error::BlockingCanceled)).status, 500);
}

#[test]
fn first_service_get_shows_the_value_and_the_text() {
    let r = user_service::kv_basic::get(&info("k1", Some("hello")), "v1");
    assert_eq!(
        r,
        Response {
            status: 200,
            headers: vec![header("ContentEncoding", "Gzip"), header("Content-Type", "text/html")],
            body: "<p>v1<br><b>hello</b></p>".to_string(),
        }
    );
    let r = user_service::kv_basic::get(&info("k1", None), "v1");
    assert_eq!(r.body, "<p>v1<br><b>not text</b></p>");
}

#[test]
fn first_service_set_names_the_key() {
    let r = user_service::kv_basic::set(&info("k1", None));
    assert_eq!(
        r,
        Response {
            status: 200,
            headers: vec![header("content-type", "text/plain")],
            body: "set k1;".to_string(),
        }
    );
}

#[test]
fn first_service_watcher_is_ok_only_on_pong() {
    let answer = |reply: &str| user_service::kv_basic::watcher(&reply.to_string());
    assert_eq!(answer("PONG"), Response { status: 200, headers: vec![], body: "OK".to_string() });
    assert_eq!(answer("pong"), Response { status: 200, headers: vec![], body: "NG".to_string() });
    assert_eq!(answer("").body, "NG");
    assert_eq!(answer("PONG ").body, "NG");
}

#[test]
fn config_builds_the_connection_strings() {
    let config = user_service::Config {
        workers: 4,
        web_port: 8080,
        store: "root:pw@localhost:3306/app".to_string(),
    };
    assert_eq!(config.mysql_url(), "mysql://root:pw@localhost:3306/app");
    assert_eq!(config.redis_url(), "redis://root:pw@localhost:3306/app");
    assert_eq!(config.bind_host(), "0.0.0.0");
    assert_eq!(user_service::config::POOL_TIMEOUT_SECS, 1);
    let empty = user_service::Config { workers: 1, web_port: 1, store: String::new() };
    assert_eq!(empty.mysql_url(), "mysql://");
    assert_eq!(empty.redis_url(), "redis://");
}
