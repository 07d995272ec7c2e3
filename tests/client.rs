use libsql_client::backend::{
    infer_backend, network_url, new_client, new_client_with_config, select_backend, BackendKind,
    ClientConfig, EnabledBackends,
};
use libsql_client::client::{
    transaction_results, transaction_statements, DatabaseClient, GenericClient,
};
use libsql_client::codec::{decode_items, json_to_query_result, statements_to_string};
use libsql_client::error::{ClientError, ConfigProblem};
use libsql_client::statement::Statement;
use std::cell::RefCell;

fn stmts(texts: &[&str]) -> Vec<Statement> {
    texts.iter().map(|t| Statement::new(t)).collect()
}

fn parse_number(v: &serde_json::Value, idx: usize) -> Result<i64, String> {
    match v.as_i64() {
        Some(n) => Ok(n * 100 + idx as i64),
        None => Err(format!("item {idx} is not a number")),
    }
}

fn numbers(ns: &[i64]) -> serde_json::Value {
    serde_json::Value::Array(ns.iter().map(|n| serde_json::Value::from(*n)).collect())
}

#[test]
fn encode_empty_list() {
    let (body, n) = statements_to_string(&Vec::new());
    assert_eq!(body, "{\"statements\": []}");
    assert_eq!(n, 0);
}

#[test]
fn encode_one_statement() {
    let (body, n) = statements_to_string(&stmts(&["SELECT 1"]));
    assert_eq!(body, "{\"statements\": [{\"q\": \"SELECT 1\"}]}");
    assert_eq!(n, 1);
}

#[test]
fn encode_keeps_order_without_trailing_separator() {
    let (body, n) = statements_to_string(&stmts(&["A", "B", "C"]));
    assert_eq!(body, "{\"statements\": [{\"q\": \"A\"},{\"q\": \"B\"},{\"q\": \"C\"}]}");
    assert_eq!(n, 3);
}

#[test]
fn encode_escapes_sql_text() {
    let s = Statement::new("SELECT \"a\\b\"");
    assert_eq!(s.encode(), "{\"q\": \"SELECT \\\"a\\\\b\\\"\"}");
    assert_eq!(s.sql(), "SELECT \"a\\b\"");
}

#[test]
fn decode_matching_array() {
    let r = json_to_query_result(numbers(&[7, 8, 9]), 3, &parse_number).unwrap();
    assert_eq!(r, vec![700, 801, 902]);
}

#[test]
fn round_trip_keeps_order_and_length() {
    let list = stmts(&["INSERT 1", "INSERT 2"]);
    let (_, n) = statements_to_string(&list);
    let r = json_to_query_result(numbers(&[5, 6]), n, &parse_number).unwrap();
    assert_eq!(r.len(), list.len());
    assert_eq!(r, vec![500, 601]);
}

#[test]
fn decode_empty_array_for_empty_batch() {
    let r = json_to_query_result(numbers(&[]), 0, &parse_number).unwrap();
    assert!(r.is_empty());
}

#[test]
fn decode_count_mismatch() {
    let r = json_to_query_result(numbers(&[1, 2]), 3, &parse_number);
    assert!(matches!(
        r,
        Err(ClientError::ResponseCountMismatch { expected: 3, actual: 2 })
    ));
    let r = json_to_query_result(numbers(&[1, 2, 3, 4]), 3, &parse_number);
    assert!(matches!(
        r,
        Err(ClientError::ResponseCountMismatch { expected: 3, actual: 4 })
    ));
}

#[test]
fn decode_not_an_array() {
    let r = json_to_query_result(serde_json::Value::from("oops"), 1, &parse_number);
    assert!(matches!(r, Err(ClientError::ResponseShape)));
    let r = decode_items(None, 0, &parse_number);
    assert!(matches!(r, Err(ClientError::ResponseShape)));
}

#[test]
fn decode_parse_failure_names_index() {
    let v = serde_json::Value::Array(vec![
        serde_json::Value::from(1),
        serde_json::Value::from("x"),
        serde_json::Value::from(3),
    ]);
    match json_to_query_result(v, 3, &parse_number) {
        Err(ClientError::StatementParse { index, message }) => {
            assert_eq!(index, 1);
            assert_eq!(message, "item 1 is not a number");
        }
        _ => panic!("expected a parse failure"),
    }
}

#[test]
fn transaction_framing() {
    let framed = transaction_statements(stmts(&["s1", "s2"]));
    let texts: Vec<&str> = framed.iter().map(|s| s.sql()).collect();
    assert_eq!(texts, vec!["BEGIN", "s1", "s2", "END"]);
    assert_eq!(transaction_results(vec![0, 1, 2, 3]), vec![1, 2]);
    assert_eq!(transaction_results(vec![9]), Vec::<i32>::new());
    assert_eq!(transaction_results(Vec::<i32>::new()), Vec::<i32>::new());
}

struct Recorder {
    sent: RefCell<Vec<Vec<String>>>,
    fail: bool,
}

impl Recorder {
    fn new(fail: bool) -> Self {
        Recorder { sent: RefCell::new(Vec::new()), fail }
    }
}

impl DatabaseClient for Recorder {
    type QueryResult = String;

    fn batch_outcome(
        &self,
        _stmts: vstd::seq::Seq<vstd::seq::Seq<char>>,
        _r: Result<vstd::seq::Seq<String>, ClientError>,
    ) -> bool {
        // A test double, not verified: it states nothing of its outcomes.
        true
    }

    fn batch(&self, stmts: Vec<Statement>) -> Result<Vec<String>, ClientError> {
        let texts: Vec<String> = stmts.iter().map(|s| s.sql().to_string()).collect();
        self.sent.borrow_mut().push(texts.clone());
        if self.fail {
            return Err(ClientError::Backend("down".to_string()));
        }
        Ok(texts.iter().map(|t| format!("result({t})")).collect())
    }
}

#[test]
fn transaction_sends_begin_and_end() {
    let db = Recorder::new(false);
    let r = db.transaction(stmts(&["s1", "s2"])).unwrap();
    assert_eq!(r, vec!["result(s1)", "result(s2)"]);
    assert_eq!(db.sent.borrow()[0], vec!["BEGIN", "s1", "s2", "END"]);
}

#[test]
fn execute_is_a_batch_of_one() {
    let db = Recorder::new(false);
    let one = db.execute(Statement::new("SELECT 1")).unwrap();
    let batch = db.batch(stmts(&["SELECT 1"])).unwrap();
    assert_eq!(one, batch[0]);
    assert_eq!(db.sent.borrow()[0], vec!["SELECT 1"]);
}

#[test]
fn empty_batch_gives_no_results() {
    let db = Recorder::new(false);
    assert!(db.batch(Vec::new()).unwrap().is_empty());
    assert!(db.transaction(Vec::new()).unwrap().is_empty());
}

#[test]
fn failures_pass_through() {
    let db = Recorder::new(true);
    assert!(matches!(db.execute(Statement::new("x")), Err(ClientError::Backend(_))));
    assert!(matches!(db.transaction(stmts(&["x"])), Err(ClientError::Backend(_))));
}

type Client = GenericClient<Recorder, Recorder, Recorder, Recorder>;

fn all_enabled() -> EnabledBackends {
    EnabledBackends { local: true, reqwest: true, workers: true, spin: true }
}

fn config(url: &str, backend: Option<&str>) -> ClientConfig {
    ClientConfig { url: url.to_string(), backend: backend.map(|b| b.to_string()) }
}

#[test]
fn file_url_selects_local() {
    let r = select_backend(&config("file:///tmp/x.db", None), all_enabled());
    assert!(matches!(r, Ok(BackendKind::Local)));
}

#[test]
fn https_url_selects_first_network_backend() {
    let r = select_backend(&config("https://host/db", None), all_enabled());
    assert!(matches!(r, Ok(BackendKind::Reqwest)));
    let only_workers = EnabledBackends { local: true, reqwest: false, workers: true, spin: true };
    assert_eq!(infer_backend("https://host/db", only_workers), BackendKind::Workers);
    match select_backend(&config("https://host/db", None), only_workers) {
        Err(ClientError::ContextRequired(name)) => assert_eq!(name, "workers"),
        _ => panic!("expected a context to be required"),
    }
    let none = EnabledBackends { local: true, reqwest: false, workers: false, spin: false };
    assert_eq!(infer_backend("https://host/db", none), BackendKind::Local);
}

#[test]
fn network_url_detection() {
    assert!(network_url("http://a"));
    assert!(network_url("https://a"));
    assert!(!network_url("file:///tmp/x.db"));
    assert!(!network_url("htt"));
}

#[test]
fn explicit_kind_not_built_in_is_unsupported() {
    let enabled = EnabledBackends { local: true, reqwest: false, workers: false, spin: false };
    match select_backend(&config("https://host/db", Some("reqwest")), enabled) {
        Err(ClientError::UnsupportedBackend(name)) => assert_eq!(name, "reqwest"),
        _ => panic!("expected an unsupported backend"),
    }
    match select_backend(&config("file:///x", Some("carrier-pigeon")), all_enabled()) {
        Err(ClientError::UnsupportedBackend(name)) => assert_eq!(name, "carrier-pigeon"),
        _ => panic!("expected an unsupported backend"),
    }
}

#[test]
fn explicit_spin_needs_context() {
    match select_backend(&config("https://host/db", Some("spin")), all_enabled()) {
        Err(ClientError::ContextRequired(name)) => assert_eq!(name, "spin"),
        _ => panic!("expected a context to be required"),
    }
}

#[test]
fn construct_local_client() {
    let r: Result<Client, ClientError> = new_client_with_config(
        &config("file:///tmp/x.db", None),
        all_enabled(),
        |u: String| {
            assert_eq!(u, "file:///tmp/x.db");
            Ok(Recorder::new(false))
        },
        |_u: url::Url| Err(ClientError::Backend("unused".to_string())),
    );
    assert!(matches!(r, Ok(GenericClient::Local(_))));
    let db = r.unwrap();
    assert_eq!(db.execute(Statement::new("SELECT 1")).unwrap(), "result(SELECT 1)");
}

#[test]
fn construct_remote_client() {
    let r: Result<Client, ClientError> = new_client_with_config(
        &config("https://host/db", None),
        all_enabled(),
        |_u: String| Err(ClientError::Backend("unused".to_string())),
        |u: url::Url| {
            assert_eq!(u.host_str(), Some("host"));
            Ok(Recorder::new(false))
        },
    );
    assert!(matches!(r, Ok(GenericClient::Reqwest(_))));
}

#[test]
fn construct_remote_client_with_bad_url() {
    let r: Result<Client, ClientError> = new_client_with_config(
        &config("http//no-scheme", Some("reqwest")),
        all_enabled(),
        |_u: String| Ok(Recorder::new(false)),
        |_u: url::Url| Ok(Recorder::new(false)),
    );
    assert!(matches!(r, Err(ClientError::Config(ConfigProblem::InvalidUrl(url::ParseError::RelativeUrlWithoutBase)))));
}

#[test]
fn new_client_requires_url() {
    let r: Result<Client, ClientError> = new_client(
        None,
        None,
        all_enabled(),
        |_u: String| Ok(Recorder::new(false)),
        |_u: url::Url| Ok(Recorder::new(false)),
    );
    assert!(matches!(r, Err(ClientError::Config(ConfigProblem::MissingUrl))));
    let r: Result<Client, ClientError> = new_client(
        Some("file:////tmp/example.db".to_string()),
        None,
        all_enabled(),
        |_u: String| Ok(Recorder::new(false)),
        |_u: url::Url| Ok(Recorder::new(false)),
    );
    assert!(matches!(r, Ok(GenericClient::Local(_))));
}

#[test]
fn error_messages() {
    let m = ClientError::UnsupportedBackend("foo".to_string()).message();
    assert!(m.starts_with("Unknown backend: foo."));
    assert_eq!(ClientError::Backend("down".to_string()).message(), "down");
}

#[test]
fn encode_escapes_control_characters() {
    let s = Statement::new("a\nb\tc\u{1}d\u{1f}");
    assert_eq!(s.encode(), "{\"q\": \"a\\nb\\tc\\u0001d\\u001f\"}");
}

#[test]
fn context_required_message_names_kind() {
    let m = ClientError::ContextRequired("workers".to_string()).message();
    assert_eq!(
        m,
        "Connecting through the workers backend needs its host context; call its own constructor directly"
    );
    let m = ClientError::Config(ConfigProblem::MissingUrl).message();
    assert!(m.starts_with("LIBSQL_CLIENT_URL"));
}
