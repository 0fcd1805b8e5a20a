use rocket_slog::chain::CallbackChain;
use rocket_slog::enrich::{
    join_header_values, request_fields, response_fields, response_line_fields, route_detail_fields,
};
use rocket_slog::field::{Field, FieldValue};
use rocket_slog::manifest::{base_url, manifest_lines, CatcherInfo, ServerConfig};
use rocket_slog::request::{RequestInfo, ResponseInfo, RouteInfo};
use rocket_slog::slogger::Slogger;
use rocket_slog::transaction::{RequestScope, RequestTransaction, Timestamp, MAX_SECS, MIN_SECS};

fn text(s: &str) -> FieldValue {
    FieldValue::Text(s.to_string())
}

fn keys(fields: &[Field]) -> Vec<String> {
    fields.iter().map(|f| f.key.clone()).collect()
}

fn value<'a>(fields: &'a [Field], key: &str) -> Option<&'a FieldValue> {
    fields.iter().rev().find(|f| f.key == key).map(|f| &f.value)
}

fn hello_route() -> RouteInfo {
    RouteInfo {
        rank: -2,
        name: Some("hello".to_string()),
        path: "/hello/<name>".to_string(),
        method: "GET".to_string(),
        format: Some("application/json".to_string()),
    }
}

fn request(route: Option<RouteInfo>) -> RequestInfo {
    RequestInfo {
        method: "GET".to_string(),
        uri: "/hello/world?x=1".to_string(),
        route,
        user_agents: vec!["curl/8.0".to_string(), "probe".to_string()],
        content_type: None,
    }
}

fn config() -> ServerConfig {
    ServerConfig {
        address: "127.0.0.1".to_string(),
        port: 8000,
        tls: false,
        workers: 4,
        keep_alive: 5,
        log_level: "normal".to_string(),
        ident: "Rocket".to_string(),
        limits: "bytes = 8KiB".to_string(),
        profile: "debug".to_string(),
        temp_dir: "/tmp".to_string(),
    }
}

const ID: u128 = 0x67e5504410b1426f9247bb680e5fe0c8;

#[test]
fn base_url_plain_and_tls() {
    assert_eq!(base_url(false, &"127.0.0.1".to_string(), 8000), "http://127.0.0.1:8000");
    assert_eq!(base_url(true, &"0.0.0.0".to_string(), 443), "https://0.0.0.0:443");
    assert_eq!(base_url(false, &"::1".to_string(), 0), "http://::1:0");
}

#[test]
fn manifest_has_one_line_per_route_and_catcher() {
    let routes = vec![hello_route(), RouteInfo { rank: 1, name: None, path: "/".to_string(), method: "POST".to_string(), format: None }];
    let catchers = vec![
        CatcherInfo { name: Some("not_found".to_string()), code: Some(404), base: "/".to_string() },
        CatcherInfo { name: None, code: None, base: "/api".to_string() },
        CatcherInfo { name: None, code: Some(500), base: "/".to_string() },
    ];
    let lines = manifest_lines(&config(), &routes, &catchers);
    let messages: Vec<&str> = lines.iter().map(|l| l.message.as_str()).collect();
    assert_eq!(
        messages,
        vec![
            "Rocket Launched",
            "Route Registered",
            "Route Registered",
            "Catcher Registered",
            "Catcher Registered",
            "Catcher Registered",
            "Accepting Connections",
        ]
    );
    let route = &lines[1].fields;
    assert_eq!(keys(route), vec!["rank", "route", "content-type", "path", "url", "method"]);
    assert_eq!(value(route, "rank"), Some(&FieldValue::Signed(-2)));
    assert_eq!(value(route, "url"), Some(&text("http://127.0.0.1:8000/hello/<name>")));
    assert_eq!(value(route, "route"), Some(&FieldValue::MaybeText(Some("hello".to_string()))));
    let catcher = &lines[4].fields;
    assert_eq!(value(catcher, "code"), Some(&FieldValue::MaybeUnsigned(None)));
    assert_eq!(value(catcher, "url"), Some(&text("http://127.0.0.1:8000/api")));
    let launch = &lines[0].fields;
    assert_eq!(launch.len(), 11);
    assert_eq!(value(launch, "workers"), Some(&FieldValue::Unsigned(4)));
    assert_eq!(value(launch, "tls"), Some(&FieldValue::Flag(false)));
    let last = &lines[6].fields;
    assert_eq!(keys(last), vec!["port", "host", "url"]);
    assert_eq!(value(last, "port"), Some(&FieldValue::Unsigned(8000)));
}

#[test]
fn manifest_without_routes_or_catchers() {
    let lines = manifest_lines(&config(), &vec![], &vec![]);
    assert_eq!(lines.len(), 2);
    assert_eq!(lines[0].message, "Rocket Launched");
    assert_eq!(lines[1].message, "Accepting Connections");
    assert_eq!(value(&lines[1].fields, "url"), Some(&text("http://127.0.0.1:8000")));
}

#[test]
fn header_values_joined() {
    assert_eq!(join_header_values(&vec![]), "");
    assert_eq!(join_header_values(&vec!["a".to_string()]), "a");
    assert_eq!(join_header_values(&vec!["a".to_string(), "b c".to_string(), "".to_string()]), "a; b c; ");
}

#[test]
fn unmatched_request_has_method_and_uri_only() {
    let fields = route_detail_fields(&request(None));
    assert_eq!(keys(&fields), vec!["method", "uri"]);
    assert_eq!(value(&fields, "method"), Some(&text("GET")));
    assert_eq!(value(&fields, "uri"), Some(&text("/hello/world?x=1")));
    assert!(value(&fields, "route").is_none());
    assert!(value(&fields, "rank").is_none());
}

#[test]
fn matched_request_has_route_details() {
    let fields = route_detail_fields(&request(Some(hello_route())));
    assert_eq!(keys(&fields), vec!["rank", "route", "path", "method", "uri"]);
    assert_eq!(value(&fields, "rank"), Some(&FieldValue::Signed(-2)));
    assert_eq!(value(&fields, "route"), Some(&FieldValue::MaybeText(Some("hello".to_string()))));
    assert_eq!(value(&fields, "path"), Some(&text("/hello/<name>")));
    assert_eq!(value(&fields, "uri"), Some(&text("/hello/world?x=1")));
}

#[test]
fn request_fields_without_transaction() {
    let fields = request_fields(&request(None), None);
    assert_eq!(keys(&fields), vec!["user-agent", "content-type"]);
    assert_eq!(value(&fields, "user-agent"), Some(&text("curl/8.0; probe")));
    assert_eq!(value(&fields, "content-type"), Some(&FieldValue::MaybeText(None)));
}

#[test]
fn request_fields_with_transaction() {
    let t = RequestTransaction::with_parts(ID, Timestamp { secs: 0, nanos: 0 });
    let fields = request_fields(&request(None), Some(t));
    assert_eq!(keys(&fields), vec!["received", "transaction", "user-agent", "content-type"]);
    assert_eq!(
        value(&fields, "received"),
        Some(&text("1970-01-01T00:00:00+00:00"))
    );
    assert_eq!(value(&fields, "transaction"), Some(&text("67e55044-10b1-426f-9247-bb680e5fe0c8")));
}

#[test]
fn response_fields_with_transaction() {
    let t = RequestTransaction::with_parts(ID, Timestamp { secs: 10, nanos: 0 });
    let response = ResponseInfo { code: 404, reason: Some("Not Found".to_string()), content_type: Some("text/html".to_string()) };
    let fields = response_fields(&response, Some(t), Timestamp { secs: 11, nanos: 250 });
    assert_eq!(keys(&fields), vec!["elapsed_ns", "received", "transaction", "content-type", "reason", "code"]);
    assert_eq!(value(&fields, "elapsed_ns"), Some(&FieldValue::MaybeSigned(Some(1_000_000_250))));
    assert_eq!(value(&fields, "code"), Some(&FieldValue::Unsigned(404)));
    let plain = response_fields(&response, None, Timestamp { secs: 0, nanos: 0 });
    assert_eq!(keys(&plain), vec!["content-type", "reason", "code"]);
    let line = response_line_fields(&response, Some(12));
    assert_eq!(keys(&line), vec!["reason", "code", "size"]);
    assert_eq!(value(&line, "size"), Some(&FieldValue::MaybeUnsigned(Some(12))));
}

#[test]
fn transaction_strings() {
    let t = RequestTransaction::with_parts(ID, Timestamp { secs: 1_000_000_000, nanos: 500_000_000 });
    assert_eq!(t.id_as_string(), "67e55044-10b1-426f-9247-bb680e5fe0c8");
    assert_eq!(t.received_as_string(), "2001-09-09T01:46:40.500+00:00");
    let zero = RequestTransaction::with_parts(0, Timestamp { secs: 0, nanos: 0 });
    assert_eq!(zero.id_as_string(), "00000000-0000-0000-0000-000000000000");
}

#[test]
fn timestamps_cover_chrono_range() {
    let last = Timestamp::from_parts(MAX_SECS, 999_999_999).unwrap();
    let first = Timestamp::from_parts(MIN_SECS, 0).unwrap();
    assert_eq!(
        RequestTransaction::with_parts(0, last).received_as_string(),
        "+262142-12-31T23:59:59.999999999+00:00"
    );
    assert_eq!(RequestTransaction::with_parts(0, first).received_as_string(), "-262143-01-01T00:00:00+00:00");
    assert!(Timestamp::from_parts(MAX_SECS + 1, 0).is_none());
    assert!(Timestamp::from_parts(MIN_SECS - 1, 999_999_999).is_none());
    assert!(Timestamp::from_parts(0, 1_000_000_000).is_none());
}

#[test]
fn elapsed_time_exact_and_monotonic() {
    let t = RequestTransaction::with_parts(ID, Timestamp { secs: 100, nanos: 900_000_000 });
    assert_eq!(t.elapsed_ns_at(Timestamp { secs: 100, nanos: 900_000_000 }), Some(0));
    assert_eq!(t.elapsed_ns_at(Timestamp { secs: 102, nanos: 400_000_000 }), Some(1_500_000_000));
    assert_eq!(t.elapsed_ns_at(Timestamp { secs: 99, nanos: 900_000_000 }), Some(-1_000_000_000));
    assert_eq!(t.elapsed_as_string_at(Timestamp { secs: 102, nanos: 400_000_000 }), "PT1.5S");
    assert_eq!(t.elapsed_as_string_at(Timestamp { secs: 100, nanos: 900_000_000 }), "P0D");
    assert_eq!(t.elapsed_as_string_at(Timestamp { secs: 99, nanos: 400_000_000 }), "-PT1.5S");
    assert_eq!(t.elapsed_as_string_at(Timestamp { secs: 100, nanos: 900_000_001 }), "PT0.000000001S");
    assert_eq!(t.elapsed_as_string_at(Timestamp { secs: 99, nanos: 900_000_000 }), "-PT1S");
    let a = t.elapsed_ns_at(Timestamp { secs: 105, nanos: 0 }).unwrap();
    let b = t.elapsed_ns_at(Timestamp { secs: 106, nanos: 1 }).unwrap();
    assert!(0 <= a && a < b);
    let old = RequestTransaction::with_parts(ID, Timestamp { secs: MIN_SECS, nanos: 0 });
    assert_eq!(old.elapsed_ns_at(Timestamp { secs: 0, nanos: 0 }), None);
    assert_eq!(old.elapsed_as_string_at(Timestamp { secs: 0, nanos: 0 }), "PT8334601228800S");
}

#[test]
fn elapsed_text_beyond_nanosecond_range() {
    let t = RequestTransaction::with_parts(ID, Timestamp { secs: 0, nanos: 0 });
    let later = Timestamp { secs: 10_000_000_000, nanos: 0 };
    assert_eq!(t.elapsed_ns_at(later), None);
    assert_eq!(t.elapsed_as_string_at(later), "PT10000000000S");
    let later_fraction = Timestamp { secs: 10_000_000_000, nanos: 120_000_000 };
    assert_eq!(t.elapsed_as_string_at(later_fraction), "PT10000000000.12S");
}

#[test]
fn elapsed_by_the_clock_is_not_negative() {
    let t = RequestTransaction::new();
    assert!(t.elapsed_ns().is_some());
    assert!(t.elapsed_as_string().starts_with('P'));
}

#[test]
fn fresh_transactions_are_random_v4() {
    let a = RequestTransaction::new();
    let b = RequestTransaction::default();
    assert_ne!(a.id, b.id);
    let s = a.id_as_string();
    assert_eq!(s.len(), 36);
    assert_eq!(&s[14..15], "4");
    assert!(matches!(&s[19..20], "8" | "9" | "a" | "b"));
}

#[test]
fn transaction_attached_once_per_request() {
    let mut scope = RequestScope::new();
    assert!(scope.transaction().is_none());
    let first = RequestTransaction::with_parts(1, Timestamp { secs: 5, nanos: 0 });
    let second = RequestTransaction::with_parts(2, Timestamp { secs: 9, nanos: 0 });
    let on_request = first.attach_on(&mut scope);
    let on_response = second.attach_on(&mut scope);
    assert_eq!(on_request, first);
    assert_eq!(on_response, first);
    assert_eq!(on_request.id_as_string(), on_response.id_as_string());
    assert_eq!(scope.transaction(), Some(first));
}

type Logger = Vec<(String, String)>;

fn with_field(l: &Logger, k: &str, v: &str) -> Logger {
    let mut c = l.clone();
    c.push((k.to_string(), v.to_string()));
    c
}

fn shown(l: &Logger, k: &str) -> Option<String> {
    l.iter().rev().find(|(key, _)| key == k).map(|(_, v)| v.clone())
}

#[test]
fn callbacks_compose_in_registration_order() {
    let base: Logger = vec![("app".to_string(), "demo".to_string())];
    let mut chain = CallbackChain::start(base, 2);
    assert_eq!(chain.next_callback(), Some(0));
    let seen_by_first = chain.current().clone();
    chain.record(Some(with_field(&with_field(&seen_by_first, "user", "alice"), "tag", "one")));
    assert_eq!(chain.next_callback(), Some(1));
    let seen_by_second = chain.current().clone();
    assert_eq!(shown(&seen_by_second, "user"), Some("alice".to_string()));
    chain.record(Some(with_field(&with_field(&seen_by_second, "session", "s1"), "tag", "two")));
    assert_eq!(chain.next_callback(), None);
    let last = chain.finish();
    assert_eq!(shown(&last, "app"), Some("demo".to_string()));
    assert_eq!(shown(&last, "user"), Some("alice".to_string()));
    assert_eq!(shown(&last, "session"), Some("s1".to_string()));
    assert_eq!(shown(&last, "tag"), Some("two".to_string()));
}

#[test]
fn no_replacement_leaves_logger_unchanged() {
    let base: Logger = vec![("app".to_string(), "demo".to_string())];
    let mut chain = CallbackChain::start(base.clone(), 3);
    chain.record(None);
    assert_eq!(chain.current(), &base);
    let replaced = with_field(&base, "k", "v");
    chain.record(Some(replaced.clone()));
    chain.record(None);
    assert_eq!(chain.next_callback(), None);
    assert_eq!(chain.finish(), replaced);
}

#[test]
fn empty_chain_keeps_initial_logger() {
    let chain: CallbackChain<u32> = CallbackChain::start(7, 0);
    assert_eq!(chain.next_callback(), None);
    assert_eq!(chain.finish(), 7);
}

#[test]
fn callbacks_kept_in_registration_order() {
    let state: Slogger<&str, u8, char> = Slogger::from_logger("root");
    assert_eq!(*state.get(), "root");
    assert_eq!(state.request_chain("root").next_callback(), None);
    let state = state.on_request(1).on_response('a').on_request(2).on_request(3);
    assert_eq!(*state.get(), "root");
    assert_eq!((*state.request_handler(0), *state.request_handler(1), *state.request_handler(2)), (1, 2, 3));
    assert_eq!(*state.response_handler(0), 'a');
    let mut chain = state.request_chain("request");
    let mut seen = vec![];
    while let Some(i) = chain.next_callback() {
        seen.push(*state.request_handler(i));
        chain.record(None);
    }
    assert_eq!(seen, vec![1, 2, 3]);
    assert_eq!(chain.finish(), "request");
    let mut responses = state.response_chain("response");
    assert_eq!(responses.next_callback(), Some(0));
    responses.record(Some("replaced"));
    assert_eq!(responses.next_callback(), None);
    assert_eq!(responses.finish(), "replaced");
}
