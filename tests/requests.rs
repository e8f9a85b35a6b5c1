use std::collections::HashMap;

use storus::{reply, Request, StooConfig};
use tonic::{Code, Status};

/// What the store sends back for one request.
#[derive(Debug, PartialEq)]
enum Answer {
    Text(String),
    Entries(HashMap<String, String>),
}

/// An in-memory store that keeps what it is sent and counts the calls.
#[derive(Default)]
struct FakeStore {
    entries: HashMap<(String, String, String), String>,
    calls: usize,
    received: Vec<Request>,
}

impl FakeStore {
    fn handle(&mut self, request: Request) -> Result<Answer, Status> {
        self.calls += 1;
        self.received.push(request.clone());
        match request {
            Request::Get { namespace, profile, key } => self
                .entries
                .get(&(namespace, profile, key))
                .map(|v| Answer::Text(v.clone()))
                .ok_or_else(|| Status::new(Code::NotFound, "key missing")),
            Request::SetKey { namespace, profile, key, value }
            | Request::SetSecretKey { namespace, profile, key, value } => {
                self.entries.insert((namespace, profile, key), value);
                Ok(Answer::Text(String::from("OK")))
            }
            Request::Delete { namespace, profile, key } => {
                self.entries.remove(&(namespace, profile, key));
                Ok(Answer::Text(String::from("OK")))
            }
            Request::GetAll { namespace, profile } => {
                let mut found = HashMap::new();
                for ((ns, p, k), v) in &self.entries {
                    if *ns == namespace && *p == profile {
                        found.insert(k.clone(), v.clone());
                    }
                }
                Ok(Answer::Entries(found))
            }
        }
    }
}

fn text(answer: Result<Answer, String>) -> Result<String, String> {
    answer.map(|a| match a {
        Answer::Text(t) => t,
        Answer::Entries(_) => panic!("expected a text reply"),
    })
}

#[test]
fn get_builds_the_request() {
    let expected = Request::Get {
        namespace: String::from("my-app"),
        profile: String::from("prod"),
        key: String::from("database.username"),
    };
    assert_eq!(Request::get("my-app", "prod", "database.username"), expected);
}

#[test]
fn set_and_set_secret_build_distinct_requests() {
    let set = Request::set("ns", "prof", "k", "v");
    let secret = Request::set_secret("ns", "prof", "k", "v");
    assert_eq!(
        set,
        Request::SetKey {
            namespace: String::from("ns"),
            profile: String::from("prof"),
            key: String::from("k"),
            value: String::from("v"),
        }
    );
    assert_eq!(
        secret,
        Request::SetSecretKey {
            namespace: String::from("ns"),
            profile: String::from("prof"),
            key: String::from("k"),
            value: String::from("v"),
        }
    );
}

#[test]
fn delete_and_listing_build_their_requests() {
    assert_eq!(
        Request::delete("ns", "prof", "k"),
        Request::Delete {
            namespace: String::from("ns"),
            profile: String::from("prof"),
            key: String::from("k"),
        }
    );
    assert_eq!(
        Request::get_all_by_namespace_and_profile("ns", "prof"),
        Request::GetAll { namespace: String::from("ns"), profile: String::from("prof") }
    );
}

#[test]
fn default_get_without_namespace_makes_no_call() {
    let config = StooConfig::from("http://localhost:50051").default_profile("prod");
    let mut store = FakeStore::default();
    let result = Request::get_default(&config, "k").map(|req| store.handle(req));
    assert_eq!(result.err(), Some(String::from("default_namespace is empty")));
    assert_eq!(store.calls, 0);
}

#[test]
fn every_default_operation_needs_both_defaults() {
    let config = StooConfig::from("http://localhost:50051").default_namespace("my-app");
    let err = Err(String::from("default_namespace is empty"));
    assert_eq!(Request::get_default(&config, "k"), err);
    assert_eq!(Request::set_default(&config, "k", "v"), err);
    assert_eq!(Request::set_secret_default(&config, "k", "v"), err);
    assert_eq!(Request::delete_default(&config, "k"), err);
    assert_eq!(Request::get_all_by_default_namespace_and_profile(&config), err);
}

#[test]
fn default_get_uses_configured_namespace_and_profile() {
    let config = StooConfig::from("http://localhost:50051")
        .default_namespace("my-app")
        .default_profile("prod");
    let mut store = FakeStore::default();
    let request = Request::get_default(&config, "k").unwrap();
    let _ = store.handle(request);
    assert_eq!(store.calls, 1);
    assert_eq!(store.received, vec![Request::get("my-app", "prod", "k")]);
}

#[test]
fn default_writes_use_configured_namespace_and_profile() {
    let config = StooConfig::from("http://localhost:50051")
        .default_namespace("my-app")
        .default_profile("prod");
    assert_eq!(Request::set_default(&config, "k", "v"), Ok(Request::set("my-app", "prod", "k", "v")));
    assert_eq!(
        Request::set_secret_default(&config, "k", "v"),
        Ok(Request::set_secret("my-app", "prod", "k", "v"))
    );
    assert_eq!(Request::delete_default(&config, "k"), Ok(Request::delete("my-app", "prod", "k")));
    assert_eq!(
        Request::get_all_by_default_namespace_and_profile(&config),
        Ok(Request::get_all_by_namespace_and_profile("my-app", "prod"))
    );
}

#[test]
fn set_then_get_returns_the_value() {
    let mut store = FakeStore::default();
    let written = text(reply(store.handle(Request::set("ns", "prof", "k", "v"))));
    assert_eq!(written, Ok(String::from("OK")));
    let read = text(reply(store.handle(Request::get("ns", "prof", "k"))));
    assert_eq!(read, Ok(String::from("v")));
}

#[test]
fn listing_returns_the_whole_mapping() {
    let mut store = FakeStore::default();
    let _ = store.handle(Request::set("ns", "prof", "b", "2"));
    let _ = store.handle(Request::set("ns", "prof", "a", "1"));
    let _ = store.handle(Request::set("ns", "other", "c", "3"));
    let listed = reply(store.handle(Request::get_all_by_namespace_and_profile("ns", "prof")));
    let mut expected = HashMap::new();
    expected.insert(String::from("a"), String::from("1"));
    expected.insert(String::from("b"), String::from("2"));
    assert_eq!(listed, Ok(Answer::Entries(expected)));
}

#[test]
fn missing_key_surfaces_code_and_message() {
    let mut store = FakeStore::default();
    let read = text(reply(store.handle(Request::get("ns", "prof", "k"))));
    assert_eq!(read, Err(String::from("Some requested entity was not found - key missing")));
}

#[test]
fn delete_removes_the_entry() {
    let mut store = FakeStore::default();
    let _ = store.handle(Request::set_secret("ns", "prof", "k", "secret"));
    assert_eq!(text(reply(store.handle(Request::get("ns", "prof", "k")))), Ok(String::from("secret")));
    assert_eq!(text(reply(store.handle(Request::delete("ns", "prof", "k")))), Ok(String::from("OK")));
    assert!(text(reply(store.handle(Request::get("ns", "prof", "k")))).is_err());
}
