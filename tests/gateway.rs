use depot_integrations::gateway::{
    check_body, create_origin_integration, delete_origin_integration, encrypt,
    fetch_origin_integration_names, status_for, AccessError, Action, CipherError, Event, Handler,
    Operation, Phase, Request, Response,
};
use depot_integrations::message::{
    BackendRequest, ErrCode, NetError, NetOk, OriginIntegrationNames,
};
use depot_integrations::params::{validate_params, RouteParams};
use depot_integrations::status::Status;

/// Plays the access guard, the cipher and the backend store.
struct World {
    access: Result<bool, AccessError>,
    cipher_fails: bool,
    records: Vec<(String, String, String, String)>,
    backend_error: Option<ErrCode>,
    access_checks: Vec<String>,
    encrypted: Vec<String>,
    sent: usize,
}

impl World {
    fn new(allowed: bool) -> World {
        World {
            access: Ok(allowed),
            cipher_fails: false,
            records: Vec::new(),
            backend_error: None,
            access_checks: Vec::new(),
            encrypted: Vec::new(),
            sent: 0,
        }
    }

    fn backend(&mut self, m: BackendRequest) -> Event {
        self.sent += 1;
        if let Some(code) = self.backend_error {
            let e = NetError { code, msg: String::from("failure") };
            return match m {
                BackendRequest::GetNames(_) => Event::Names(Err(e)),
                _ => Event::Done(Err(e)),
            };
        }
        match m {
            BackendRequest::GetNames(g) => {
                let names: Vec<String> = self
                    .records
                    .iter()
                    .filter(|r| r.0 == g.origin && r.1 == g.integration)
                    .map(|r| r.2.clone())
                    .collect();
                if names.is_empty() {
                    let e = NetError { code: ErrCode::EntityNotFound, msg: String::new() };
                    Event::Names(Err(e))
                } else {
                    Event::Names(Ok(OriginIntegrationNames { names }))
                }
            }
            BackendRequest::Create(c) => {
                let oi = c.integration;
                let exists = self
                    .records
                    .iter()
                    .any(|r| r.0 == oi.origin && r.1 == oi.integration && r.2 == oi.name);
                if exists {
                    let e = NetError { code: ErrCode::EntityConflict, msg: String::new() };
                    Event::Done(Err(e))
                } else {
                    self.records.push((oi.origin, oi.integration, oi.name, oi.body));
                    Event::Done(Ok(NetOk))
                }
            }
            BackendRequest::Delete(d) => {
                let oi = d.integration;
                let before = self.records.len();
                self.records
                    .retain(|r| !(r.0 == oi.origin && r.1 == oi.integration && r.2 == oi.name));
                if self.records.len() == before {
                    let e = NetError { code: ErrCode::EntityNotFound, msg: String::new() };
                    Event::Done(Err(e))
                } else {
                    Event::Done(Ok(NetOk))
                }
            }
        }
    }

    fn run(&mut self, start: (Handler, Action)) -> Response {
        let (mut h, mut a) = start;
        loop {
            let ev = match a {
                Action::Respond(r) => {
                    assert_eq!(h.phase, Phase::Finished);
                    return r;
                }
                Action::CheckAccess { origin, .. } => {
                    self.access_checks.push(origin);
                    Event::Access(self.access)
                }
                Action::Encrypt { content } => {
                    self.encrypted.push(content.clone());
                    if self.cipher_fails {
                        Event::Encrypted(Err(CipherError))
                    } else {
                        Event::Encrypted(Ok(format!("sealed:{}", content.len())))
                    }
                }
                Action::Send(m) => self.backend(m),
            };
            let next = h.step(ev);
            h = next.0;
            a = next.1;
        }
    }
}

fn route(pairs: &[(&str, &str)]) -> RouteParams {
    RouteParams {
        entries: pairs.iter().map(|(k, v)| (k.to_string(), v.to_string())).collect(),
    }
}

fn request(pairs: &[(&str, &str)], body: Option<&str>) -> Request {
    Request { route: route(pairs), session_id: 42, body: body.map(|b| b.to_string()) }
}

const FULL: [(&str, &str); 3] = [("origin", "acme"), ("integration", "docker"), ("name", "prod")];
const PAIR: [(&str, &str); 2] = [("origin", "acme"), ("integration", "docker")];

#[test]
fn create_authorized_succeeds_and_encrypts_raw_body_once() {
    let mut w = World::new(true);
    let r = w.run(create_origin_integration(request(&FULL, Some("{\"token\":\"abc\"}"))));
    assert_eq!(r.status, Status::NoContent);
    assert_eq!(r.status.code(), 204);
    assert_eq!(w.encrypted, vec![String::from("{\"token\":\"abc\"}")]);
    assert_eq!(w.access_checks, vec![String::from("acme")]);
    assert_eq!(w.records.len(), 1);
    assert_eq!(w.records[0].0, "acme");
    assert_eq!(w.records[0].1, "docker");
    assert_eq!(w.records[0].2, "prod");
    assert_eq!(w.records[0].3, "sealed:15");
}

#[test]
fn create_same_key_twice_conflicts() {
    let mut w = World::new(true);
    let first = w.run(create_origin_integration(request(&FULL, Some("{\"token\":\"abc\"}"))));
    assert_eq!(first.status, Status::NoContent);
    let second = w.run(create_origin_integration(request(&FULL, Some("{\"token\":\"xyz\"}"))));
    assert_eq!(second.status, Status::Conflict);
    assert_eq!(second.status.code(), 409);
    assert_eq!(w.records.len(), 1);
}

#[test]
fn unauthorized_caller_is_forbidden_for_every_operation() {
    let mut w = World::new(false);
    let list = w.run(fetch_origin_integration_names(request(&PAIR, None)));
    let create = w.run(create_origin_integration(request(&FULL, Some("{\"a\":1}"))));
    let delete = w.run(delete_origin_integration(request(&FULL, None)));
    for r in [list, create, delete] {
        assert_eq!(r.status, Status::Forbidden);
        assert_eq!(r.status.code(), 403);
        assert!(r.body.is_none());
    }
    assert!(w.encrypted.is_empty());
    assert_eq!(w.sent, 0);
    assert_eq!(w.access_checks.len(), 3);
}

#[test]
fn listing_with_no_records_is_not_found() {
    let mut w = World::new(true);
    let r = w.run(fetch_origin_integration_names(request(&PAIR, None)));
    assert_eq!(r.status, Status::NotFound);
    assert_eq!(r.status.code(), 404);
    assert_eq!(w.sent, 1);
}

#[test]
fn delete_without_name_is_bad_request() {
    let mut w = World::new(true);
    let r = w.run(delete_origin_integration(request(&PAIR, None)));
    assert_eq!(r.status, Status::BadRequest);
    assert_eq!(r.status.code(), 400);
    assert_eq!(w.sent, 0);
    assert!(w.access_checks.is_empty());
}

#[test]
fn missing_parameter_is_bad_request_without_access_check() {
    let mut w = World::new(false);
    let list = w.run(fetch_origin_integration_names(request(&[("origin", "acme")], None)));
    let create = w.run(create_origin_integration(request(&[("name", "prod")], Some("{}"))));
    let delete = w.run(delete_origin_integration(request(&[], None)));
    for r in [list, create, delete] {
        assert_eq!(r.status, Status::BadRequest);
    }
    assert!(w.access_checks.is_empty());
    assert!(w.encrypted.is_empty());
    assert_eq!(w.sent, 0);
}

#[test]
fn access_check_failure_is_internal_error() {
    let mut w = World::new(true);
    w.access = Err(AccessError);
    let list = w.run(fetch_origin_integration_names(request(&PAIR, None)));
    let create = w.run(create_origin_integration(request(&FULL, Some("{}"))));
    let delete = w.run(delete_origin_integration(request(&FULL, None)));
    for r in [list, create, delete] {
        assert_eq!(r.status, Status::InternalServerError);
        assert_eq!(r.status.code(), 500);
    }
    assert_eq!(w.sent, 0);
    assert!(w.encrypted.is_empty());
}

#[test]
fn empty_missing_or_malformed_body_is_bad_request() {
    for body in [None, Some(""), Some("{\"token\":"), Some("not json"), Some("{} {}")] {
        let mut w = World::new(true);
        let r = w.run(create_origin_integration(request(&FULL, body)));
        assert_eq!(r.status, Status::BadRequest);
        assert!(w.encrypted.is_empty());
        assert_eq!(w.sent, 0);
        assert_eq!(w.access_checks.len(), 1);
    }
}

#[test]
fn formatted_body_is_encrypted_verbatim() {
    let raw = "{\n  \"token\" : \"abc\" ,\n  \"n\": [1, 2]\n}\n";
    let mut w = World::new(true);
    let r = w.run(create_origin_integration(request(&FULL, Some(raw))));
    assert_eq!(r.status, Status::NoContent);
    assert_eq!(w.encrypted, vec![String::from(raw)]);
}

#[test]
fn cipher_failure_is_internal_error_without_backend_call() {
    let mut w = World::new(true);
    w.cipher_fails = true;
    let r = w.run(create_origin_integration(request(&FULL, Some("{\"a\":true}"))));
    assert_eq!(r.status, Status::InternalServerError);
    assert_eq!(w.encrypted.len(), 1);
    assert_eq!(w.sent, 0);
}

#[test]
fn listing_returns_names_only_and_is_not_cacheable() {
    let mut w = World::new(true);
    w.run(create_origin_integration(request(&FULL, Some("{\"token\":\"abc\"}"))));
    let other = [("origin", "acme"), ("integration", "docker"), ("name", "staging")];
    w.run(create_origin_integration(request(&other, Some("[1]"))));
    let r = w.run(fetch_origin_integration_names(request(&PAIR, None)));
    assert_eq!(r.status, Status::Success);
    assert_eq!(r.status.code(), 200);
    assert!(!r.cacheable);
    let names = r.body.expect("names").names;
    assert_eq!(names, vec![String::from("prod"), String::from("staging")]);
    assert!(names.iter().all(|n| !n.contains("token") && !n.contains("sealed")));
}

#[test]
fn listing_other_backend_failure_is_internal_error() {
    let mut w = World::new(true);
    w.backend_error = Some(ErrCode::Timeout);
    let r = w.run(fetch_origin_integration_names(request(&PAIR, None)));
    assert_eq!(r.status, Status::InternalServerError);
}

#[test]
fn create_other_backend_failure_is_internal_error() {
    let mut w = World::new(true);
    w.backend_error = Some(ErrCode::DataStore);
    let r = w.run(create_origin_integration(request(&FULL, Some("{}"))));
    assert_eq!(r.status, Status::InternalServerError);
}

#[test]
fn delete_existing_then_again() {
    let mut w = World::new(true);
    w.run(create_origin_integration(request(&FULL, Some("{}"))));
    let first = w.run(delete_origin_integration(request(&FULL, None)));
    assert_eq!(first.status, Status::NoContent);
    assert!(w.records.is_empty());
    let second = w.run(delete_origin_integration(request(&FULL, None)));
    assert_eq!(second.status, Status::InternalServerError);
    let third = w.run(delete_origin_integration(request(&FULL, None)));
    assert_eq!(third.status, second.status);
}

#[test]
fn unexpected_event_ends_with_internal_error() {
    let (h, a) = fetch_origin_integration_names(request(&PAIR, None));
    assert!(matches!(a, Action::CheckAccess { session_id: 42, .. }));
    let (h, a) = h.step(Event::Done(Ok(NetOk)));
    assert_eq!(h.phase, Phase::Finished);
    match a {
        Action::Respond(r) => assert_eq!(r.status, Status::InternalServerError),
        _ => panic!("expected an answer"),
    }
    let (_, a) = h.step(Event::Access(Ok(true)));
    match a {
        Action::Respond(r) => assert_eq!(r.status, Status::InternalServerError),
        _ => panic!("a finished handler only answers"),
    }
}

#[test]
fn error_codes_map_per_operation() {
    assert_eq!(status_for(Operation::ListNames, ErrCode::EntityNotFound), Status::NotFound);
    assert_eq!(status_for(Operation::ListNames, ErrCode::EntityConflict), Status::InternalServerError);
    assert_eq!(status_for(Operation::Create, ErrCode::EntityConflict), Status::Conflict);
    assert_eq!(status_for(Operation::Create, ErrCode::EntityNotFound), Status::InternalServerError);
    assert_eq!(status_for(Operation::Delete, ErrCode::EntityNotFound), Status::InternalServerError);
    assert_eq!(status_for(Operation::Delete, ErrCode::EntityConflict), Status::InternalServerError);
}

#[test]
fn encrypt_hides_cipher_failure() {
    assert_eq!(encrypt(Ok(String::from("c1"))), Ok(String::from("c1")));
    assert_eq!(encrypt(Err(CipherError)), Err(Status::InternalServerError));
}

#[test]
fn body_check_uses_json_parser() {
    assert!(check_body(&Some(String::from("{\"token\":\"abc\"}"))));
    assert!(check_body(&Some(String::from(" [1, 2, 3] "))));
    assert!(check_body(&Some(String::from("\"text\""))));
    assert!(!check_body(&Some(String::from("{\"token\":"))));
    assert!(!check_body(&Some(String::from("   "))));
    assert!(!check_body(&Some(String::new())));
    assert!(!check_body(&None));
}

#[test]
fn validate_params_extracts_in_order() {
    let r = route(&[("name", "prod"), ("origin", "acme"), ("integration", "docker")]);
    let keys = vec![String::from("origin"), String::from("name")];
    let p = validate_params(&r, &keys).ok().expect("all present");
    assert_eq!(
        p.entries,
        vec![
            (String::from("origin"), String::from("acme")),
            (String::from("name"), String::from("prod"))
        ]
    );
    assert_eq!(p.get(&String::from("name")), Some(String::from("prod")));
    assert_eq!(p.get(&String::from("integration")), None);
    let missing = vec![String::from("origin"), String::from("version")];
    assert_eq!(validate_params(&r, &missing).err(), Some(Status::BadRequest));
    assert_eq!(r.find(&String::from("integration")), Some(String::from("docker")));
}

#[test]
fn status_codes() {
    let all = [
        (Status::Success, 200),
        (Status::NoContent, 204),
        (Status::BadRequest, 400),
        (Status::Forbidden, 403),
        (Status::NotFound, 404),
        (Status::Conflict, 409),
        (Status::InternalServerError, 500),
    ];
    for (s, c) in all {
        assert_eq!(s.code(), c);
    }
}
