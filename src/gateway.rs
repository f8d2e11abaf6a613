use vstd::prelude::*;

use crate::json::{is_json, parses_as_json};
use crate::message::{
    BackendRequest, BackendRequestView, ErrCode, NetError, NetOk, OriginIntegration,
    OriginIntegrationCreate, OriginIntegrationDelete, OriginIntegrationGetNames,
    OriginIntegrationNames,
};
use crate::params::{
    has_all, lemma_extracted_lookup, lookup, validate_params, Entries, RouteParams,
};
use crate::status::Status;

verus! {

/// The three operations on origin integrations.
#[derive(Clone, Copy, Debug, PartialEq, Eq, Structural)]
pub enum Operation {
    ListNames,
    Create,
    Delete,
}

/// Where a handler stands: which outcome it waits for, or that it has answered.
#[derive(Clone, Copy, Debug, PartialEq, Eq, Structural)]
pub enum Phase {
    AwaitAccess,
    AwaitCipher,
    AwaitBackend,
    Finished,
}

/// The origin access check could not be carried out.
#[derive(Clone, Copy, Debug, PartialEq, Eq, Structural)]
pub struct AccessError;

/// The payload could not be encrypted.
#[derive(Clone, Copy, Debug, PartialEq, Eq, Structural)]
pub struct CipherError;

/// What the HTTP layer knows of a request: its path parameters, the caller's
/// session, and the raw body text (`None` when the request has no body).
pub struct Request {
    pub route: RouteParams,
    pub session_id: u64,
    pub body: Option<String>,
}

/// `Request` as values.
pub struct RequestView {
    pub route: Entries,
    pub session_id: u64,
    pub body: Option<Seq<char>>,
}

pub open spec fn opt_view(o: Option<String>) -> Option<Seq<char>> {
    match o {
        Some(s) => Some(s@),
        None => None,
    }
}

impl View for Request {
    type V = RequestView;

    open spec fn view(&self) -> RequestView {
        RequestView { route: self.route@, session_id: self.session_id, body: opt_view(self.body) }
    }
}

/// The answer to the caller. Only a successful listing has a body: the names.
pub struct Response {
    pub status: Status,
    pub body: Option<OriginIntegrationNames>,
    pub cacheable: bool,
}

/// `Response` as values.
pub struct ResponseView {
    pub status: Status,
    pub names: Option<Seq<Seq<char>>>,
    pub cacheable: bool,
}

impl View for Response {
    type V = ResponseView;

    open spec fn view(&self) -> ResponseView {
        ResponseView {
            status: self.status,
            names: match self.body {
                Some(n) => Some(n@),
                None => None,
            },
            cacheable: self.cacheable,
        }
    }
}

/// A response with a status and nothing else.
pub open spec fn plain(s: Status) -> ResponseView {
    ResponseView { status: s, names: None, cacheable: true }
}

impl Response {
    pub fn with(status: Status) -> (r: Response)
        ensures
            r@ == plain(status),
    {
        Response { status, body: None, cacheable: true }
    }
}

/// What a handler asks its caller to do next.
pub enum Action {
    /// Check whether the session may act on the origin; answer with `Event::Access`.
    CheckAccess { session_id: u64, origin: String },
    /// Encrypt the content; answer with `Event::Encrypted`.
    Encrypt { content: String },
    /// Send the request to the backend; answer with `Event::Names` for a
    /// listing, `Event::Done` otherwise.
    Send(BackendRequest),
    /// Answer the caller; the handler is finished.
    Respond(Response),
}

/// `Action` as values.
pub enum ActionView {
    CheckAccess { session_id: u64, origin: Seq<char> },
    Encrypt { content: Seq<char> },
    Send(BackendRequestView),
    Respond(ResponseView),
}

impl View for Action {
    type V = ActionView;

    open spec fn view(&self) -> ActionView {
        match self {
            Action::CheckAccess { session_id, origin } => ActionView::CheckAccess {
                session_id: *session_id,
                origin: origin@,
            },
            Action::Encrypt { content } => ActionView::Encrypt { content: content@ },
            Action::Send(m) => ActionView::Send(m@),
            Action::Respond(r) => ActionView::Respond(r@),
        }
    }
}

/// The outcome of an action, handed back to the handler.
pub enum Event {
    /// The access check's answer.
    Access(Result<bool, AccessError>),
    /// The cipher's output.
    Encrypted(Result<String, CipherError>),
    /// The backend's reply to a request for names.
    Names(Result<OriginIntegrationNames, NetError>),
    /// The backend's reply to a create or delete request.
    Done(Result<NetOk, NetError>),
}

/// `Event` as values.
pub enum EventView {
    Access(Result<bool, ()>),
    Encrypted(Result<Seq<char>, ()>),
    Names(Result<Seq<Seq<char>>, ErrCode>),
    Done(Result<(), ErrCode>),
}

impl View for Event {
    type V = EventView;

    open spec fn view(&self) -> EventView {
        match self {
            Event::Access(Ok(b)) => EventView::Access(Ok(*b)),
            Event::Access(Err(_)) => EventView::Access(Err(())),
            Event::Encrypted(Ok(c)) => EventView::Encrypted(Ok(c@)),
            Event::Encrypted(Err(_)) => EventView::Encrypted(Err(())),
            Event::Names(Ok(n)) => EventView::Names(Ok(n@)),
            Event::Names(Err(e)) => EventView::Names(Err(e.code)),
            Event::Done(Ok(_)) => EventView::Done(Ok(())),
            Event::Done(Err(e)) => EventView::Done(Err(e.code)),
        }
    }
}

/// One operation in progress on one request.
pub struct Handler {
    pub op: Operation,
    pub origin: String,
    pub integration: String,
    pub name: String,
    pub body: Option<String>,
    pub phase: Phase,
}

/// `Handler` as values.
pub struct HandlerView {
    pub op: Operation,
    pub origin: Seq<char>,
    pub integration: Seq<char>,
    pub name: Seq<char>,
    pub body: Option<Seq<char>>,
    pub phase: Phase,
}

impl View for Handler {
    type V = HandlerView;

    open spec fn view(&self) -> HandlerView {
        HandlerView {
            op: self.op,
            origin: self.origin@,
            integration: self.integration@,
            name: self.name@,
            body: opt_view(self.body),
            phase: self.phase,
        }
    }
}

pub open spec fn origin_key() -> Seq<char> {
    "origin"@
}

pub open spec fn integration_key() -> Seq<char> {
    "integration"@
}

pub open spec fn name_key() -> Seq<char> {
    "name"@
}

/// The path parameters that an operation needs.
pub open spec fn required(op: Operation) -> Seq<Seq<char>> {
    match op {
        Operation::ListNames => seq![origin_key(), integration_key()],
        _ => seq![origin_key(), integration_key(), name_key()],
    }
}

/// A create body is accepted when it is non-empty, well-formed JSON.
pub open spec fn body_accepted(body: Option<Seq<char>>) -> bool {
    body matches Some(b) && b.len() > 0 && parses_as_json(b)
}

/// How a failed backend round trip is answered, for each operation.
pub open spec fn error_status(op: Operation, code: ErrCode) -> Status {
    match op {
        Operation::ListNames => if code == ErrCode::EntityNotFound {
            Status::NotFound
        } else {
            Status::InternalServerError
        },
        Operation::Create => if code == ErrCode::EntityConflict {
            Status::Conflict
        } else {
            Status::InternalServerError
        },
        Operation::Delete => Status::InternalServerError,
    }
}

pub open spec fn with_phase(h: HandlerView, p: Phase) -> HandlerView {
    HandlerView {
        op: h.op,
        origin: h.origin,
        integration: h.integration,
        name: h.name,
        body: h.body,
        phase: p,
    }
}

/// The handler stops and answers with `s`.
pub open spec fn finish(h: HandlerView, s: Status) -> (HandlerView, ActionView) {
    (with_phase(h, Phase::Finished), ActionView::Respond(plain(s)))
}

/// The first step of an operation on a request.
pub open spec fn begin_spec(op: Operation, req: RequestView) -> (HandlerView, ActionView) {
    if has_all(req.route, required(op)) {
        let origin = lookup(req.route, origin_key())->0;
        (
            HandlerView {
                op,
                origin,
                integration: lookup(req.route, integration_key())->0,
                name: if op == Operation::ListNames {
                    Seq::empty()
                } else {
                    lookup(req.route, name_key())->0
                },
                body: req.body,
                phase: Phase::AwaitAccess,
            },
            ActionView::CheckAccess { session_id: req.session_id, origin },
        )
    } else {
        (
            HandlerView {
                op,
                origin: Seq::empty(),
                integration: Seq::empty(),
                name: Seq::empty(),
                body: req.body,
                phase: Phase::Finished,
            },
            ActionView::Respond(plain(Status::BadRequest)),
        )
    }
}

/// The step after access was granted.
pub open spec fn granted_spec(h: HandlerView) -> (HandlerView, ActionView) {
    match h.op {
        Operation::ListNames => (
            with_phase(h, Phase::AwaitBackend),
            ActionView::Send(
                BackendRequestView::GetNames { origin: h.origin, integration: h.integration },
            ),
        ),
        Operation::Delete => (
            with_phase(h, Phase::AwaitBackend),
            ActionView::Send(
                BackendRequestView::Delete {
                    origin: h.origin,
                    integration: h.integration,
                    name: h.name,
                    body: Seq::empty(),
                },
            ),
        ),
        Operation::Create => if body_accepted(h.body) {
            (with_phase(h, Phase::AwaitCipher), ActionView::Encrypt { content: h.body->0 })
        } else {
            finish(h, Status::BadRequest)
        },
    }
}

/// The step that a handler takes on an event. An event that the handler does
/// not wait for ends it with an internal error.
pub open spec fn next_spec(h: HandlerView, e: EventView) -> (HandlerView, ActionView) {
    match (h.phase, e) {
        (Phase::AwaitAccess, EventView::Access(Err(_))) => finish(h, Status::InternalServerError),
        (Phase::AwaitAccess, EventView::Access(Ok(allowed))) => if allowed {
            granted_spec(h)
        } else {
            finish(h, Status::Forbidden)
        },
        (Phase::AwaitCipher, EventView::Encrypted(r)) => if h.op == Operation::Create {
            match r {
                Ok(c) => (
                    with_phase(h, Phase::AwaitBackend),
                    ActionView::Send(
                        BackendRequestView::Create {
                            origin: h.origin,
                            integration: h.integration,
                            name: h.name,
                            body: c,
                        },
                    ),
                ),
                Err(_) => finish(h, Status::InternalServerError),
            }
        } else {
            finish(h, Status::InternalServerError)
        },
        (Phase::AwaitBackend, EventView::Names(r)) => if h.op == Operation::ListNames {
            match r {
                Ok(n) => (
                    with_phase(h, Phase::Finished),
                    ActionView::Respond(
                        ResponseView { status: Status::Success, names: Some(n), cacheable: false },
                    ),
                ),
                Err(code) => finish(h, error_status(h.op, code)),
            }
        } else {
            finish(h, Status::InternalServerError)
        },
        (Phase::AwaitBackend, EventView::Done(r)) => if h.op != Operation::ListNames {
            match r {
                Ok(_) => finish(h, Status::NoContent),
                Err(code) => finish(h, error_status(h.op, code)),
            }
        } else {
            finish(h, Status::InternalServerError)
        },
        _ => finish(h, Status::InternalServerError),
    }
}

/// Maps a failed backend round trip to the caller-facing outcome.
pub fn status_for(op: Operation, code: ErrCode) -> (s: Status)
    ensures
        s == error_status(op, code),
{
    match op {
        Operation::ListNames => match code {
            ErrCode::EntityNotFound => Status::NotFound,
            _ => Status::InternalServerError,
        },
        Operation::Create => match code {
            ErrCode::EntityConflict => Status::Conflict,
            _ => Status::InternalServerError,
        },
        Operation::Delete => Status::InternalServerError,
    }
}

/// Takes the cipher's outcome: the ciphertext, or an internal error that
/// hides the cipher's own failure.
pub fn encrypt(outcome: Result<String, CipherError>) -> (r: Result<String, Status>)
    ensures
        outcome matches Ok(c) ==> r == Ok::<String, Status>(c),
        outcome is Err ==> r == Err::<String, Status>(Status::InternalServerError),
{
    match outcome {
        Ok(c) => Ok(c),
        Err(_) => Err(Status::InternalServerError),
    }
}

fn required_params(op: Operation) -> (r: Vec<String>)
    ensures
        r@.map_values(|k: String| k@) == required(op),
{
    let mut keys: Vec<String> = Vec::new();
    keys.push("origin".to_owned());
    keys.push("integration".to_owned());
    match op {
        Operation::ListNames => {},
        _ => {
            keys.push("name".to_owned());
        },
    }
    assert(keys@.map_values(|k: String| k@) =~= required(op));
    keys
}

/// Whether a create body is non-empty, well-formed JSON.
pub fn check_body(body: &Option<String>) -> (r: bool)
    ensures
        r == body_accepted(opt_view(*body)),
{
    match body {
        Some(b) => !b.as_str().is_empty() && is_json(b.as_str()),
        None => false,
    }
}

fn begin(op: Operation, req: Request) -> (r: (Handler, Action))
    ensures
        r.0@ == begin_spec(op, req@).0,
        r.1@ == begin_spec(op, req@).1,
{
    let expected = required_params(op);
    let ghost keys = required(op);
    match validate_params(&req.route, &expected) {
        Err(st) => {
            let h = Handler {
                op,
                origin: String::new(),
                integration: String::new(),
                name: String::new(),
                body: req.body,
                phase: Phase::Finished,
            };
            (h, Action::Respond(Response::with(st)))
        },
        Ok(params) => {
            proof {
                assert(keys[0] == origin_key());
                assert(keys[1] == integration_key());
                lemma_extracted_lookup(req.route@, keys, origin_key());
                lemma_extracted_lookup(req.route@, keys, integration_key());
                if op != Operation::ListNames {
                    assert(keys[2] == name_key());
                    lemma_extracted_lookup(req.route@, keys, name_key());
                }
            }
            let origin = params.get(&"origin".to_owned()).unwrap();
            let integration = params.get(&"integration".to_owned()).unwrap();
            let name = match op {
                Operation::ListNames => String::new(),
                _ => params.get(&"name".to_owned()).unwrap(),
            };
            let action = Action::CheckAccess { session_id: req.session_id, origin: origin.clone() };
            let h = Handler { op, origin, integration, name, body: req.body, phase: Phase::AwaitAccess };
            (h, action)
        },
    }
}

/// Starts listing the integration names of an origin and integration type.
/// Needs the path parameters `origin` and `integration`.
pub fn fetch_origin_integration_names(req: Request) -> (r: (Handler, Action))
    ensures
        r.0@ == begin_spec(Operation::ListNames, req@).0,
        r.1@ == begin_spec(Operation::ListNames, req@).1,
{
    begin(Operation::ListNames, req)
}

/// Starts creating an integration from the request body. Needs the path
/// parameters `origin`, `integration` and `name`.
pub fn create_origin_integration(req: Request) -> (r: (Handler, Action))
    ensures
        r.0@ == begin_spec(Operation::Create, req@).0,
        r.1@ == begin_spec(Operation::Create, req@).1,
{
    begin(Operation::Create, req)
}

/// Starts deleting an integration. Needs the path parameters `origin`,
/// `integration` and `name`.
pub fn delete_origin_integration(req: Request) -> (r: (Handler, Action))
    ensures
        r.0@ == begin_spec(Operation::Delete, req@).0,
        r.1@ == begin_spec(Operation::Delete, req@).1,
{
    begin(Operation::Delete, req)
}

impl Handler {
    fn finish_with(self, s: Status) -> (r: (Handler, Action))
        ensures
            r.0@ == finish(self@, s).0,
            r.1@ == finish(self@, s).1,
    {
        let h = Handler { phase: Phase::Finished, ..self };
        (h, Action::Respond(Response::with(s)))
    }

    fn granted(self) -> (r: (Handler, Action))
        requires
            self.phase == Phase::AwaitAccess,
        ensures
            r.0@ == granted_spec(self@).0,
            r.1@ == granted_spec(self@).1,
    {
        match self.op {
            Operation::ListNames => {
                let m = OriginIntegrationGetNames {
                    origin: self.origin.clone(),
                    integration: self.integration.clone(),
                };
                (Handler { phase: Phase::AwaitBackend, ..self }, Action::Send(BackendRequest::GetNames(m)))
            },
            Operation::Delete => {
                let oi = OriginIntegration {
                    origin: self.origin.clone(),
                    integration: self.integration.clone(),
                    name: self.name.clone(),
                    body: String::new(),
                };
                let m = OriginIntegrationDelete { integration: oi };
                (Handler { phase: Phase::AwaitBackend, ..self }, Action::Send(BackendRequest::Delete(m)))
            },
            Operation::Create => {
                if check_body(&self.body) {
                    let content = self.body.as_ref().unwrap().clone();
                    (Handler { phase: Phase::AwaitCipher, ..self }, Action::Encrypt { content })
                } else {
                    self.finish_with(Status::BadRequest)
                }
            },
        }
    }

    /// Takes the outcome of the action last asked for and returns the
    /// handler's next state and action.
    pub fn step(self, ev: Event) -> (r: (Handler, Action))
        ensures
            r.0@ == next_spec(self@, ev@).0,
            r.1@ == next_spec(self@, ev@).1,
    {
        match (self.phase, ev) {
            (Phase::AwaitAccess, Event::Access(Err(_))) => self.finish_with(Status::InternalServerError),
            (Phase::AwaitAccess, Event::Access(Ok(allowed))) => {
                if allowed {
                    self.granted()
                } else {
                    self.finish_with(Status::Forbidden)
                }
            },
            (Phase::AwaitCipher, Event::Encrypted(outcome)) => {
                match self.op {
                    Operation::Create => match encrypt(outcome) {
                        Ok(ciphertext) => {
                            let oi = OriginIntegration {
                                origin: self.origin.clone(),
                                integration: self.integration.clone(),
                                name: self.name.clone(),
                                body: ciphertext,
                            };
                            let m = OriginIntegrationCreate { integration: oi };
                            (
                                Handler { phase: Phase::AwaitBackend, ..self },
                                Action::Send(BackendRequest::Create(m)),
                            )
                        },
                        Err(st) => self.finish_with(st),
                    },
                    _ => self.finish_with(Status::InternalServerError),
                }
            },
            (Phase::AwaitBackend, Event::Names(reply)) => {
                match self.op {
                    Operation::ListNames => match reply {
                        Ok(names) => {
                            let resp = Response {
                                status: Status::Success,
                                body: Some(names),
                                cacheable: false,
                            };
                            (Handler { phase: Phase::Finished, ..self }, Action::Respond(resp))
                        },
                        Err(e) => {
                            let st = status_for(self.op, e.code);
                            self.finish_with(st)
                        },
                    },
                    _ => self.finish_with(Status::InternalServerError),
                }
            },
            (Phase::AwaitBackend, Event::Done(reply)) => {
                match self.op {
                    Operation::ListNames => self.finish_with(Status::InternalServerError),
                    _ => match reply {
                        Ok(_) => self.finish_with(Status::NoContent),
                        Err(e) => {
                            let st = status_for(self.op, e.code);
                            self.finish_with(st)
                        },
                    },
                }
            },
            _ => self.finish_with(Status::InternalServerError),
        }
    }
}

} // verus!
