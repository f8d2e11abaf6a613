//! Properties that hold of every request and every run of a handler.
use vstd::prelude::*;

use crate::gateway::{
    begin_spec, body_accepted, finish, next_spec, required, ActionView, EventView, HandlerView,
    Operation, Phase, RequestView, plain,
};
use crate::message::{BackendRequestView, ErrCode};
use crate::params::lookup;
use crate::status::Status;

verus! {

/// A finished handler asks for nothing but an answer, whatever event it gets.
pub proof fn lemma_finished_only_responds(h: HandlerView, e: EventView)
    requires
        h.phase == Phase::Finished,
    ensures
        next_spec(h, e).1 is Respond,
        next_spec(h, e).0.phase == Phase::Finished,
{
}

/// A request that lacks any parameter its operation needs is answered with
/// `BadRequest` at once: no access check, cipher call or backend request is
/// asked for.
pub proof fn lemma_missing_param_is_bad_request(op: Operation, req: RequestView)
    requires
        exists|i: int| 0 <= i < required(op).len() && lookup(req.route, required(op)[i]) is None,
    ensures
        begin_spec(op, req).1 == ActionView::Respond(plain(Status::BadRequest)),
        begin_spec(op, req).0.phase == Phase::Finished,
{
}

/// Once the access check says no, the answer is `Forbidden` and the handler is
/// finished: it never sends a backend request afterwards.
pub proof fn lemma_denied_is_forbidden(h: HandlerView, later: EventView)
    requires
        h.phase == Phase::AwaitAccess,
    ensures
        next_spec(h, EventView::Access(Ok(false))) == finish(h, Status::Forbidden),
        next_spec(next_spec(h, EventView::Access(Ok(false))).0, later).1 is Respond,
{
}

/// When the access check itself fails, the answer is an internal error and
/// the handler is finished: it never sends a backend request afterwards.
pub proof fn lemma_access_failure_is_internal(h: HandlerView, later: EventView)
    requires
        h.phase == Phase::AwaitAccess,
    ensures
        next_spec(h, EventView::Access(Err(()))) == finish(h, Status::InternalServerError),
        next_spec(next_spec(h, EventView::Access(Err(()))).0, later).1 is Respond,
{
}

/// Create with an accepted body: the cipher is asked to encrypt the raw body
/// text exactly as it came, and the backend is sent the cipher's output as the
/// record's body, under the key from the path.
pub proof fn lemma_create_sends_ciphertext_of_raw_body(req: RequestView, ciphertext: Seq<char>)
    requires
        begin_spec(Operation::Create, req).1 is CheckAccess,
        body_accepted(req.body),
    ensures
        ({
            let h1 = begin_spec(Operation::Create, req).0;
            let s2 = next_spec(h1, EventView::Access(Ok(true)));
            let s3 = next_spec(s2.0, EventView::Encrypted(Ok(ciphertext)));
            &&& s2.1 == ActionView::Encrypt { content: req.body->0 }
            &&& s3.1 == ActionView::Send(
                BackendRequestView::Create {
                    origin: h1.origin,
                    integration: h1.integration,
                    name: h1.name,
                    body: ciphertext,
                },
            )
        }),
{
}

/// Create with an empty, missing or malformed body: whatever the access check
/// answers, the handler answers and finishes without asking the cipher or the
/// backend, and asks for nothing but an answer afterwards.
pub proof fn lemma_bad_body_reaches_nothing(
    req: RequestView,
    access: EventView,
    later: EventView,
)
    requires
        !body_accepted(req.body),
    ensures
        ({
            let s1 = begin_spec(Operation::Create, req);
            let s2 = next_spec(s1.0, access);
            &&& s1.1 is CheckAccess || s1.1 is Respond
            &&& s2.1 is Respond
            &&& next_spec(s2.0, later).1 is Respond
        }),
{
}

/// Delete answers by the backend's reply alone: two delete handlers waiting
/// on the backend answer the same reply alike. Success is `NoContent`; a key
/// that is already gone is reported by the backend as not found, which is
/// answered as an internal error, as every other backend failure is.
pub proof fn lemma_delete_answers_by_reply(h1: HandlerView, h2: HandlerView, reply: EventView)
    requires
        h1.op == Operation::Delete,
        h2.op == Operation::Delete,
        h1.phase == Phase::AwaitBackend,
        h2.phase == Phase::AwaitBackend,
        reply is Done,
    ensures
        next_spec(h1, reply).1 == next_spec(h2, reply).1,
        next_spec(h1, EventView::Done(Ok(()))).1 == ActionView::Respond(plain(Status::NoContent)),
        next_spec(h1, EventView::Done(Err(ErrCode::EntityNotFound))).1 == ActionView::Respond(
            plain(Status::InternalServerError),
        ),
        next_spec(h1, reply).0.phase == Phase::Finished,
{
}

/// The listing path never carries a record body: a listing handler never asks
/// for an encryption, sends the backend only the origin and integration, and
/// answers with names only when the backend returned them, exactly those.
pub proof fn lemma_listing_shows_names_only(h: HandlerView, e: EventView)
    requires
        h.op == Operation::ListNames,
    ensures
        !(next_spec(h, e).1 is Encrypt),
        (next_spec(h, e).1 matches ActionView::Send(m) ==> m == (BackendRequestView::GetNames {
            origin: h.origin,
            integration: h.integration,
        })),
        (next_spec(h, e).1 matches ActionView::Respond(r) ==> (r.names matches Some(n) ==> e
            == EventView::Names(Ok(n)))),
{
}

} // verus!
