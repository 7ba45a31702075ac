//! The shared application state and the one request handler.

use vstd::prelude::*;

use crate::error::Error;
use crate::reply::{Reply, ReplyView, CONTENT_TYPE_HTML, STATUS_OK};

verus! {

/// The body of the page served at the root path.
pub const ROOT_PAGE_BODY: &'static str = "<h1>ok</h1>";

/// The state every request handler reads: the database session, set up once
/// before the server starts and never changed afterwards. Each request gets
/// its own clone, so the session type must be cheap to clone and safe to
/// share between threads.
#[derive(Clone, Debug)]
pub struct AppState<C> {
    db: C,
}

impl<C> AppState<C> {
    /// The session held by this state.
    pub closed spec fn session(&self) -> C {
        self.db
    }

    /// Wraps a ready database session.
    pub fn new(db: C) -> (r: AppState<C>)
        ensures
            r.session() == db,
    {
        AppState { db }
    }

    /// The database session, for handlers that query it.
    pub fn db(&self) -> (r: &C)
        ensures
            *r == self.session(),
    {
        &self.db
    }
}

/// The page served at the root path.
pub open spec fn root_page() -> ReplyView {
    ReplyView { status: STATUS_OK, content_type: CONTENT_TYPE_HTML@, body: ROOT_PAGE_BODY@ }
}

/// What the root handler returns on a given state: the outcome is the fixed
/// page, whatever session the state holds.
pub open spec fn root_outcome<C>(state: AppState<C>) -> Result<ReplyView, ()> {
    Ok(root_page())
}

/// The view of a handler's result, with the error's cause left out.
pub open spec fn outcome_view(r: Result<Reply, Error>) -> Result<ReplyView, ()> {
    match r {
        Ok(reply) => Ok(reply@),
        Err(_) => Err(()),
    }
}

/// Handles `GET /`: answers with the fixed HTML page. The handler may fail
/// with an `Error` in general, though this one never does.
pub fn root<C>(state: &AppState<C>) -> (r: Result<Reply, Error>)
    ensures
        outcome_view(r) == root_outcome(*state),
        r is Ok,
{
    Ok(Reply::new(STATUS_OK, CONTENT_TYPE_HTML, ROOT_PAGE_BODY))
}

/// Requests served concurrently, each on its own clone of the state, all
/// receive the same successful page: the handler reads nothing that one
/// request could change for another.
pub proof fn lemma_concurrent_requests_agree<C>(states: Seq<AppState<C>>)
    ensures
        forall|i: int, j: int|
            0 <= i < states.len() && 0 <= j < states.len() ==> #[trigger] root_outcome(states[i])
                == #[trigger] root_outcome(states[j]),
        forall|i: int| 0 <= i < states.len() ==> #[trigger] root_outcome(states[i]) == Ok::<ReplyView, ()>(root_page()),
{
}

/// Repeated requests against one state get byte-identical replies: each
/// reply that the handler gave on that state is the fixed page, so any two of
/// them are equal, however many came before.
pub proof fn lemma_repeated_requests_identical<C>(state: AppState<C>, replies: Seq<ReplyView>)
    requires
        forall|k: int| 0 <= k < replies.len() ==> Ok::<ReplyView, ()>(#[trigger] replies[k]) == root_outcome(state),
    ensures
        forall|i: int, j: int|
            0 <= i < replies.len() && 0 <= j < replies.len() ==> #[trigger] replies[i] == #[trigger] replies[j],
        forall|i: int| 0 <= i < replies.len() ==> #[trigger] replies[i] == root_page(),
{
}

} // verus!
