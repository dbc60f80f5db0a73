use vstd::prelude::*;

use crate::utils::{now_timestamp, response_handler, Envelope, STATUS_INTERNAL_ERROR, STATUS_OK};

verus! {

/// A vote cast on a question; immutable once made.
#[derive(Debug, Clone)]
pub struct Vote {
    pub id: String,
    pub vote: String,
    pub where_to: Option<String>,
    pub parent_id: String,
    pub child_id: String,
    pub created_at: i64,
}

/// The path of the evaluate endpoint: the free-form vote label.
#[derive(Debug, Clone)]
pub struct PathParams {
    pub vote: String,
}

/// The query of the evaluate endpoint.
#[derive(Debug, Clone)]
pub struct QueryParams {
    pub parent_id: Option<String>,
    pub child_id: Option<String>,
}

/// What the evaluate endpoint echoes back once the vote is stored.
#[derive(Debug, Clone)]
pub struct VoteEcho {
    pub vote: String,
    pub parent_id: String,
    pub child_id: String,
}

/// The collection that every vote targets.
pub const VOTE_TARGET: &'static str = "questions";

/// Relies on `uuid::Uuid::new_v4` and its `to_string`, which writes the
/// hyphenated form of 36 characters: a fresh random identifier.
#[verifier::external_body]
fn random_id() -> (r: String)
    ensures
        r@.len() == 36,
{
    uuid::Uuid::new_v4().to_string()
}

pub open spec fn or_empty(o: Option<String>) -> Seq<char> {
    match o {
        Some(s) => s@,
        None => Seq::<char>::empty(),
    }
}

fn unwrap_or_empty(o: Option<String>) -> (r: String)
    ensures
        r@ == or_empty(o),
{
    match o {
        Some(s) => s,
        None => String::new(),
    }
}

impl Vote {
    /// A vote with a fresh random id, stamped with the current time.
    pub fn new(vote: String, where_to: Option<String>, parent_id: String, child_id: String) -> (r:
        Vote)
        ensures
            r.vote == vote,
            r.where_to == where_to,
            r.parent_id == parent_id,
            r.child_id == child_id,
            r.id@.len() == 36,
            0 <= r.created_at <= 9_000_000_000_000,
    {
        let id = random_id();
        let created_at = now_timestamp();
        Vote { id, vote, where_to, parent_id, child_id, created_at }
    }

    pub fn id(&self) -> (r: String)
        ensures
            r == self.id,
    {
        self.id.clone()
    }
}

/// The vote that a request to the evaluate endpoint casts: its label, the
/// questions collection as target, and the parent and child ids (empty
/// when absent).
pub fn vote(path_params: PathParams, query_params: QueryParams) -> (r: Vote)
    ensures
        r.vote == path_params.vote,
        r.where_to is Some && r.where_to->Some_0@ == VOTE_TARGET@,
        r.id@.len() == 36,
        r.parent_id@ == or_empty(query_params.parent_id),
        r.child_id@ == or_empty(query_params.child_id),
{
    let parent_id = unwrap_or_empty(query_params.parent_id);
    let child_id = unwrap_or_empty(query_params.child_id);
    Vote::new(path_params.vote, Some(VOTE_TARGET.to_string()), parent_id, child_id)
}

/// The response once the store has answered the write of `record`: the
/// echoed fields on success, an internal error carrying the store's message
/// otherwise.
pub fn vote_response(record: &Vote, stored: Result<(), String>) -> (r: Envelope<VoteEcho>)
    ensures
        stored is Ok ==> {
            &&& r.code == STATUS_OK
            &&& r.message@ == "success"@
            &&& r.error is None
            &&& r.data is Some
            &&& r.data->Some_0.vote == record.vote
            &&& r.data->Some_0.parent_id == record.parent_id
            &&& r.data->Some_0.child_id == record.child_id
        },
        stored is Err ==> {
            &&& r.code == STATUS_INTERNAL_ERROR
            &&& r.message@ == "error"@
            &&& r.data is None
            &&& r.error == Some(stored->Err_0)
        },
{
    match stored {
        Ok(()) => {
            let echo = VoteEcho {
                vote: record.vote.clone(),
                parent_id: record.parent_id.clone(),
                child_id: record.child_id.clone(),
            };
            response_handler(STATUS_OK, "success".to_string(), Some(echo), None)
        },
        Err(e) => response_handler(STATUS_INTERNAL_ERROR, "error".to_string(), None, Some(e)),
    }
}

} // verus!
