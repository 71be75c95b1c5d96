//! The search service, one call at a time: a call is read, the index engine
//! is asked, and what it comes back with is answered.
//!
//! Asking the engine is left to the caller. Nothing here fails in a way that
//! would take the service down: a call that cannot be served is answered
//! with an error status, and the next call is served as if nothing had
//! happened.

use crate::engine::{Stored, StoredView};
use crate::request::{
    decoded_of, request_of, search_request, Pairs, RequestError, RequestView, SearchRequest,
    BAD_REQUEST,
};
use crate::results::{shape_all, shape_of, Hit, HitView, Results, SearchResultView};
use vstd::prelude::*;

verus! {

/// The status of an answer that carries results.
pub const OK: u16 = 200;

/// The status of an answer to a call that the engine failed on.
pub const SERVER_ERROR: u16 = 500;

/// How reading a matched document back went.
#[derive(Debug, Clone, PartialEq, Eq)]
pub enum Fetched {
    /// What the document has stored.
    Read(Stored),
    /// The document could not be read; the text says how.
    Failed(String),
}

/// What the index engine came back with.
#[derive(Debug, Clone, PartialEq, Eq)]
pub enum Retrieved {
    /// The stored fields of the matches, best first.
    Hits(Vec<Hit>),
    /// The query is not one that the engine can parse; the text says why.
    Rejected(String),
    /// The search failed; the text says how.
    Failed(String),
}

/// The answer to a call.
#[derive(Debug, Clone, PartialEq, Eq)]
pub enum Reply {
    /// The results, to be sent as JSON.
    Found(Results),
    /// An error, to be sent as plain text.
    Refused { status: u16, message: String },
}

/// What to do about a call.
#[derive(Debug, Clone, PartialEq, Eq)]
pub enum Step {
    /// Ask the engine for the matches of this request.
    Retrieve(SearchRequest),
    /// Answer at once.
    Answer(Reply),
}

/// The mathematical value of a [`Fetched`].
pub enum FetchedView {
    Read(StoredView),
    Failed(Seq<char>),
}

/// The mathematical value of a [`Retrieved`].
pub enum RetrievedView {
    Hits(Seq<HitView>),
    Rejected(Seq<char>),
    Failed(Seq<char>),
}

/// The mathematical value of a [`Reply`].
pub enum ReplyView {
    Found(Seq<SearchResultView>),
    Refused { status: u16, message: Seq<char> },
}

/// The mathematical value of a [`Step`].
pub enum StepView {
    Retrieve(RequestView),
    Answer(ReplyView),
}

impl View for Fetched {
    type V = FetchedView;

    open spec fn view(&self) -> FetchedView {
        match self {
            Fetched::Read(stored) => FetchedView::Read(stored@),
            Fetched::Failed(how) => FetchedView::Failed(how@),
        }
    }
}

impl View for Retrieved {
    type V = RetrievedView;

    open spec fn view(&self) -> RetrievedView {
        match self {
            Retrieved::Hits(hits) => RetrievedView::Hits(hits@.map_values(|hit: Hit| hit@)),
            Retrieved::Rejected(why) => RetrievedView::Rejected(why@),
            Retrieved::Failed(how) => RetrievedView::Failed(how@),
        }
    }
}

impl View for Reply {
    type V = ReplyView;

    open spec fn view(&self) -> ReplyView {
        match self {
            Reply::Found(results) => ReplyView::Found(results@),
            Reply::Refused { status, message } => ReplyView::Refused {
                status: *status,
                message: message@,
            },
        }
    }
}

impl View for Step {
    type V = StepView;

    open spec fn view(&self) -> StepView {
        match self {
            Step::Retrieve(request) => StepView::Retrieve(request@),
            Step::Answer(reply) => StepView::Answer(reply@),
        }
    }
}

/// The views of a list of fetched documents.
pub open spec fn fetched_views(fetched: Seq<Fetched>) -> Seq<FetchedView> {
    fetched.map_values(|f: Fetched| f@)
}

/// The hit that a fetched document stands for, or what is wrong with it: it
/// could not be read, or it lacks the text of one of the three fields.
pub open spec fn hit_of(fetched: FetchedView) -> Result<HitView, Seq<char>> {
    match fetched {
        FetchedView::Failed(how) => Err(how),
        FetchedView::Read(stored) => match (stored.title, stored.loc, stored.archive_loc) {
            (Some(title), Some(loc), Some(archive_loc)) => Ok(HitView { title, loc, archive_loc }),
            (None, _, _) => Err("a matched document has no title"@),
            (_, None, _) => Err("a matched document has no loc"@),
            _ => Err("a matched document has no archive_loc"@),
        },
    }
}

/// What was retrieved, given the matched documents as they were read back,
/// best first: their hits, in order, if every one of them stands for a hit;
/// otherwise a failure, with what is wrong with the first that does not.
pub open spec fn gathered(fetched: Seq<FetchedView>) -> RetrievedView
    decreases fetched.len(),
{
    if fetched.len() == 0 {
        RetrievedView::Hits(Seq::empty())
    } else {
        match gathered(fetched.drop_last()) {
            RetrievedView::Hits(hits) => match hit_of(fetched.last()) {
                Ok(hit) => RetrievedView::Hits(hits.push(hit)),
                Err(what) => RetrievedView::Failed(what),
            },
            failed => failed,
        }
    }
}

/// The answer to a call that is turned away.
pub open spec fn refusal_of(e: RequestError) -> ReplyView {
    ReplyView::Refused { status: e.status_of(), message: e.message_of() }
}

/// What is done about a call: the engine is asked where the call can be
/// read, and the call is turned away where it cannot.
pub open spec fn received(decoded: Option<Pairs>) -> StepView {
    match request_of(decoded) {
        Ok(request) => StepView::Retrieve(request),
        Err(e) => StepView::Answer(refusal_of(e)),
    }
}

/// The answer to what the engine came back with: the matches, shaped and in
/// their order; the caller's fault where the query was rejected; the
/// server's where the search failed.
pub open spec fn response_of(retrieved: RetrievedView) -> ReplyView {
    match retrieved {
        RetrievedView::Hits(hits) => ReplyView::Found(hits.map_values(|hit: HitView| shape_of(hit))),
        RetrievedView::Rejected(why) => ReplyView::Refused { status: BAD_REQUEST, message: why },
        RetrievedView::Failed(how) => ReplyView::Refused { status: SERVER_ERROR, message: how },
    }
}

/// Reads a call from its decoded query string, `None` standing for one that
/// could not be decoded, and decides what to do about it.
pub fn receive(decoded: Option<Vec<(String, String)>>) -> (step: Step)
    ensures
        step@ == received(decoded_of(decoded)),
{
    match search_request(decoded) {
        Ok(request) => Step::Retrieve(request),
        Err(e) => Step::Answer(Reply::Refused { status: e.status(), message: e.message() }),
    }
}

/// Tells the hit that a fetched document stands for.
fn hit(fetched: Fetched) -> (made: Result<Hit, String>)
    ensures
        match made {
            Ok(hit) => hit_of(fetched@) == Ok::<HitView, Seq<char>>(hit@),
            Err(what) => hit_of(fetched@) == Err::<HitView, Seq<char>>(what@),
        },
{
    match fetched {
        Fetched::Failed(how) => Err(how),
        Fetched::Read(stored) => {
            let Stored { title, loc, archive_loc } = stored;
            match title {
                None => Err("a matched document has no title".to_owned()),
                Some(title) => match loc {
                    None => Err("a matched document has no loc".to_owned()),
                    Some(loc) => match archive_loc {
                        None => Err("a matched document has no archive_loc".to_owned()),
                        Some(archive_loc) => Ok(Hit { title, loc, archive_loc }),
                    },
                },
            }
        },
    }
}

/// Gathers the matched documents, as they were read back, into what was
/// retrieved: all of them as hits, or the first thing that is wrong.
pub fn gather(fetched: Vec<Fetched>) -> (retrieved: Retrieved)
    ensures
        retrieved@ == gathered(fetched_views(fetched@)),
{
    broadcast use vstd::std_specs::vec::axiom_spec_into_iter;

    let ghost all = fetched_views(fetched@);
    let mut hits: Vec<Hit> = Vec::new();
    assert(all.take(0).len() == 0);
    assert(hits@.map_values(|h: Hit| h@) =~= Seq::<HitView>::empty());
    for next in it: fetched.into_iter()
        invariant
            it.seq() == fetched@,
            all == fetched_views(fetched@),
            gathered(all.take(it.index())) == RetrievedView::Hits(
                hits@.map_values(|h: Hit| h@),
            ),
    {
        let ghost at = it.index();
        let ghost before = hits@.map_values(|h: Hit| h@);
        assert(all.take(at + 1).drop_last() =~= all.take(at));
        assert(all.take(at + 1).last() == next@);
        match hit(next) {
            Ok(h) => {
                hits.push(h);
                assert(hits@.map_values(|h: Hit| h@) =~= before.push(h@));
            },
            Err(what) => {
                proof {
                    lemma_failure_stands(all, at + 1);
                }
                return Retrieved::Failed(what);
            },
        }
    }
    assert(all.take(all.len() as int) =~= all);
    Retrieved::Hits(hits)
}

/// Once the first documents come to a failure, so do all of them.
proof fn lemma_failure_stands(fetched: Seq<FetchedView>, k: int)
    requires
        0 <= k <= fetched.len(),
        gathered(fetched.take(k)) is Failed,
    ensures
        gathered(fetched) == gathered(fetched.take(k)),
    decreases fetched.len() - k,
{
    if k < fetched.len() {
        assert(fetched.take(k + 1).drop_last() =~= fetched.take(k));
        lemma_failure_stands(fetched, k + 1);
    } else {
        assert(fetched.take(k) =~= fetched);
    }
}

/// Answers what the engine came back with.
pub fn respond(retrieved: Retrieved) -> (reply: Reply)
    ensures
        reply@ == response_of(retrieved@),
{
    match retrieved {
        Retrieved::Hits(hits) => {
            let results = shape_all(&hits);
            assert(hits@.map_values(|hit: Hit| shape_of(hit@)) =~= hits@.map_values(
                |hit: Hit| hit@,
            ).map_values(|hit: HitView| shape_of(hit)));
            Reply::Found(results)
        },
        Retrieved::Rejected(why) => Reply::Refused { status: BAD_REQUEST, message: why },
        Retrieved::Failed(how) => Reply::Refused { status: SERVER_ERROR, message: how },
    }
}

impl Reply {
    /// The status of the answer.
    pub open spec fn status_of(self) -> u16 {
        match self {
            Reply::Found(_) => OK,
            Reply::Refused { status, .. } => status,
        }
    }

    /// The status to send.
    pub fn status(&self) -> (code: u16)
        ensures
            code == self.status_of(),
    {
        match self {
            Reply::Found(_) => OK,
            Reply::Refused { status, .. } => *status,
        }
    }

    /// The content type to send: JSON for results, plain text for an error.
    pub fn content_type(&self) -> (mime: &'static str)
        ensures
            mime@ == if self is Found {
                "application/json"@
            } else {
                "text/plain"@
            },
    {
        match self {
            Reply::Found(_) => "application/json",
            Reply::Refused { .. } => "text/plain",
        }
    }
}

/// A call that names no `q` is answered at once with status 400, whatever
/// else it carries; the engine is not asked.
pub proof fn lemma_missing_query_is_bad_request(pairs: Pairs)
    requires
        crate::request::first_value_of(pairs, "q"@) is None,
    ensures
        received(Some(pairs)) == StepView::Answer(
            ReplyView::Refused {
                status: 400,
                message: "Parameter q is missing from the query"@,
            },
        ),
{
}

/// A call whose query string cannot be decoded is answered at once with
/// status 400.
pub proof fn lemma_undecodable_is_bad_request()
    ensures
        received(None) == StepView::Answer(
            ReplyView::Refused { status: 400, message: "Failed to decode error"@ },
        ),
{
}

/// A call that names `q` is put to the engine, with its first `q` as the
/// query and at least one result asked for.
pub proof fn lemma_query_is_put_to_the_engine(pairs: Pairs)
    requires
        crate::request::first_value_of(pairs, "q"@) is Some,
    ensures
        received(Some(pairs)) matches StepView::Retrieve(request) && request.query
            == crate::request::first_value_of(pairs, "q"@)->0 && request.num_hits >= 1,
{
}

/// Matches are answered with status 200 and one result for each, in order.
pub proof fn lemma_hits_are_answered_in_order(hits: Seq<HitView>)
    ensures
        response_of(RetrievedView::Hits(hits)) matches ReplyView::Found(items) && items.len()
            == hits.len() && forall|i: int|
            0 <= i < hits.len() ==> #[trigger] items[i] == shape_of(hits[i]),
{
}

} // verus!
