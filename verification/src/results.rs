//! Shaping matched documents into results that a launcher can act on: each
//! result names one location and says whether to open it as a file or as a URL.

use crate::text::{begins_with, contains, contains_text, starts_with};
use vstd::prelude::*;

verus! {

/// The stored fields of a matched document.
#[derive(Debug, Clone, PartialEq, Eq)]
pub struct Hit {
    pub title: String,
    pub loc: String,
    pub archive_loc: String,
}

/// How to open a result. At most one of the two is set.
#[derive(Debug, Clone, PartialEq, Eq)]
pub struct Action {
    pub file: Option<String>,
    pub url: Option<String>,
}

/// One search result.
#[derive(Debug, Clone, PartialEq, Eq)]
pub struct SearchResult {
    pub title: String,
    /// The location chosen for the result.
    pub arg: String,
    pub action: Action,
}

/// The results of one query, best match first.
#[derive(Debug, Clone, PartialEq, Eq)]
pub struct Results {
    pub items: Vec<SearchResult>,
}

/// The mathematical value of a [`Hit`].
pub struct HitView {
    pub title: Seq<char>,
    pub loc: Seq<char>,
    pub archive_loc: Seq<char>,
}

/// The mathematical value of an [`Action`].
pub struct ActionView {
    pub file: Option<Seq<char>>,
    pub url: Option<Seq<char>>,
}

/// The mathematical value of a [`SearchResult`].
pub struct SearchResultView {
    pub title: Seq<char>,
    pub arg: Seq<char>,
    pub action: ActionView,
}

impl View for Hit {
    type V = HitView;

    open spec fn view(&self) -> HitView {
        HitView { title: self.title@, loc: self.loc@, archive_loc: self.archive_loc@ }
    }
}

impl View for Action {
    type V = ActionView;

    open spec fn view(&self) -> ActionView {
        ActionView {
            file: match self.file {
                Some(s) => Some(s@),
                None => None,
            },
            url: match self.url {
                Some(s) => Some(s@),
                None => None,
            },
        }
    }
}

impl View for SearchResult {
    type V = SearchResultView;

    open spec fn view(&self) -> SearchResultView {
        SearchResultView { title: self.title@, arg: self.arg@, action: self.action@ }
    }
}

impl View for Results {
    type V = Seq<SearchResultView>;

    open spec fn view(&self) -> Seq<SearchResultView> {
        self.items@.map_values(|item: SearchResult| item@)
    }
}

/// The location a result names: the archived one unless it is empty.
pub open spec fn chosen_location(hit: HitView) -> Seq<char> {
    if hit.archive_loc.len() > 0 {
        hit.archive_loc
    } else {
        hit.loc
    }
}

/// A location is a file when it begins with a slash.
pub open spec fn is_file(location: Seq<char>) -> bool {
    starts_with(location, "/"@)
}

/// A location that is no file is a URL when it holds `://`.
pub open spec fn is_url(location: Seq<char>) -> bool {
    !is_file(location) && contains_text(location, "://"@)
}

/// The action for a location.
pub open spec fn action_of(location: Seq<char>) -> ActionView {
    ActionView {
        file: if is_file(location) {
            Some(location)
        } else {
            None
        },
        url: if is_url(location) {
            Some(location)
        } else {
            None
        },
    }
}

/// The result for a matched document.
pub open spec fn shape_of(hit: HitView) -> SearchResultView {
    SearchResultView {
        title: hit.title,
        arg: chosen_location(hit),
        action: action_of(chosen_location(hit)),
    }
}

/// Shapes one matched document into a result.
pub fn shape(hit: &Hit) -> (item: SearchResult)
    ensures
        item@ == shape_of(hit@),
{
    let location = if hit.archive_loc.as_str().is_empty() {
        hit.loc.clone()
    } else {
        hit.archive_loc.clone()
    };
    let as_file = begins_with(location.as_str(), "/");
    let as_url = !as_file && contains(location.as_str(), "://");
    let file = if as_file {
        Some(location.clone())
    } else {
        None
    };
    let url = if as_url {
        Some(location.clone())
    } else {
        None
    };
    SearchResult { title: hit.title.clone(), arg: location, action: Action { file, url } }
}

/// Shapes the matched documents of a query, keeping their order.
pub fn shape_all(hits: &Vec<Hit>) -> (results: Results)
    ensures
        results@ == hits@.map_values(|hit: Hit| shape_of(hit@)),
{
    let mut items: Vec<SearchResult> = Vec::new();
    for i in 0..hits.len()
        invariant
            items@.map_values(|item: SearchResult| item@) == hits@.take(i as int).map_values(
                |hit: Hit| shape_of(hit@),
            ),
    {
        let ghost before = items@.map_values(|item: SearchResult| item@);
        let item = shape(&hits[i]);
        items.push(item);
        assert(items@.map_values(|item: SearchResult| item@) =~= before.push(item@));
        assert(hits@.take(i + 1).map_values(|hit: Hit| shape_of(hit@)) =~= before.push(
            shape_of(hits@[i as int]@),
        ));
    }
    assert(hits@.take(hits.len() as int) =~= hits@);
    Results { items }
}

/// A result is opened as a file or as a URL, never as both, and whichever it
/// is, it is opened at the location the result names.
pub proof fn lemma_at_most_one_action(hit: HitView)
    ensures
        !(shape_of(hit).action.file is Some && shape_of(hit).action.url is Some),
        shape_of(hit).action.file is Some ==> shape_of(hit).action.file == Some(shape_of(hit).arg),
        shape_of(hit).action.url is Some ==> shape_of(hit).action.url == Some(shape_of(hit).arg),
{
}

/// The archived location wins over the live one whenever there is one.
pub proof fn lemma_archive_preferred(hit: HitView)
    ensures
        hit.archive_loc.len() > 0 ==> shape_of(hit).arg == hit.archive_loc,
        hit.archive_loc.len() == 0 ==> shape_of(hit).arg == hit.loc,
{
}

} // verus!
