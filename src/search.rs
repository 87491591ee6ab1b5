use vstd::prelude::*;

use crate::game::{Game, GameModel};

verus! {

/// What the search view knows of the results for its current term.
#[derive(Debug, Clone)]
pub enum Outcome {
    /// A request is on its way.
    Loading,
    /// The request failed: no data.
    Failed,
    Loaded(Vec<Game>),
}

pub ghost enum OutcomeModel {
    Loading,
    Failed,
    Loaded(Seq<GameModel>),
}

impl View for Outcome {
    type V = OutcomeModel;

    open spec fn view(&self) -> OutcomeModel {
        match self {
            Outcome::Loading => OutcomeModel::Loading,
            Outcome::Failed => OutcomeModel::Failed,
            Outcome::Loaded(v) => OutcomeModel::Loaded(v@.map_values(|g: Game| g@)),
        }
    }
}

/// The state of the search view: the term typed last, the number of the
/// request issued for it, and what came back for that request.
#[derive(Debug, Clone)]
pub struct Search {
    term: String,
    latest: u64,
    outcome: Outcome,
}

pub ghost struct SearchModel {
    pub term: Seq<char>,
    pub latest: u64,
    pub outcome: OutcomeModel,
}

impl View for Search {
    type V = SearchModel;

    closed spec fn view(&self) -> SearchModel {
        SearchModel { term: self.term@, latest: self.latest, outcome: self.outcome@ }
    }
}

/// The outcome that a response carries: `None` is a failed request.
pub open spec fn outcome_of(result: Option<Seq<GameModel>>) -> OutcomeModel {
    match result {
        Some(games) => OutcomeModel::Loaded(games),
        None => OutcomeModel::Failed,
    }
}

/// The state after a new term is typed: a new request supersedes the last.
pub open spec fn began(s: SearchModel, term: Seq<char>) -> SearchModel {
    SearchModel { term, latest: (s.latest + 1) as u64, outcome: OutcomeModel::Loading }
}

/// The state after the response to request `id` arrives: only the latest
/// request's response is taken.
pub open spec fn received(s: SearchModel, id: u64, result: Option<Seq<GameModel>>) -> SearchModel {
    if id == s.latest {
        SearchModel { outcome: outcome_of(result), ..s }
    } else {
        s
    }
}

pub open spec fn games_view(result: Option<Vec<Game>>) -> Option<Seq<GameModel>> {
    match result {
        Some(v) => Some(v@.map_values(|g: Game| g@)),
        None => None,
    }
}

/// The heading above the results.
pub open spec fn heading_of(s: SearchModel) -> Seq<char> {
    if s.term.len() == 0 {
        "Popular Games"@
    } else {
        match s.outcome {
            OutcomeModel::Loaded(games) => if games.len() > 0 {
                "Results for: "@ + s.term + "."@
            } else {
                "No results found for "@ + s.term + "."@
            },
            _ => "Something went wrong."@,
        }
    }
}

impl Search {
    /// A search with no term and its first request on its way.
    pub fn new() -> (r: Search)
        ensures
            r@.term == Seq::<char>::empty(),
            r@.latest == 0,
            r@.outcome == OutcomeModel::Loading,
    {
        Search { term: String::new(), latest: 0, outcome: Outcome::Loading }
    }

    /// The term typed last.
    pub fn term(&self) -> (r: &String)
        ensures
            r@ == self@.term,
    {
        &self.term
    }

    /// The number of the request whose response is awaited.
    pub fn latest(&self) -> (r: u64)
        ensures
            r == self@.latest,
    {
        self.latest
    }

    /// What is known of the results for the term typed last.
    pub fn outcome(&self) -> (r: &Outcome)
        ensures
            r@ == self@.outcome,
    {
        &self.outcome
    }

    /// Takes a newly typed term and returns the number of the request to
    /// issue for it; the response to any earlier request will be dropped.
    pub fn begin(&mut self, term: String) -> (id: u64)
        requires
            old(self)@.latest < u64::MAX,
        ensures
            final(self)@ == began(old(self)@, term@),
            id == final(self)@.latest,
    {
        self.term = term;
        self.latest = self.latest + 1;
        self.outcome = Outcome::Loading;
        self.latest
    }

    /// Takes the response to request `id` (`None` where it failed), and tells
    /// whether it was the awaited one and so was kept.
    pub fn receive(&mut self, id: u64, result: Option<Vec<Game>>) -> (kept: bool)
        ensures
            kept == (id == old(self)@.latest),
            final(self)@ == received(old(self)@, id, games_view(result)),
    {
        if id == self.latest {
            self.outcome = match result {
                Some(games) => Outcome::Loaded(games),
                None => Outcome::Failed,
            };
            true
        } else {
            false
        }
    }

    /// The heading above the results: the popular list for an empty term,
    /// else what was found for the term, or that the search went wrong.
    pub fn heading(&self) -> (r: String)
        ensures
            r@ == heading_of(self@),
    {
        if self.term.as_str().is_empty() {
            return "Popular Games".to_owned();
        }
        match &self.outcome {
            Outcome::Loaded(games) => {
                let mut r = String::new();
                if games.len() > 0 {
                    r.append("Results for: ");
                } else {
                    r.append("No results found for ");
                }
                r.append(self.term.as_str());
                r.append(".");
                r
            },
            _ => "Something went wrong.".to_owned(),
        }
    }
}

/// A response to a superseded request changes nothing.
pub proof fn stale_response_is_dropped(s: SearchModel, id: u64, result: Option<Seq<GameModel>>)
    requires
        id != s.latest,
    ensures
        received(s, id, result) == s,
{
}

/// Typing one term and then another before the first answer comes: the first
/// answer, whenever it comes, is never shown, and the second one is.
pub proof fn later_term_wins(
    s: SearchModel,
    first: Seq<char>,
    second: Seq<char>,
    first_result: Option<Seq<GameModel>>,
    second_result: Option<Seq<GameModel>>,
)
    requires
        s.latest < u64::MAX - 1,
    ensures
        ({
            let a = began(s, first);
            let b = began(a, second);
            &&& received(b, a.latest, first_result) == b
            &&& received(received(b, b.latest, second_result), a.latest, first_result) == received(
                b,
                b.latest,
                second_result,
            )
            &&& received(received(b, a.latest, first_result), b.latest, second_result).outcome
                == outcome_of(second_result)
            &&& received(received(b, a.latest, first_result), b.latest, second_result).term
                == second
        }),
{
}

} // verus!
