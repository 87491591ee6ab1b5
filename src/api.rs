use vstd::prelude::*;

verus! {

/// The proxy in front of the game database.
pub const PROXY_BASE: &'static str = "https://igdb-api.nunogois.com/";

/// The query sent when no search term is given: rated, popular, first-version
/// releases, newest first.
pub const POPULAR_GAMES_QUERY: &'static str = "fields name, first_release_date, platforms.abbreviation, cover.url, total_rating;
          where rating > 69 &
          aggregated_rating_count > 0 &
          total_rating_count > 1 &
          version_parent = null;
          sort first_release_date desc;";

/// How a request is sent.
#[derive(Debug, Clone, Copy, PartialEq, Eq, Structural)]
pub enum Method {
    Get,
    Post,
}

/// A request to the game database, ready to be sent.
#[derive(Debug, Clone)]
pub struct ApiRequest {
    pub method: Method,
    pub url: String,
    /// The value of the `Authorization` header, if one is sent.
    pub authorization: Option<String>,
    pub body: String,
}

/// What to ask the database for.
#[derive(Debug, Clone)]
pub enum GameQuery {
    /// Games whose name matches a term, through the proxy.
    Search(String),
    /// The popular games, straight from the database.
    Popular,
}

pub open spec fn proxy_url(path: Seq<char>) -> Seq<char> {
    PROXY_BASE@ + path
}

pub open spec fn search_path_of(term: Seq<char>) -> Seq<char> {
    "games?search="@ + term
}

pub open spec fn bearer_of(token: Seq<char>) -> Seq<char> {
    "Bearer "@ + token
}

/// The url of `path` on the proxy.
pub fn igdb_api_proxy(path: &str) -> (r: String)
    ensures
        r@ == proxy_url(path@),
{
    let mut r = String::new();
    r.append(PROXY_BASE);
    r.append(path);
    r
}

/// The path that searches games by name.
pub fn search_path(term: &str) -> (r: String)
    ensures
        r@ == search_path_of(term@),
{
    let mut r = String::new();
    r.append("games?search=");
    r.append(term);
    r
}

/// The `Authorization` header value that carries `token`.
pub fn bearer(token: &str) -> (r: String)
    ensures
        r@ == bearer_of(token@),
{
    let mut r = String::new();
    r.append("Bearer ");
    r.append(token);
    r
}

/// The request for `query`: a search is a GET on the proxy with the bearer
/// token; the popular list is a POST of a fixed query to `api_base`.
pub fn request_for(query: &GameQuery, token: &str, api_base: &str) -> (r: ApiRequest)
    ensures
        match query {
            GameQuery::Search(term) => r.method == Method::Get && r.url@ == proxy_url(
                search_path_of(term@),
            ) && r.authorization is Some && r.authorization->0@ == bearer_of(token@)
                && r.body@ == Seq::<char>::empty(),
            GameQuery::Popular => r.method == Method::Post && r.url@ == api_base@
                && r.authorization is None && r.body@ == POPULAR_GAMES_QUERY@,
        },
{
    match query {
        GameQuery::Search(term) => {
            let path = search_path(term.as_str());
            ApiRequest {
                method: Method::Get,
                url: igdb_api_proxy(path.as_str()),
                authorization: Some(bearer(token)),
                body: String::new(),
            }
        },
        GameQuery::Popular => ApiRequest {
            method: Method::Post,
            url: api_base.to_owned(),
            authorization: None,
            body: POPULAR_GAMES_QUERY.to_owned(),
        },
    }
}

} // verus!
